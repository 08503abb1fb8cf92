//! Views whose lifetime may be shrunk by subtyping.

use crate::kind::Variance;
use crate::peek::{Peek, PeekView};
use crate::shape;
use core::marker::PhantomData;
use facet_core::{Facet, PtrConst, Shape};
use vstd::prelude::*;

verus! {

/// A covariant wrapper around [`Peek`] for types that are covariant over their lifetime parameter.
///
/// Unlike a `Peek`, a `CovariantPeek<'mem, 'static>` can be used where a `CovariantPeek<'mem, 'a>`
/// is expected. So it can be made only of a view whose type is covariant, and every value of this
/// type is of a covariant type.
#[derive(Clone, Copy)]
pub struct CovariantPeek<'mem, 'facet> {
    data: PtrConst,
    shape: &'static Shape,
    _covariant: PhantomData<(&'mem (), &'facet ())>,
}

impl<'mem, 'facet> View for CovariantPeek<'mem, 'facet> {
    type V = PeekView;

    closed spec fn view(&self) -> PeekView {
        PeekView { data: self.data, shape: *self.shape }
    }
}

impl<'mem, 'facet> CovariantPeek<'mem, 'facet> {
    #[verifier::type_invariant]
    spec fn is_covariant(self) -> bool {
        shape::is_valid(*self.shape) && shape::variance_of(*self.shape) == Variance::Covariant
    }

    /// Creates a `CovariantPeek` from a `Peek`, if the underlying type is covariant.
    pub fn new(peek: Peek<'mem, 'facet>) -> (r: Option<Self>)
        requires
            shape::is_valid(peek@.shape),
        ensures
            r is Some <==> shape::variance_of(peek@.shape) == Variance::Covariant,
            r matches Some(covariant) ==> covariant@ == peek@,
    {
        if peek.variance() == Variance::Covariant {
            Some(Self { data: peek.data(), shape: peek.shape(), _covariant: PhantomData })
        } else {
            None
        }
    }

    /// Creates a `CovariantPeek` from a `Peek` whose type is covariant.
    pub fn new_unchecked(peek: Peek<'mem, 'facet>) -> (r: Self)
        requires
            shape::is_valid(peek@.shape),
            shape::variance_of(peek@.shape) == Variance::Covariant,
        ensures
            r@ == peek@,
    {
        Self::new(peek).unwrap()
    }

    /// Creates a `CovariantPeek` directly from a value, if its type is covariant.
    ///
    /// The view that is tried is the one that [`Peek::new`] gives of the value.
    pub fn from_ref<T: Facet<'facet> + ?Sized>(t: &'mem T) -> (r: Option<Self>)
        ensures
            exists|peek: Peek<'mem, 'facet>| #[trigger]
                call_ensures(Peek::<'mem, 'facet>::new::<T>, (t,), peek) && (r is Some
                    <==> shape::variance_of(peek@.shape) == Variance::Covariant) && (r matches Some(
                    covariant,
                ) ==> covariant@ == peek@),
    {
        Self::new(Peek::new(t))
    }

    /// Returns the underlying `Peek`.
    pub fn into_peek(self) -> (r: Peek<'mem, 'facet>)
        ensures
            r@ == self@,
            shape::is_valid(r@.shape),
            shape::variance_of(r@.shape) == Variance::Covariant,
    {
        proof {
            use_type_invariant(&self);
        }
        Peek::unchecked_new(self.data, self.shape)
    }

    /// Returns the shape of the underlying value.
    pub fn shape(&self) -> (r: &'static Shape)
        ensures
            *r == self@.shape,
            shape::is_valid(*r),
            shape::variance_of(*r) == Variance::Covariant,
    {
        proof {
            use_type_invariant(self);
        }
        self.shape
    }

    /// Returns the data pointer.
    pub fn data(&self) -> (r: PtrConst)
        ensures
            r == self@.data,
    {
        self.data
    }
}

} // verus!
