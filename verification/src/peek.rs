//! The view of a value together with its shape.

use crate::error;
use crate::error::ReflectError;
use crate::kind::Variance;
use crate::shape;
use core::cmp::Ordering;
use core::marker::PhantomData;
use facet_core::{Facet, PtrConst, ScalarType, Shape, VTableErased};
use vstd::prelude::*;

verus! {

/// What a [`Peek`] stands for: a place in memory and the description of the value there.
pub struct PeekView {
    /// Where the value is.
    pub data: PtrConst,
    /// What the value is.
    pub shape: Shape,
}

/// A read-only view into a value with run-time type information.
///
/// `'mem` is how long the value may be read, `'facet` the lifetime parameter of its type. A `Peek`
/// is invariant over `'facet`: if it were not, a function pointer that accepts only `'static`
/// references could be read back as one that accepts shorter ones. [`Peek::try_shrink_lifetime`]
/// and [`Peek::try_grow_lifetime`] change it where the type allows.
#[derive(Clone, Copy)]
pub struct Peek<'mem, 'facet> {
    data: PtrConst,
    shape: &'static Shape,
    _invariant: PhantomData<(&'mem (), &'facet mut &'facet ())>,
}

impl<'mem, 'facet> View for Peek<'mem, 'facet> {
    type V = PeekView;

    closed spec fn view(&self) -> PeekView {
        PeekView { data: self.data, shape: *self.shape }
    }
}

/// The order of two values, where a shape without an order leaves them unordered.
pub open spec fn ordering_of(o: Option<Option<Ordering>>) -> Option<Ordering> {
    match o {
        Some(ordering) => ordering,
        None => None,
    }
}

impl<'mem, 'facet> Peek<'mem, 'facet> {
    /// The two views are of values of the same type.
    pub open spec fn same_type(&self, other: &Peek<'_, '_>) -> bool {
        shape::identity_of(self@.shape) == shape::identity_of(other@.shape)
    }

    /// Returns a read-only view over a `T` value.
    ///
    /// This calls `PtrConst::new` on the address of `t` and reads the associated constant
    /// `<T as Facet>::SHAPE`. That this shape and those it refers to are valid is an assumption on
    /// the implementations of the unsafe trait `Facet`. Nothing more is said of the result: the one
    /// is an address, the other belongs to a trait that the proofs do not know.
    #[verifier::external_body]
    pub fn new<T: Facet<'facet> + ?Sized>(t: &'mem T) -> (r: Self)
        ensures
            shape::is_valid(r@.shape),
            shape::is_valid_throughout(r@.shape),
    {
        Self {
            data: PtrConst::new(core::ptr::NonNull::from(t).as_ptr()),
            shape: T::SHAPE,
            _invariant: PhantomData,
        }
    }

    /// Returns a read-only view over a value, given its shape, without checking that the two
    /// match.
    ///
    /// Nothing is read here. The functions that read through the view rely on `data` pointing to
    /// a valid value of the shape.
    pub fn unchecked_new(data: PtrConst, shape: &'static Shape) -> (r: Self)
        ensures
            r@ == (PeekView { data, shape: *shape }),
    {
        Self { data, shape, _invariant: PhantomData }
    }

    /// Returns the shape.
    pub fn shape(&self) -> (r: &'static Shape)
        ensures
            *r == self@.shape,
    {
        self.shape
    }

    /// Returns the data.
    pub fn data(&self) -> (r: PtrConst)
        ensures
            r == self@.data,
    {
        self.data
    }

    /// Returns the computed variance of the underlying type.
    pub fn variance(&self) -> (r: Variance)
        requires
            shape::is_valid(self@.shape),
        ensures
            r == shape::variance_of(self@.shape),
    {
        shape::computed_variance(self.shape)
    }

    /// Tries to shrink the `'facet` lifetime parameter.
    ///
    /// Succeeds just where the type is covariant: a value that is valid for a long lifetime is
    /// then valid for a shorter one.
    pub fn try_shrink_lifetime<'shorter>(self) -> (r: Option<Peek<'mem, 'shorter>>)
        where
            'facet: 'shorter,
        requires
            shape::is_valid(self@.shape),
        ensures
            r is Some <==> shape::variance_of(self@.shape) == Variance::Covariant,
            r matches Some(peek) ==> peek@ == self@,
    {
        if self.variance() == Variance::Covariant {
            Some(Peek { data: self.data, shape: self.shape, _invariant: PhantomData })
        } else {
            None
        }
    }

    /// Shrinks the `'facet` lifetime parameter of a covariant type.
    pub fn shrink_lifetime<'shorter>(self) -> (r: Peek<'mem, 'shorter>)
        where
            'facet: 'shorter,
        requires
            shape::is_valid(self@.shape),
            shape::variance_of(self@.shape) == Variance::Covariant,
        ensures
            r@ == self@,
    {
        self.try_shrink_lifetime().unwrap()
    }

    /// Tries to grow the `'facet` lifetime parameter.
    ///
    /// Succeeds just where the type is contravariant: a function that accepts a short lifetime
    /// then accepts a longer one.
    pub fn try_grow_lifetime<'longer>(self) -> (r: Option<Peek<'mem, 'longer>>)
        where
            'longer: 'facet,
        requires
            shape::is_valid(self@.shape),
        ensures
            r is Some <==> shape::variance_of(self@.shape) == Variance::Contravariant,
            r matches Some(peek) ==> peek@ == self@,
    {
        if self.variance() == Variance::Contravariant {
            Some(Peek { data: self.data, shape: self.shape, _invariant: PhantomData })
        } else {
            None
        }
    }

    /// Grows the `'facet` lifetime parameter of a contravariant type.
    pub fn grow_lifetime<'longer>(self) -> (r: Peek<'mem, 'longer>)
        where
            'longer: 'facet,
        requires
            shape::is_valid(self@.shape),
            shape::variance_of(self@.shape) == Variance::Contravariant,
        ensures
            r@ == self@,
    {
        self.try_grow_lifetime().unwrap()
    }

    /// Returns the vtable.
    pub fn vtable(&self) -> (r: VTableErased)
        ensures
            r == shape::vtable_of(self@.shape),
    {
        shape::shape_vtable(self.shape)
    }

    /// Get the scalar type if the value is a known scalar.
    pub fn scalar_type(&self) -> (r: Option<ScalarType>)
        ensures
            r == shape::scalar_of(self@.shape),
    {
        ScalarType::try_from_shape(self.shape)
    }

    /// Returns a unique identifier for this value, usable for cycle detection.
    ///
    /// `address` gives the address that a pointer holds.
    pub fn id<A: FnOnce(PtrConst) -> usize>(&self, address: A) -> (r: ValueId)
        requires
            call_requires(address, (self@.data,)),
        ensures
            call_ensures(address, (self@.data,), r@.address),
            r@.shape == self@.shape,
    {
        ValueId::new(self.shape, address(self.data))
    }

    /// Returns true if the two values are pointer-equal.
    ///
    /// `address` gives the address that a pointer holds.
    pub fn ptr_eq<A: Fn(PtrConst) -> usize>(&self, other: &Peek<'_, '_>, address: A) -> (r: bool)
        requires
            call_requires(address, (self@.data,)),
            call_requires(address, (other@.data,)),
        ensures
            exists|a: usize, b: usize|
                #![auto]
                call_ensures(address, (self@.data,), a) && call_ensures(address, (other@.data,), b)
                    && r == (a == b),
    {
        let a: usize = address(self.data);
        let b: usize = address(other.data);
        a == b
    }

    /// Returns whether this value equals the other one.
    ///
    /// `compare` compares two values of a shape, or returns `None` where the shape has no
    /// equality; the values then count as different. It is called only on values of the same type.
    pub fn partial_eq<F: FnOnce(&'static Shape, PtrConst, PtrConst) -> Option<bool>>(
        &self,
        other: &Peek<'_, '_>,
        compare: F,
    ) -> (r: Result<bool, ReflectError>)
        requires
            self.same_type(other) ==> call_requires(
                compare,
                (&self@.shape, self@.data, other@.data),
            ),
        ensures
            !self.same_type(other) ==> r == Err::<bool, ReflectError>(
                error::wrong_shape(self@.shape, other@.shape),
            ),
            self.same_type(other) ==> exists|o: Option<bool>|
                #[trigger] call_ensures(compare, (&self@.shape, self@.data, other@.data), o) && r
                    == Ok::<bool, ReflectError>(o == Some(true)),
    {
        if !shape::same_type(self.shape, other.shape) {
            return Err(ReflectError::WrongShape { expected: self.shape, actual: other.shape });
        }
        match compare(self.shape, self.data, other.data) {
            Some(result) => Ok(result),
            None => Ok(false),
        }
    }

    /// Returns whether this value equals the other one; values that cannot be compared are
    /// different.
    pub fn eq<F: FnOnce(&'static Shape, PtrConst, PtrConst) -> Option<bool>>(
        &self,
        other: &Peek<'_, '_>,
        compare: F,
    ) -> (r: bool)
        requires
            self.same_type(other) ==> call_requires(
                compare,
                (&self@.shape, self@.data, other@.data),
            ),
        ensures
            !self.same_type(other) ==> !r,
            self.same_type(other) ==> exists|o: Option<bool>|
                #[trigger] call_ensures(compare, (&self@.shape, self@.data, other@.data), o) && r
                    == (o == Some(true)),
    {
        match self.partial_eq(other, compare) {
            Ok(result) => result,
            Err(_) => false,
        }
    }

    /// Compares this value with another and returns their ordering.
    ///
    /// `compare` orders two values of a shape, or returns `None` where the shape has no order; the
    /// values then count as unordered. It is called only on values of the same type.
    pub fn partial_cmp<F: FnOnce(&'static Shape, PtrConst, PtrConst) -> Option<Option<Ordering>>>(
        &self,
        other: &Peek<'_, '_>,
        compare: F,
    ) -> (r: Result<Option<Ordering>, ReflectError>)
        requires
            self.same_type(other) ==> call_requires(
                compare,
                (&self@.shape, self@.data, other@.data),
            ),
        ensures
            !self.same_type(other) ==> r == Err::<Option<Ordering>, ReflectError>(
                error::wrong_shape(self@.shape, other@.shape),
            ),
            self.same_type(other) ==> exists|o: Option<Option<Ordering>>|
                #[trigger] call_ensures(compare, (&self@.shape, self@.data, other@.data), o) && r
                    == Ok::<Option<Ordering>, ReflectError>(ordering_of(o)),
    {
        if !shape::same_type(self.shape, other.shape) {
            return Err(ReflectError::WrongShape { expected: self.shape, actual: other.shape });
        }
        match compare(self.shape, self.data, other.data) {
            Some(ordering) => Ok(ordering),
            None => Ok(None),
        }
    }

    /// Orders this value and the other one; values that cannot be compared are unordered.
    pub fn order<F: FnOnce(&'static Shape, PtrConst, PtrConst) -> Option<Option<Ordering>>>(
        &self,
        other: &Peek<'_, '_>,
        compare: F,
    ) -> (r: Option<Ordering>)
        requires
            self.same_type(other) ==> call_requires(
                compare,
                (&self@.shape, self@.data, other@.data),
            ),
        ensures
            !self.same_type(other) ==> r is None,
            self.same_type(other) ==> exists|o: Option<Option<Ordering>>|
                #[trigger] call_ensures(compare, (&self@.shape, self@.data, other@.data), o) && r
                    == ordering_of(o),
    {
        match self.partial_cmp(other, compare) {
            Ok(ordering) => ordering,
            Err(_) => None,
        }
    }

    /// Hashes this value.
    ///
    /// `feed` feeds a value of a shape to a hasher, or returns `None` where the shape cannot be
    /// hashed.
    pub fn hash<F: FnOnce(&'static Shape, PtrConst) -> Option<()>>(&self, feed: F) -> (r: Result<
        (),
        ReflectError,
    >)
        requires
            call_requires(feed, (&self@.shape, self@.data)),
        ensures
            exists|o: Option<()>| #[trigger]
                call_ensures(feed, (&self@.shape, self@.data), o) && match o {
                    Some(_) => r is Ok,
                    None => r == Err::<(), ReflectError>(error::unsupported(self@.shape, "hash")),
                },
    {
        match feed(self.shape, self.data) {
            Some(()) => Ok(()),
            None => Err(ReflectError::OperationFailed { shape: self.shape, operation: "hash" }),
        }
    }
}

/// What a [`ValueId`] stands for.
pub struct ValueIdView {
    /// The shape of the value.
    pub shape: Shape,
    /// The address of the value.
    pub address: usize,
}

/// A unique identifier for a peek value: two are equal when type and address are.
#[derive(Clone, Copy, PartialOrd, Ord, Eq, Hash)]
pub struct ValueId {
    shape: &'static Shape,
    address: usize,
}

impl View for ValueId {
    type V = ValueIdView;

    closed spec fn view(&self) -> ValueIdView {
        ValueIdView { shape: *self.shape, address: self.address }
    }
}

impl ValueId {
    pub(crate) fn new(shape: &'static Shape, address: usize) -> (r: Self)
        ensures
            r@ == (ValueIdView { shape: *shape, address }),
    {
        Self { shape, address }
    }

    /// Returns the shape of the value.
    pub fn shape(&self) -> (r: &'static Shape)
        ensures
            *r == self@.shape,
    {
        self.shape
    }

    /// Returns the address of the value.
    pub fn address(&self) -> (r: usize)
        ensures
            r == self@.address,
    {
        self.address
    }
}

impl PartialEq for ValueId {
    fn eq(&self, other: &Self) -> (r: bool) {
        shape::same_type(self.shape, other.shape) && self.address == other.address
    }
}

impl vstd::std_specs::cmp::PartialEqSpecImpl for ValueId {
    open spec fn obeys_eq_spec() -> bool {
        true
    }

    open spec fn eq_spec(&self, other: &Self) -> bool {
        shape::identity_of(self@.shape) == shape::identity_of(other@.shape) && self@.address
            == other@.address
    }
}

} // verus!
