//! Unwrapping transparent wrappers.
//!
//! A `NonZero<u8>` is serialized as the `u8` that it wraps, a path wrapper as its string. The shape
//! of such a type names the shape inside, and most of these types can lend the value inside.

use crate::peek::{Peek, PeekView};
use crate::shape;
use facet_core::{PtrConst, PtrMut, Shape};
use vstd::pervasive::unreached;
use vstd::prelude::*;

verus! {

/// The shape that is left of `shape` once `n` wrappers are taken off, if it has as many.
pub open spec fn inner_at(shape: Shape, n: nat) -> Option<Shape>
    decreases n,
{
    if n == 0 {
        Some(shape)
    } else {
        match inner_at(shape, (n - 1) as nat) {
            Some(wrapper) => match shape::inner_of(wrapper) {
                Some(inner) => Some(*inner),
                None => None,
            },
            None => None,
        }
    }
}

/// `borrow` took one wrapper off `from` and gave `to`.
pub open spec fn steps_to<B: Fn(&'static Shape, PtrConst) -> Option<Result<PtrMut, String>>>(
    borrow: B,
    from: PeekView,
    to: PeekView,
) -> bool {
    &&& shape::inner_of(from.shape) == Some(&to.shape)
    &&& exists|inner: PtrMut|
        to.data == shape::const_of(inner) && #[trigger] call_ensures(
            borrow,
            (&from.shape, from.data),
            Some(Ok(inner)),
        )
}

/// `borrow` took `n` wrappers off `from`, one after the other, and gave `to`.
pub open spec fn reaches<B: Fn(&'static Shape, PtrConst) -> Option<Result<PtrMut, String>>>(
    borrow: B,
    from: PeekView,
    n: nat,
    to: PeekView,
) -> bool
    decreases n,
{
    if n == 0 {
        from == to
    } else {
        exists|wrapper: PeekView|
            reaches(borrow, from, (n - 1) as nat, wrapper) && #[trigger] steps_to(
                borrow,
                wrapper,
                to,
            )
    }
}

/// There is nothing more to take off: the value wraps nothing, or does not lend what it wraps.
pub open spec fn stops_at<B: Fn(&'static Shape, PtrConst) -> Option<Result<PtrMut, String>>>(
    borrow: B,
    at: PeekView,
) -> bool {
    shape::inner_of(at.shape) is None || call_ensures(
        borrow,
        (&at.shape, at.data),
        None::<Result<PtrMut, String>>,
    )
}

/// `to` is the innermost value of `from`.
pub open spec fn is_innermost<B: Fn(&'static Shape, PtrConst) -> Option<Result<PtrMut, String>>>(
    borrow: B,
    from: PeekView,
    to: PeekView,
) -> bool {
    stops_at(borrow, to) && exists|n: nat| reaches(borrow, from, n, to)
}

/// On this wrapper `borrow` can be called and does not fail.
pub open spec fn lends<B: Fn(&'static Shape, PtrConst) -> Option<Result<PtrMut, String>>>(
    borrow: B,
    at: PeekView,
) -> bool {
    &&& call_requires(borrow, (&at.shape, at.data))
    &&& forall|message: String|
        !#[trigger] call_ensures(
            borrow,
            (&at.shape, at.data),
            Some(Err::<PtrMut, String>(message)),
        )
}

/// On every wrapper met on the way from `from`, `borrow` can be called and does not fail.
pub open spec fn borrows_from<B: Fn(&'static Shape, PtrConst) -> Option<Result<PtrMut, String>>>(
    borrow: B,
    from: PeekView,
) -> bool {
    forall|n: nat, at: PeekView|
        #[trigger] reaches(borrow, from, n, at) && shape::inner_of(at.shape) is Some ==> lends(
            borrow,
            at,
        )
}

/// The unwrapping of `from` comes to an end: some number of wrappers is never taken off.
pub open spec fn ends_from<B: Fn(&'static Shape, PtrConst) -> Option<Result<PtrMut, String>>>(
    borrow: B,
    from: PeekView,
) -> bool {
    exists|n: nat| #[trigger] never_reached(borrow, from, n)
}

/// `n` wrappers are never taken off `from`.
pub open spec fn never_reached<B: Fn(&'static Shape, PtrConst) -> Option<Result<PtrMut, String>>>(
    borrow: B,
    from: PeekView,
    n: nat,
) -> bool {
    forall|to: PeekView| !reaches(borrow, from, n, to)
}

/// If so many wrappers are never taken off, no more of them are.
pub proof fn lemma_never_reached<
    B: Fn(&'static Shape, PtrConst) -> Option<Result<PtrMut, String>>,
>(borrow: B, from: PeekView, m: nat, n: nat)
    requires
        never_reached(borrow, from, m),
        m <= n,
    ensures
        never_reached(borrow, from, n),
    decreases n,
{
    if m < n {
        lemma_never_reached(borrow, from, m, (n - 1) as nat);
        assert forall|to: PeekView| !reaches(borrow, from, n, to) by {
            if reaches(borrow, from, n, to) {
                let wrapper = choose|wrapper: PeekView|
                    reaches(borrow, from, (n - 1) as nat, wrapper) && #[trigger] steps_to(
                        borrow,
                        wrapper,
                        to,
                    );
                assert(!reaches(borrow, from, (n - 1) as nat, wrapper));
            }
        }
    }
}

/// One more wrapper taken off.
proof fn lemma_one_more<B: Fn(&'static Shape, PtrConst) -> Option<Result<PtrMut, String>>>(
    borrow: B,
    from: PeekView,
    n: nat,
    wrapper: PeekView,
    to: PeekView,
)
    requires
        reaches(borrow, from, n, wrapper),
        steps_to(borrow, wrapper, to),
    ensures
        reaches(borrow, from, n + 1, to),
{
}

impl<'mem, 'facet> Peek<'mem, 'facet> {
    /// Takes one wrapper off, unless there is none or it does not lend what it wraps.
    fn unwrap_once<B: Fn(&'static Shape, PtrConst) -> Option<Result<PtrMut, String>>>(
        self,
        borrow: &B,
    ) -> (r: Option<Self>)
        requires
            shape::inner_of(self@.shape) is Some ==> lends(*borrow, self@),
        ensures
            match r {
                Some(next) => steps_to(*borrow, self@, next@),
                None => stops_at(*borrow, self@),
            },
    {
        let inner = match shape::inner_shape(self.shape()) {
            Some(inner) => inner,
            None => {
                return None;
            },
        };
        match borrow(self.shape(), self.data()) {
            Some(Ok(data)) => {
                assert(call_ensures(
                    *borrow,
                    (&self@.shape, self@.data),
                    Some(Ok::<PtrMut, String>(data)),
                ));
                Some(Peek::unchecked_new(data.as_const(), inner))
            },
            Some(Err(message)) => {
                assert(call_ensures(
                    *borrow,
                    (&self@.shape, self@.data),
                    Some(Err::<PtrMut, String>(message)),
                ));
                unreached()
            },
            None => None,
        }
    }

    /// Returns the innermost value, taking transparent wrappers off one after the other.
    ///
    /// `borrow` lends the value that a value of the given shape wraps. It returns `None` where the
    /// shape has no such function; the wrapper is then the innermost value. An error from it is
    /// fatal, and left out here. So are values from which wrappers can be taken off for ever, which
    /// have no innermost one; see [`Peek::innermost_peek_within`].
    pub fn innermost_peek<B: Fn(&'static Shape, PtrConst) -> Option<Result<PtrMut, String>>>(
        self,
        borrow: B,
    ) -> (r: Self)
        requires
            ends_from(borrow, self@),
            borrows_from(borrow, self@),
        ensures
            is_innermost(borrow, self@, r@),
    {
        let mut current = self;
        let ghost end: nat = choose|n: nat| #[trigger] never_reached(borrow, self@, n);
        let ghost mut taken: nat = 0;
        loop
            invariant
                borrows_from(borrow, self@),
                never_reached(borrow, self@, end),
                reaches(borrow, self@, taken, current@),
            decreases end - taken,
        {
            proof {
                if end <= taken {
                    lemma_never_reached(borrow, self@, end, taken);
                }
            }
            match current.unwrap_once(&borrow) {
                Some(next) => {
                    proof {
                        lemma_one_more(borrow, self@, taken, current@, next@);
                        taken = taken + 1;
                    }
                    current = next;
                },
                None => {
                    return current;
                },
            }
        }
    }

    /// Returns the innermost value, as [`Peek::innermost_peek`] does, if no more than `limit`
    /// wrappers are to be taken off for it, and `None` otherwise.
    pub fn innermost_peek_within<
        B: Fn(&'static Shape, PtrConst) -> Option<Result<PtrMut, String>>,
    >(self, limit: usize, borrow: B) -> (r: Option<Self>)
        requires
            borrows_from(borrow, self@),
        ensures
            match r {
                Some(peek) => stops_at(borrow, peek@) && exists|n: nat|
                    n <= limit && reaches(borrow, self@, n, peek@),
                None => !never_reached(borrow, self@, (limit + 1) as nat),
            },
    {
        let mut current = self;
        let mut taken: usize = 0;
        loop
            invariant
                borrows_from(borrow, self@),
                taken <= limit,
                reaches(borrow, self@, taken as nat, current@),
            decreases limit - taken,
        {
            match current.unwrap_once(&borrow) {
                Some(next) => {
                    proof {
                        lemma_one_more(borrow, self@, taken as nat, current@, next@);
                    }
                    if taken == limit {
                        return None;
                    }
                    current = next;
                    taken = taken + 1;
                },
                None => {
                    return Some(current);
                },
            }
        }
    }
}

} // verus!
