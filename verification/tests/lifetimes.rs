use core::ptr::from_ref;
use facet_core::{Def, PtrConst, Shape, ShapeBuilder};
use facet_reflect::{CovariantPeek, Peek, Variance};

fn identity<'a>(x: &'a ()) -> &'a () {
    x
}

fn contravariant_shape() -> &'static Shape {
    Box::leak(Box::new(
        ShapeBuilder::for_sized::<fn(&'static str)>("Consumer")
            .def(Def::Scalar)
            .variance(facet_core::Variance::CONTRAVARIANT)
            .build(),
    ))
}

#[test]
fn covariant_lifetime_shrinks() {
    let value = "hello";
    let peek: Peek<'_, 'static> = Peek::new(&value);
    assert_eq!(peek.variance(), Variance::Covariant);

    let shrunk = peek.try_shrink_lifetime().unwrap();
    assert_eq!(shrunk.shape(), peek.shape());
    assert_eq!(shrunk.data(), peek.data());
    assert_eq!(peek.shrink_lifetime().data(), peek.data());
    assert!(peek.try_grow_lifetime().is_none());
}

#[test]
fn contravariant_lifetime_grows() {
    let value = 7u64;
    let peek: Peek<'_, 'static> =
        Peek::unchecked_new(PtrConst::new(from_ref(&value)), contravariant_shape());
    assert_eq!(peek.variance(), Variance::Contravariant);

    let grown = peek.try_grow_lifetime().unwrap();
    assert_eq!(grown.shape(), peek.shape());
    assert_eq!(grown.data(), peek.data());
    assert_eq!(peek.grow_lifetime().data(), peek.data());
    assert!(peek.try_shrink_lifetime().is_none());
    assert!(CovariantPeek::new(peek).is_none());
}

#[test]
fn invariant_lifetime_stays() {
    let pointer = identity as fn(&'static ()) -> &'static ();
    let peek: Peek<'_, 'static> = Peek::new(&pointer);
    assert_eq!(peek.variance(), Variance::Invariant);
    assert!(peek.try_shrink_lifetime().is_none());
    assert!(peek.try_grow_lifetime().is_none());
    assert!(CovariantPeek::from_ref(&pointer).is_none());
}

#[test]
fn covariant_view_keeps_the_value() {
    let value = vec![1i32, 2, 3];
    let peek: Peek<'_, 'static> = Peek::new(&value);
    let covariant = CovariantPeek::new_unchecked(peek);
    assert_eq!(covariant.shape(), peek.shape());
    assert_eq!(covariant.data(), peek.data());

    assert_eq!(CovariantPeek::from_ref(&value).unwrap().data(), peek.data());

    let back = covariant.into_peek();
    assert_eq!(back.shape(), peek.shape());
    assert_eq!(back.data(), peek.data());
    assert!(back.try_shrink_lifetime().is_some());
}
