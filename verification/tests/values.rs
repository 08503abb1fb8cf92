use core::cmp::Ordering;
use core::num::NonZero;
use core::ptr::{from_mut, from_ref};
use facet_core::{Facet, PtrConst, PtrMut, ScalarType, Shape, ShapeBuilder};
use facet_reflect::{Peek, ReflectError, StrAccess};

fn address(data: PtrConst) -> usize {
    data.as_byte_ptr() as usize
}

struct Outer;
struct Middle;

fn wrapped_shape() -> &'static Shape {
    let middle: &'static Shape = Box::leak(Box::new(
        ShapeBuilder::for_sized::<Middle>("Middle").inner(u8::SHAPE).build(),
    ));
    Box::leak(Box::new(ShapeBuilder::for_sized::<Outer>("Outer").inner(middle).build()))
}

#[test]
fn new_views_the_value_by_its_shape() {
    let value = 5u16;
    let peek = Peek::new(&value);
    assert_eq!(peek.shape(), u16::SHAPE);
    assert_eq!(peek.data(), PtrConst::new(from_ref(&value)));
}

#[test]
fn scalar_type_is_that_of_the_shape() {
    assert_eq!(Peek::new(&5u8).scalar_type(), Some(ScalarType::U8));
    assert_eq!(Peek::new("x").scalar_type(), Some(ScalarType::Str));
    assert_eq!(Peek::new(&"x").scalar_type(), Some(ScalarType::Str));
    assert_eq!(Peek::new(&String::new()).scalar_type(), Some(ScalarType::String));
    assert_eq!(Peek::new(&vec![5u8]).scalar_type(), None);
}

#[test]
fn vtable_is_that_of_the_shape() {
    assert!(Peek::new(&5u8).vtable().has_display());
    assert!(!Peek::new(&vec![5u8]).vtable().has_display());
}

#[test]
fn pointer_equality_compares_addresses() {
    let pair = [1i32, 1];
    let first = Peek::new(&pair[0]);
    let second = Peek::new(&pair[1]);
    let whole = Peek::new(&pair);
    assert!(first.ptr_eq(&first, address));
    assert!(!first.ptr_eq(&second, address));
    assert!(first.ptr_eq(&whole, address));
}

#[test]
fn identifiers_compare_type_and_address() {
    let pair = [1i32, 1];
    let first = Peek::new(&pair[0]).id(address);
    let again = Peek::new(&pair[0]).id(address);
    let second = Peek::new(&pair[1]).id(address);
    let whole = Peek::new(&pair).id(address);
    assert!(first == again);
    assert!(first != second);
    assert!(first != whole);
    assert_eq!(first.address(), whole.address());
    assert_eq!(first.shape(), i32::SHAPE);
    assert!((first < second) == (first.address() < second.address()));
}

#[test]
fn equality_of_values_of_one_type() {
    let (a, b) = (1i32, 2i32);
    let (x, y) = (Peek::new(&a), Peek::new(&b));
    let compare = |shape: &'static Shape, p: PtrConst, q: PtrConst| {
        assert_eq!(shape, i32::SHAPE);
        assert_eq!(p, PtrConst::new(from_ref(&a)));
        assert_eq!(q, PtrConst::new(from_ref(&b)));
        Some(a == b)
    };
    assert!(matches!(x.partial_eq(&y, compare), Ok(false)));
    assert!(matches!(x.partial_eq(&y, |_, _, _| Some(true)), Ok(true)));
    assert!(!x.eq(&y, compare));
    assert!(x.eq(&y, |_, _, _| Some(true)));
}

#[test]
fn equality_of_values_of_two_types() {
    let x = Peek::new(&1i32);
    let y = Peek::new(&1i64);
    match x.partial_eq(&y, |_, _, _| panic!("not comparable")) {
        Err(ReflectError::WrongShape { expected, actual }) => {
            assert_eq!(expected, i32::SHAPE);
            assert_eq!(actual, i64::SHAPE);
        }
        _ => panic!("values of two types"),
    }
    assert!(!x.eq(&y, |_, _, _| panic!("not comparable")));
}

#[test]
fn equality_that_the_shape_lacks() {
    let x = Peek::new(&1i32);
    assert!(matches!(x.partial_eq(&x, |_, _, _| None), Ok(false)));
    assert!(!x.eq(&x, |_, _, _| None));
}

#[test]
fn order_of_values() {
    let (a, b) = (1i32, 2i32);
    let (x, y) = (Peek::new(&a), Peek::new(&b));
    let compare = |_: &'static Shape, p: PtrConst, q: PtrConst| {
        assert_eq!(p, PtrConst::new(from_ref(&a)));
        assert_eq!(q, PtrConst::new(from_ref(&b)));
        Some(a.partial_cmp(&b))
    };
    assert!(matches!(x.partial_cmp(&y, compare), Ok(Some(Ordering::Less))));
    assert_eq!(x.order(&y, compare), Some(Ordering::Less));
    assert!(matches!(x.partial_cmp(&y, |_, _, _| Some(None)), Ok(None)));
    assert_eq!(x.order(&y, |_, _, _| Some(None)), None);
    assert!(matches!(x.partial_cmp(&y, |_, _, _| None), Ok(None)));
    assert_eq!(x.order(&y, |_, _, _| None), None);
    let z = Peek::new(&1i64);
    assert!(matches!(
        x.partial_cmp(&z, |_, _, _| panic!("not comparable")),
        Err(ReflectError::WrongShape { .. })
    ));
    assert_eq!(x.order(&z, |_, _, _| panic!("not comparable")), None);
}

#[test]
fn hash_feeds_the_value() {
    let value = 9u32;
    let peek = Peek::new(&value);
    let feed = |shape: &'static Shape, data: PtrConst| {
        assert_eq!(shape, u32::SHAPE);
        assert_eq!(data, PtrConst::new(from_ref(&value)));
        Some(())
    };
    assert!(matches!(peek.hash(feed), Ok(())));
    match peek.hash(|_, _| None) {
        Err(ReflectError::OperationFailed { shape, operation }) => {
            assert_eq!(shape, u32::SHAPE);
            assert_eq!(operation, "hash");
        }
        _ => panic!("no hash"),
    }
}

#[test]
fn text_is_accessed_by_the_shape() {
    let bare = "text";
    let owned = String::from("text");
    let reference = &bare;
    let double = &reference;
    assert!(matches!(Peek::new(bare).str_access(), Some(StrAccess::Bare(_))));
    assert!(matches!(Peek::new(&owned).str_access(), Some(StrAccess::Owned(_))));
    assert!(matches!(Peek::new(reference).str_access(), Some(StrAccess::Reference(_))));
    assert!(matches!(Peek::new(double).str_access(), Some(StrAccess::DoubleReference(_))));
    assert!(Peek::new(&double).str_access().is_none());
    assert!(Peek::new(&4i32).str_access().is_none());
    assert!(Peek::new(&&4i32).str_access().is_none());
    assert!(Peek::new(&&owned).str_access().is_none());
}

#[test]
fn text_under_a_wrapper() {
    let mut text = String::from("inside");
    let inside = PtrMut::new(from_mut(&mut text));
    let shape: &'static Shape = Box::leak(Box::new(
        ShapeBuilder::for_sized::<Outer>("Outer").inner(String::SHAPE).build(),
    ));
    let peek: Peek<'_, 'static> = Peek::unchecked_new(PtrConst::new(from_ref(&Outer)), shape);
    let read = |access: StrAccess| match access {
        StrAccess::Owned(data) => {
            assert_eq!(data, inside.as_const());
            "inside"
        }
        _ => panic!("a String is read as a String"),
    };
    assert_eq!(peek.as_str(|_, _| Some(Ok(inside)), read), Some("inside"));
    let none = peek.as_str(|_, _| None, |_| panic!("the wrapper holds no text itself"));
    assert_eq!(none, None);
}

#[test]
fn bytes_behind_a_reference() {
    let bytes: &[u8] = &[1, 2, 3];
    let peek = Peek::new(&bytes);
    let read = |data: PtrConst| {
        assert_eq!(data, PtrConst::new(from_ref(&bytes)));
        bytes
    };
    assert_eq!(peek.as_bytes(read), Some(&[1u8, 2, 3][..]));

    let words: &[u16] = &[1, 2, 3];
    assert_eq!(Peek::new(&words).as_bytes(|_| panic!("no bytes")), None);
    assert_eq!(Peek::new(bytes).as_bytes(|_| panic!("no reference")), None);
    assert_eq!(Peek::new(&vec![1u8]).as_bytes(|_| panic!("no reference")), None);
    assert_eq!(Peek::new(&"text").as_bytes(|_| panic!("no slice")), None);
}

#[test]
fn values_are_read_as_their_own_type() {
    let value = 42i32;
    let peek = Peek::new(&value);
    let read = |data: PtrConst| {
        assert_eq!(data, PtrConst::new(from_ref(&value)));
        value
    };
    assert!(matches!(peek.get(i32::SHAPE, read), Ok(42)));
    assert!(matches!(peek.try_get(i32::SHAPE, read), Ok(42)));
    match peek.try_get(u32::SHAPE, |_| panic!("another type")) {
        Err::<u32, ReflectError>(ReflectError::WrongShape { expected, actual }) => {
            assert_eq!(expected, i32::SHAPE);
            assert_eq!(actual, u32::SHAPE);
        }
        _ => panic!("another type"),
    }
}

#[test]
fn nonzero_wraps_an_integer() {
    let value = NonZero::new(7u8).unwrap();
    let mut inside = 7u8;
    let lent = PtrMut::new(from_mut(&mut inside));
    let peek = Peek::new(&value);
    let borrow = |shape: &'static Shape, data: PtrConst| {
        assert_eq!(shape, <NonZero<u8> as Facet>::SHAPE);
        assert!(shape.vtable.has_try_borrow_inner());
        assert_eq!(data, PtrConst::new(from_ref(&value)));
        Some(Ok(lent))
    };
    let innermost = peek.innermost_peek(borrow);
    assert_eq!(innermost.shape(), u8::SHAPE);
    assert_eq!(innermost.data(), lent.as_const());

    let again = innermost.innermost_peek(|_, _| panic!("nothing is wrapped"));
    assert_eq!(again.shape(), u8::SHAPE);
    assert_eq!(again.data(), lent.as_const());
}

#[test]
fn wrappers_are_taken_off_one_by_one() {
    let mut middle = Middle;
    let mut byte = 3u8;
    let to_middle = PtrMut::new(from_mut(&mut middle));
    let to_byte = PtrMut::new(from_mut(&mut byte));
    let shape = wrapped_shape();
    let peek: Peek<'_, 'static> = Peek::unchecked_new(PtrConst::new(from_ref(&Outer)), shape);

    let all = |shape: &'static Shape, _: PtrConst| match shape.type_identifier {
        "Outer" => Some(Ok(to_middle)),
        "Middle" => Some(Ok(to_byte)),
        _ => panic!("not a wrapper"),
    };
    let innermost = peek.innermost_peek(all);
    assert_eq!(innermost.shape(), u8::SHAPE);
    assert_eq!(innermost.data(), to_byte.as_const());

    let one = |shape: &'static Shape, _: PtrConst| match shape.type_identifier {
        "Outer" => Some(Ok(to_middle)),
        _ => None,
    };
    let stopped = peek.innermost_peek(one);
    assert_eq!(stopped.shape().type_identifier, "Middle");
    assert_eq!(stopped.data(), to_middle.as_const());

    let none = peek.innermost_peek(|_, _| None);
    assert_eq!(none.data(), peek.data());

    assert!(peek.innermost_peek_within(1, all).is_none());
    assert!(peek.innermost_peek_within(0, one).is_none());
    assert_eq!(peek.innermost_peek_within(1, one).unwrap().data(), to_middle.as_const());
    let within = peek.innermost_peek_within(2, all).unwrap();
    assert_eq!(within.shape(), u8::SHAPE);
    assert_eq!(within.data(), to_byte.as_const());
}

#[test]
fn one_step_and_then_the_rest() {
    let mut middle = Middle;
    let mut byte = 3u8;
    let to_middle = PtrMut::new(from_mut(&mut middle));
    let to_byte = PtrMut::new(from_mut(&mut byte));
    let all = |shape: &'static Shape, _: PtrConst| match shape.type_identifier {
        "Outer" => Some(Ok(to_middle)),
        _ => Some(Ok(to_byte)),
    };
    let shape = wrapped_shape();
    let peek: Peek<'_, 'static> = Peek::unchecked_new(PtrConst::new(from_ref(&Outer)), shape);
    let next: Peek<'_, 'static> = Peek::unchecked_new(to_middle.as_const(), shape.inner.unwrap());
    assert_eq!(peek.innermost_peek(all).data(), next.innermost_peek(all).data());
    assert_eq!(peek.innermost_peek(all).shape(), next.innermost_peek(all).shape());
}

struct Endless;

static ENDLESS: Shape = ShapeBuilder::for_sized::<Endless>("Endless").inner(&ENDLESS).build();

#[test]
fn a_type_that_wraps_itself_and_does_not_lend() {
    let peek: Peek<'_, 'static> = Peek::unchecked_new(PtrConst::new(from_ref(&Endless)), &ENDLESS);
    let innermost = peek.innermost_peek(|_, _| None);
    assert_eq!(innermost.shape(), peek.shape());
    assert_eq!(innermost.data(), peek.data());
    assert!(peek.innermost_peek_within(0, |_, _| None).is_some());
    let text = peek.as_str(|_, _| None, |_| panic!("the wrapper holds no text itself"));
    assert_eq!(text, None);
}
