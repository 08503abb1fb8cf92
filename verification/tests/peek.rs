use core::ptr::from_ref;
use facet_core::{
    shape_of, FieldBuilder, PtrConst, PtrMut, Shape, ShapeBuilder, StructKind, Type,
};
use facet_reflect::{CovariantPeek, Peek, StrAccess};

/// Lends what a wrapper holds; none of the wrappers here can.
fn lend(shape: &'static Shape, _data: PtrConst) -> Option<Result<PtrMut, String>> {
    assert!(!shape.vtable.has_try_borrow_inner());
    None
}

fn identity<'a>(x: &'a ()) -> &'a () {
    x
}

struct InvariantLifetime<'a> {
    f: fn(&'a ()) -> &'a (),
}

fn use_shorter<'a>(_p: CovariantPeek<'_, 'a>) {}

fn force_long<'long, 'short>(x: &'long mut i32) -> &'short mut i32
where
    'long: 'short,
{
    x
}

#[test]
fn test_peek_as_str_empty_string() {
    let text = "";
    let peek = Peek::new(text);
    let read = |access: StrAccess| match access {
        StrAccess::Bare(data) => {
            assert_eq!(data, PtrConst::new(from_ref(text)));
            text
        }
        _ => panic!("a str is read as a str"),
    };
    assert_eq!(peek.as_str(lend, read), Some(""));
}

#[test]
fn test_peek_as_str_non_empty_string() {
    let text = "hello";
    let peek = Peek::new(text);
    let read = |access: StrAccess| match access {
        StrAccess::Bare(data) => {
            assert_eq!(data, PtrConst::new(from_ref(text)));
            text
        }
        _ => panic!("a str is read as a str"),
    };
    assert_eq!(peek.as_str(lend, read), Some("hello"));
}

#[test]
fn test_peek_as_str_owned_string() {
    let s = String::from("owned string");
    let peek = Peek::new(&s);
    let read = |access: StrAccess| match access {
        StrAccess::Owned(data) => {
            assert_eq!(data, PtrConst::new(from_ref(&s)));
            s.as_str()
        }
        _ => panic!("a String is read as a String"),
    };
    assert_eq!(peek.as_str(lend, read), Some("owned string"));
}

#[test]
fn test_peek_as_str_double_reference() {
    let value = &"hello";
    let peek = Peek::new(&value);
    let read = |access: StrAccess| match access {
        StrAccess::DoubleReference(data) => {
            assert_eq!(data, PtrConst::new(from_ref(&value)));
            *value
        }
        _ => panic!("a &&str is read as a &&str"),
    };
    assert_eq!(peek.as_str(lend, read), Some("hello"));
}

#[test]
fn test_covariant_peek_from_covariant_type() {
    let value = 42i32;
    let peek = Peek::new(&value);
    let covariant = CovariantPeek::new(peek);
    assert!(covariant.is_some());

    let covariant = covariant.unwrap();
    assert_eq!(covariant.shape(), peek.shape());
}

#[test]
fn test_covariant_peek_from_ref() {
    let value = 42i32;
    let covariant = CovariantPeek::from_ref(&value);
    assert!(covariant.is_some());
}

#[test]
fn test_covariant_peek_deref_to_peek() {
    let value = "hello";
    let peek = Peek::new(&value);
    let covariant = CovariantPeek::new(peek).unwrap();
    let read = |access: StrAccess| match access {
        StrAccess::Reference(data) => {
            assert_eq!(data, PtrConst::new(from_ref(&value)));
            value
        }
        _ => panic!("a &str is read as a &str"),
    };

    assert_eq!(covariant.into_peek().as_str(lend, read), Some("hello"));
    assert_eq!(covariant.shape(), peek.shape());
}

#[test]
fn test_covariant_peek_into_peek() {
    let value = 42i32;
    let original_peek = Peek::new(&value);
    let covariant = CovariantPeek::new(original_peek).unwrap();
    let recovered_peek = covariant.into_peek();

    assert_eq!(recovered_peek.shape(), original_peek.shape());
    assert_eq!(recovered_peek.data(), original_peek.data());
}

#[test]
fn test_covariant_peek_lifetime_covariance() {
    let value = 42i32;
    let covariant: CovariantPeek<'_, 'static> = CovariantPeek::from_ref(&value).unwrap();

    // This compiles because CovariantPeek is covariant over 'facet.
    use_shorter(covariant);
}

#[test]
fn test_covariant_peek_vec_type() {
    let vec = vec![1i32, 2, 3];
    let peek = Peek::new(&vec);
    let covariant = CovariantPeek::new(peek);
    assert!(covariant.is_some());
}

#[test]
fn test_covariant_peek_option_type() {
    let opt = Some(42i32);
    let peek = Peek::new(&opt);
    let covariant = CovariantPeek::new(peek);
    assert!(covariant.is_some());
}

#[test]
fn test_covariant_peek_invariant_fn() {
    let fn_ptr = identity as fn(&'static ()) -> &'static ();
    let peek = Peek::new(&fn_ptr);
    let covariant = CovariantPeek::new(peek);
    assert!(covariant.is_none());
}

#[test]
fn test_covariant_peek_invariant() {
    let fields = Box::leak(Box::new([FieldBuilder::new(
        "f",
        shape_of::<fn(&'static ()) -> &'static ()>,
        0,
    )
    .build()]));
    let shape: &'static Shape = Box::leak(Box::new(
        ShapeBuilder::for_sized::<InvariantLifetime<'static>>("InvariantLifetime")
            .ty(Type::struct_builder(StructKind::Struct, fields).build())
            .build(),
    ));
    let invariant = InvariantLifetime { f: identity };
    assert_eq!((invariant.f)(&()), &());
    let peek: Peek<'_, 'static> =
        Peek::unchecked_new(PtrConst::new(from_ref(&invariant)), shape);
    let covariant = CovariantPeek::new(peek);
    assert!(covariant.is_none());
}

#[test]
fn contravariance_example_for_mutable_references() {
    let mut value = 42;
    let long: &mut i32 = &mut value;

    let short1 = force_long(long);
    assert_eq!(*short1, 42);
    let short2 = force_long(long);
    assert_eq!(*short2, 42);
}
