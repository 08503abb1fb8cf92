use core::ptr::from_ref;
use facet_core::{
    Def, DynValueKind, DynamicValueDef, DynamicValueVTable, Facet, NdArrayDef, NdArrayVTable,
    PtrConst, Shape, ShapeBuilder,
};
use facet_reflect::{ListLikeAccess, ListLikeDef, Peek, ReflectError};
use std::collections::{BTreeMap, HashMap, HashSet};

struct Matrix;
struct Any;

fn expect_was_not_a<T>(r: Result<T, ReflectError>, kind: &str, shape: &'static Shape) {
    match r {
        Err(ReflectError::WasNotA { expected, actual }) => {
            assert_eq!(expected, kind);
            assert_eq!(actual, shape);
        }
        _ => panic!("not of that kind"),
    }
}

fn matrix_shape() -> &'static Shape {
    let vtable: &'static NdArrayVTable = Box::leak(Box::new(NdArrayVTable {
        count: |_| 0,
        n_dim: |_| 2,
        dim: |_, _| None,
        get: |_, _| None,
        get_mut: None,
        byte_stride: None,
        as_ptr: None,
        as_mut_ptr: None,
    }));
    Box::leak(Box::new(
        ShapeBuilder::for_sized::<Matrix>("Matrix")
            .def(Def::NdArray(NdArrayDef::new(vtable, i32::SHAPE)))
            .build(),
    ))
}

fn any_shape() -> &'static Shape {
    let vtable: &'static DynamicValueVTable = Box::leak(Box::new(DynamicValueVTable {
        set_null: |_| {},
        set_bool: |_, _| {},
        set_i64: |_, _| {},
        set_u64: |_, _| {},
        set_f64: |_, _| true,
        set_str: |_, _| {},
        set_bytes: None,
        set_datetime: None,
        begin_array: |_| {},
        push_array_element: |_, _| {},
        end_array: None,
        begin_object: |_| {},
        insert_object_entry: |_, _, _| {},
        end_object: None,
        get_kind: |_| DynValueKind::Null,
        get_bool: |_| None,
        get_i64: |_| None,
        get_u64: |_| None,
        get_f64: |_| None,
        get_str: |_| None,
        get_bytes: None,
        get_datetime: None,
        array_len: |_| None,
        array_get: |_, _| None,
        object_len: |_| None,
        object_get_entry: |_, _| None,
        object_get: |_, _| None,
        object_get_mut: None,
    }));
    Box::leak(Box::new(
        ShapeBuilder::for_sized::<Any>("Any")
            .def(Def::DynamicValue(DynamicValueDef::new(vtable)))
            .build(),
    ))
}

#[test]
fn structs() {
    let range = 1i32..4;
    let peek = Peek::new(&range);
    let view = peek.into_struct().unwrap();
    assert_eq!(view.value.data(), peek.data());
    assert_eq!(view.ty.fields.len(), 2);
    assert_eq!(view.ty.fields[0].name, "start");
    assert_eq!(view.ty.fields[1].name, "end");
    expect_was_not_a(Peek::new(&1i32).into_struct(), "struct", i32::SHAPE);
    expect_was_not_a(peek.into_enum(), "enum", peek.shape());
}

#[test]
fn enums() {
    let some = Some(Box::new(1i32));
    let peek = Peek::new(&some);
    let view = peek.into_enum().unwrap();
    assert_eq!(view.value.data(), peek.data());
    assert_eq!(view.ty.variants.len(), 2);
    assert_eq!(view.ty.variants[0].name, "None");
    expect_was_not_a(peek.into_struct(), "struct", peek.shape());
}

#[test]
fn tuples() {
    let pair = (1i32, 2u8);
    let peek = Peek::new(&pair);
    let view = peek.into_tuple().unwrap();
    assert_eq!(view.value.data(), peek.data());
    assert_eq!(view.ty.fields.len(), 2);
    assert_eq!(view.ty.fields[0].shape(), i32::SHAPE);
    assert_eq!(view.ty.fields[1].shape(), u8::SHAPE);
    assert!(peek.into_struct().is_ok());

    let range = 1i32..4;
    let other = Peek::new(&range);
    expect_was_not_a(other.into_tuple(), "tuple", other.shape());
    expect_was_not_a(Peek::new(&1i32).into_tuple(), "tuple", i32::SHAPE);
}

#[test]
fn maps() {
    let map = HashMap::from([(1i32, 2u8)]);
    let peek = Peek::new(&map);
    let view = peek.into_map().unwrap();
    assert_eq!(view.value.data(), peek.data());
    assert_eq!(view.def.k(), i32::SHAPE);
    assert_eq!(view.def.v(), u8::SHAPE);
    assert!(Peek::new(&BTreeMap::from([(1i32, 2u8)])).into_map().is_ok());
    expect_was_not_a(peek.into_set(), "set", peek.shape());
    expect_was_not_a(Peek::new(&1i32).into_map(), "map", i32::SHAPE);
}

#[test]
fn sets() {
    let set = HashSet::from([1i32]);
    let peek = Peek::new(&set);
    let view = peek.into_set().unwrap();
    assert_eq!(view.value.data(), peek.data());
    assert_eq!(view.def.t(), i32::SHAPE);
    expect_was_not_a(peek.into_map(), "map", peek.shape());
    expect_was_not_a(Peek::new(&1i32).into_set(), "set", i32::SHAPE);
}

#[test]
fn lists() {
    let list = vec![1i32];
    let peek = Peek::new(&list);
    let view = peek.into_list().unwrap();
    assert_eq!(view.value.data(), peek.data());
    assert_eq!(view.def.t(), i32::SHAPE);
    let array = Peek::new(&[1i32, 2]);
    expect_was_not_a(array.into_list(), "list", array.shape());
}

#[test]
fn arrays_of_several_dimensions() {
    let peek: Peek<'_, 'static> =
        Peek::unchecked_new(PtrConst::new(from_ref(&Matrix)), matrix_shape());
    let view = peek.into_ndarray().unwrap();
    assert_eq!(view.value.data(), peek.data());
    assert_eq!(view.def.t(), i32::SHAPE);
    let list = vec![1i32];
    let other = Peek::new(&list);
    expect_was_not_a(other.into_ndarray(), "ndarray", other.shape());
}

#[test]
fn pointers() {
    let boxed = Box::new(1i32);
    let peek = Peek::new(&boxed);
    let view = peek.into_pointer().unwrap();
    assert_eq!(view.value.data(), peek.data());
    assert_eq!(view.def.pointee(), Some(i32::SHAPE));
    assert!(Peek::new(&&1i32).into_pointer().is_ok());
    expect_was_not_a(Peek::new(&1i32).into_pointer(), "smart pointer", i32::SHAPE);
}

#[test]
fn options() {
    let some = Some(1i32);
    let peek = Peek::new(&some);
    let view = peek.into_option().unwrap();
    assert_eq!(view.value.data(), peek.data());
    assert_eq!(view.def.t(), i32::SHAPE);
    expect_was_not_a(Peek::new(&1i32).into_option(), "option", i32::SHAPE);
}

#[test]
fn results() {
    let ok: Result<i32, u8> = Ok(1);
    let peek = Peek::new(&ok);
    let view = peek.into_result().unwrap();
    assert_eq!(view.value.data(), peek.data());
    assert_eq!(view.def.t(), i32::SHAPE);
    assert_eq!(view.def.e(), u8::SHAPE);
    expect_was_not_a(Peek::new(&1i32).into_result(), "result", i32::SHAPE);
}

#[test]
fn dynamic_values() {
    let peek: Peek<'_, 'static> = Peek::unchecked_new(PtrConst::new(from_ref(&Any)), any_shape());
    let view = peek.into_dynamic_value().unwrap();
    assert_eq!(view.value.data(), peek.data());
    expect_was_not_a(Peek::new(&1i32).into_dynamic_value(), "dynamic value", i32::SHAPE);
}

#[test]
fn lists_arrays_and_slices_are_list_like() {
    let list = vec![1i32];
    let peek = Peek::new(&list);
    let view = peek.into_list_like(|_| panic!("not a pointer")).unwrap();
    assert_eq!(view.value.data(), peek.data());
    assert!(matches!(view.def, ListLikeDef::List(def) if def.t() == i32::SHAPE));

    let array = [1u8, 2];
    let peek = Peek::new(&array);
    let view = peek.into_list_like(|_| panic!("not a pointer")).unwrap();
    assert_eq!(view.value.data(), peek.data());
    assert!(matches!(view.def, ListLikeDef::Array(def) if def.t() == u8::SHAPE && def.n == 2));

    let slice: &[u16] = &[1, 2, 3];
    let peek = Peek::new(slice);
    let view = peek.into_list_like(|_| panic!("not a pointer")).unwrap();
    assert_eq!(view.value.data(), PtrConst::new(from_ref(slice)));
    assert_eq!(view.value.shape(), peek.shape());
    assert!(matches!(view.def, ListLikeDef::Slice(def) if def.t() == u16::SHAPE));
}

#[test]
fn a_reference_to_a_slice_is_list_like() {
    let slice: &[u16] = &[1, 2, 3];
    let peek = Peek::new(&slice);
    assert!(matches!(peek.list_like_access(), Ok(ListLikeAccess::Behind(_))));
    let follow = |data: PtrConst| {
        assert_eq!(data, PtrConst::new(from_ref(&slice)));
        PtrConst::new(from_ref(slice))
    };
    let view = peek.into_list_like(follow).unwrap();
    assert_eq!(view.value.data(), PtrConst::new(from_ref(slice)));
    assert_eq!(view.value.shape(), u16::SHAPE);
    assert!(matches!(view.def, ListLikeDef::Slice(def) if def.t() == u16::SHAPE));
}

#[test]
fn other_values_are_not_list_like() {
    let map = HashMap::from([(1i32, 2u8)]);
    let peek = Peek::new(&map);
    let r = peek.into_list_like(|_| panic!("not a pointer to a slice"));
    expect_was_not_a(r, "list, array or slice", peek.shape());

    let reference = &1i32;
    let peek = Peek::new(&reference);
    let r = peek.into_list_like(|_| panic!("not a pointer to a slice"));
    expect_was_not_a(r, "list, array or slice", peek.shape());
}
