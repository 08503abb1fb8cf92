use core::cell::Cell;
use core::ptr::{from_mut, from_ref};
use facet_core::{
    shape_of, Facet, Field, FieldBuilder, ProxyDef, PtrConst, PtrMut, PtrUninit, Shape,
    ShapeBuilder,
};
use facet_reflect::{Peek, ReflectError};

struct Celsius;

fn refuse(_from: PtrConst, _to: PtrUninit) -> Result<PtrMut, String> {
    Err(String::from("refused"))
}

fn proxy_to(shape: &'static Shape) -> &'static ProxyDef {
    Box::leak(Box::new(ProxyDef { shape, convert_in: refuse, convert_out: refuse }))
}

fn field_with(proxy: &'static ProxyDef) -> Field {
    FieldBuilder::new("degrees", shape_of::<i32>, 0).proxy(proxy).build()
}

fn shape_with(proxy: &'static ProxyDef) -> &'static Shape {
    Box::leak(Box::new(ShapeBuilder::for_sized::<Celsius>("Celsius").proxy(proxy).build()))
}

fn filled(target: PtrUninit) -> PtrMut {
    PtrMut::new_sized(target.as_mut_byte_ptr())
}

fn expect_conversion_error<T>(
    r: Result<T, ReflectError>,
    text: &str,
    src: &'static Shape,
    dst: &'static Shape,
) {
    match r {
        Err(ReflectError::CustomSerializationError { message, src_shape, dst_shape }) => {
            assert_eq!(message, text);
            assert_eq!(src_shape, src);
            assert_eq!(dst_shape, dst);
        }
        _ => panic!("the conversion failed"),
    }
}

#[test]
fn a_field_without_a_proxy() {
    let value = 20i32;
    let field = FieldBuilder::new("degrees", shape_of::<i32>, 0).build();
    let r = Peek::new(&value).custom_serialization(
        field,
        |_, _, _| panic!("nothing to convert to"),
        |_, _| panic!("nothing to release"),
    );
    match r {
        Err(ReflectError::OperationFailed { shape, operation }) => {
            assert_eq!(shape, i32::SHAPE);
            assert_eq!(operation, "field does not have a proxy definition");
        }
        _ => panic!("no proxy"),
    }
}

#[test]
fn a_field_whose_proxy_has_no_size() {
    let value = 20i32;
    let r = Peek::new(&value).custom_serialization(
        field_with(proxy_to(str::SHAPE)),
        |_, _, _| panic!("no memory to fill"),
        |_, _| panic!("nothing to release"),
    );
    match r {
        Err(ReflectError::Unsized { shape, operation }) => {
            assert_eq!(shape, str::SHAPE);
            assert_eq!(operation, "Not a Sized type");
        }
        _ => panic!("no size"),
    }
}

#[test]
fn a_field_is_converted() {
    let value = 20i32;
    let proxy = proxy_to(u64::SHAPE);
    let place = Cell::new(None);
    let owned = Peek::new(&value)
        .custom_serialization(
            field_with(proxy),
            |through, data, target| {
                assert!(core::ptr::eq(through, proxy));
                assert_eq!(data, PtrConst::new(from_ref(&value)));
                place.set(Some(target));
                Ok(filled(target))
            },
            |_, _| panic!("the memory is in use"),
        )
        .unwrap();
    assert_eq!(owned.shape(), u64::SHAPE);
    assert_eq!(Some(owned.data().as_uninit()), place.get());
}

#[test]
fn a_field_is_converted_into_other_memory() {
    let value = 20i32;
    let mut other = 0u64;
    let elsewhere = PtrMut::new(from_mut(&mut other));
    let place = Cell::new(None);
    let released = Cell::new(None);
    let r = Peek::new(&value).custom_serialization(
        field_with(proxy_to(u64::SHAPE)),
        |_, _, target| {
            place.set(Some(target));
            Ok(elsewhere)
        },
        |shape, target| {
            assert_eq!(shape, u64::SHAPE);
            released.set(Some(target));
        },
    );
    let text = "convert_out did not return the expected pointer";
    expect_conversion_error(r, text, i32::SHAPE, u64::SHAPE);
    assert!(released.get().is_some());
    assert_eq!(released.get(), place.get());
}

#[test]
fn a_field_is_not_converted() {
    let value = 20i32;
    let place = Cell::new(None);
    let released = Cell::new(None);
    let r = Peek::new(&value).custom_serialization(
        field_with(proxy_to(u64::SHAPE)),
        |_, _, target| {
            place.set(Some(target));
            Err(String::from("too hot"))
        },
        |_, target| released.set(Some(target)),
    );
    expect_conversion_error(r, "too hot", i32::SHAPE, u64::SHAPE);
    assert!(released.get().is_some());
    assert_eq!(released.get(), place.get());
}

#[test]
fn a_type_without_a_proxy() {
    let value = 20i32;
    let r = Peek::new(&value).custom_serialization_from_shape(
        |_, _, _| panic!("nothing to convert to"),
        |_, _| panic!("nothing to release"),
    );
    assert!(matches!(r, Ok(None)));
}

#[test]
fn a_type_whose_proxy_has_no_size() {
    let shape = shape_with(proxy_to(str::SHAPE));
    let peek: Peek<'_, 'static> = Peek::unchecked_new(PtrConst::new(from_ref(&Celsius)), shape);
    let r = peek.custom_serialization_from_shape(
        |_, _, _| panic!("no memory to fill"),
        |_, _| panic!("nothing to release"),
    );
    assert!(matches!(r, Err(ReflectError::Unsized { shape, .. }) if shape == str::SHAPE));
}

#[test]
fn a_type_is_converted() {
    let shape = shape_with(proxy_to(i32::SHAPE));
    let peek: Peek<'_, 'static> = Peek::unchecked_new(PtrConst::new(from_ref(&Celsius)), shape);
    let owned = peek
        .custom_serialization_from_shape(
            |_, data, target| {
                assert_eq!(data, peek.data());
                Ok(filled(target))
            },
            |_, _| panic!("the memory is in use"),
        )
        .unwrap()
        .unwrap();
    assert_eq!(owned.shape(), i32::SHAPE);
}

#[test]
fn a_type_is_not_converted() {
    let shape = shape_with(proxy_to(u64::SHAPE));
    let peek: Peek<'_, 'static> = Peek::unchecked_new(PtrConst::new(from_ref(&Celsius)), shape);
    let mut other = 0u64;
    let elsewhere = PtrMut::new(from_mut(&mut other));
    let released = Cell::new(0);
    let r = peek.custom_serialization_from_shape(
        |_, _, _| Ok(elsewhere),
        |_, _| released.set(released.get() + 1),
    );
    let text = "proxy convert_out did not return the expected pointer";
    expect_conversion_error(r, text, shape, u64::SHAPE);
    let r = peek.custom_serialization_from_shape(
        |_, _, _| Err(String::from("too cold")),
        |_, _| released.set(released.get() + 1),
    );
    expect_conversion_error(r, "too cold", shape, u64::SHAPE);
    assert_eq!(released.get(), 2);
}

#[test]
fn a_conversion_in_steps() {
    let value = 20i32;
    let proxy = proxy_to(u64::SHAPE);
    let conversion = Peek::new(&value).begin_conversion(proxy).unwrap();
    assert!(core::ptr::eq(conversion.proxy(), proxy));
    assert_eq!(conversion.source(), PtrConst::new(from_ref(&value)));
    let target = conversion.target();
    let failed = match conversion.finish(Err(String::from("too hot")), "elsewhere") {
        Err(failed) => failed,
        Ok(_) => panic!("the conversion failed"),
    };
    assert_eq!(failed.target, target);
    assert_eq!(failed.target_shape, u64::SHAPE);
    expect_conversion_error(Err::<(), _>(failed.error), "too hot", i32::SHAPE, u64::SHAPE);

    let conversion = Peek::new(&value).begin_conversion(proxy).unwrap();
    let target = conversion.target();
    let owned = conversion.finish(Ok(filled(target)), "elsewhere");
    assert!(matches!(owned, Ok(owned) if owned.data().as_uninit() == target));
}

#[test]
fn a_field_and_a_type_agree_on_one_proxy() {
    let proxy = proxy_to(u64::SHAPE);
    let shape = shape_with(proxy);
    let peek: Peek<'_, 'static> = Peek::unchecked_new(PtrConst::new(from_ref(&Celsius)), shape);
    let by_field = peek
        .custom_serialization(
            field_with(proxy),
            |_, _, target| Ok(filled(target)),
            |_, _| panic!("the memory is in use"),
        )
        .unwrap();
    let by_type = peek
        .custom_serialization_from_shape(
            |_, _, target| Ok(filled(target)),
            |_, _| panic!("the memory is in use"),
        )
        .unwrap()
        .unwrap();
    assert_eq!(by_field.shape(), by_type.shape());

    let released = Cell::new(0);
    let r = peek.custom_serialization(
        field_with(proxy),
        |_, _, _| Err(String::from("too hot")),
        |_, _| released.set(released.get() + 1),
    );
    expect_conversion_error(r, "too hot", shape, u64::SHAPE);
    let r = peek.custom_serialization_from_shape(
        |_, _, _| Err(String::from("too hot")),
        |_, _| released.set(released.get() + 1),
    );
    expect_conversion_error(r, "too hot", shape, u64::SHAPE);
    assert_eq!(released.get(), 2);
}
