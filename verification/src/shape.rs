//! The types and functions of `facet_core` on which this library rests.
//!
//! Shapes and pointers are opaque here. What the library reads of them goes by names
//! (`identity_of`, `type_of`, ...), each tied to one function or field of `facet_core` by the
//! reader that follows it. These readers are believed, not proved.

use crate::error::FormatError;
use crate::kind::{DefKind, ScalarClass, StructKind, TypeKind, Variance};
use core::fmt::Write;
use facet_core::{
    ArrayDef, Def, DynamicValueDef, EnumType, Field, ListDef, MapDef, NdArrayDef, OptionDef,
    PointerDef, PointerType, ProxyDef, PtrConst, PtrMut, PtrUninit, ResultDef, ScalarType, SetDef,
    Shape, SliceDef, StructType, Type, UnsizedError, UserType, VTableErased,
};
use vstd::prelude::*;

verus! {

/// The description of a type.
#[verifier::external_type_specification]
#[verifier::external_body]
pub struct ExShape(Shape);

/// A type-erased pointer to a value that is only read.
#[verifier::external_type_specification]
#[verifier::external_body]
pub struct ExPtrConst(PtrConst);

/// A type-erased pointer to a value.
#[verifier::external_type_specification]
#[verifier::external_body]
pub struct ExPtrMut(PtrMut);

/// A type-erased pointer to memory that holds no value yet.
#[verifier::external_type_specification]
#[verifier::external_body]
pub struct ExPtrUninit(PtrUninit);

/// The functions of a type (display, comparison, ...).
#[verifier::external_type_specification]
#[verifier::external_body]
pub struct ExVTableErased(VTableErased);

/// A scalar type that `facet_core` knows.
#[verifier::external_type_specification]
#[verifier::external_body]
pub struct ExScalarType(ScalarType);

/// The description of a struct.
#[verifier::external_type_specification]
#[verifier::external_body]
pub struct ExStructType(StructType);

/// The description of an enum.
#[verifier::external_type_specification]
#[verifier::external_body]
pub struct ExEnumType(EnumType);

/// The description of a field.
#[verifier::external_type_specification]
#[verifier::external_body]
pub struct ExField(Field);

/// The description of a proxy type.
#[verifier::external_type_specification]
#[verifier::external_body]
pub struct ExProxyDef(ProxyDef);

/// The error for a type without a known size.
#[verifier::external_type_specification]
#[verifier::external_body]
pub struct ExUnsizedError(UnsizedError);

/// The operations of a map.
#[verifier::external_type_specification]
#[verifier::external_body]
pub struct ExMapDef(MapDef);

/// The operations of a set.
#[verifier::external_type_specification]
#[verifier::external_body]
pub struct ExSetDef(SetDef);

/// The operations of a list.
#[verifier::external_type_specification]
#[verifier::external_body]
pub struct ExListDef(ListDef);

/// The operations of an array.
#[verifier::external_type_specification]
#[verifier::external_body]
pub struct ExArrayDef(ArrayDef);

/// The operations of an array of several dimensions.
#[verifier::external_type_specification]
#[verifier::external_body]
pub struct ExNdArrayDef(NdArrayDef);

/// The operations of a slice.
#[verifier::external_type_specification]
#[verifier::external_body]
pub struct ExSliceDef(SliceDef);

/// The operations of an option.
#[verifier::external_type_specification]
#[verifier::external_body]
pub struct ExOptionDef(OptionDef);

/// The operations of a result.
#[verifier::external_type_specification]
#[verifier::external_body]
pub struct ExResultDef(ResultDef);

/// The operations of a smart pointer.
#[verifier::external_type_specification]
#[verifier::external_body]
pub struct ExPointerDef(PointerDef);

/// The operations of a dynamic value.
#[verifier::external_type_specification]
#[verifier::external_body]
pub struct ExDynamicValueDef(DynamicValueDef);

/// The type that a shape describes, as a number: `Shape::eq` compares these.
pub uninterp spec fn identity_of(shape: Shape) -> int;

/// `<Shape as PartialEq>::eq`: two shapes are equal when they describe the same type, whatever
/// else they hold.
#[verifier::external_body]
pub(crate) fn same_type(a: &'static Shape, b: &'static Shape) -> (r: bool)
    ensures
        r == (identity_of(*a) == identity_of(*b)),
{
    *a == *b
}

/// The functions for the variance and the name of a type, which the shape and the shapes that it is
/// made of carry, return, and do the same whenever they are called on the same shape.
///
/// This is assumed of the shapes that implementations of `Facet` give. A shape put together by other
/// means need not be valid.
pub uninterp spec fn is_valid(shape: Shape) -> bool;

/// The result of `Shape::computed_variance`.
pub uninterp spec fn variance_of(shape: Shape) -> Variance;

/// `Shape::computed_variance`: how the described type varies with its lifetime, found by walking
/// its fields, or by asking the variance function of the shape where there are none to walk. On a
/// shape that is not valid that function may not return, or not always the same.
#[verifier::external_body]
pub(crate) fn computed_variance(shape: &'static Shape) -> (r: Variance)
    requires
        is_valid(*shape),
    ensures
        r == variance_of(*shape),
{
    match shape.computed_variance() {
        facet_core::Variance::Covariant => Variance::Covariant,
        facet_core::Variance::Contravariant => Variance::Contravariant,
        facet_core::Variance::Invariant => Variance::Invariant,
    }
}

/// The result of `ScalarType::try_from_shape`.
pub uninterp spec fn scalar_of(shape: Shape) -> Option<ScalarType>;

/// `ScalarType::try_from_shape`: the known scalar type that the shape describes, if it does.
pub assume_specification[ ScalarType::try_from_shape ](described: &Shape) -> (r: Option<
    ScalarType,
>)
    ensures
        r == scalar_of(*described),
;

/// Which of the scalar types told apart here a `ScalarType` is.
pub uninterp spec fn class_of(scalar: ScalarType) -> ScalarClass;

/// The variant of a `ScalarType`. That enum is open-ended; what is neither a string nor a byte is
/// of class `Other`.
#[verifier::external_body]
pub(crate) fn scalar_class(scalar: ScalarType) -> (r: ScalarClass)
    ensures
        r == class_of(scalar),
{
    match scalar {
        ScalarType::Str => ScalarClass::Str,
        ScalarType::String => ScalarClass::String,
        ScalarType::U8 => ScalarClass::U8,
        _ => ScalarClass::Other,
    }
}

/// The shape describes a scalar of the given class.
pub open spec fn has_class(shape: Shape, class: ScalarClass) -> bool {
    scalar_of(shape) matches Some(scalar) && class_of(scalar) == class
}

/// `Shape::is_type::<u8>`: whether the shape describes `u8`, which is when its scalar type is
/// `ScalarType::U8`.
#[verifier::external_body]
pub(crate) fn is_byte(shape: &'static Shape) -> (r: bool)
    ensures
        r == has_class(*shape, ScalarClass::U8),
{
    shape.is_type::<u8>()
}

/// The field `Shape::ty`.
pub uninterp spec fn type_of(shape: Shape) -> TypeKind;

/// The field `Shape::ty`, variant by variant. Of a reference or a raw pointer the shape of its
/// target is kept.
#[verifier::external_body]
pub(crate) fn type_kind(shape: &'static Shape) -> (r: TypeKind)
    ensures
        r == type_of(*shape),
{
    match shape.ty {
        Type::Undefined => TypeKind::Undefined,
        Type::Primitive(_) => TypeKind::Primitive,
        Type::Sequence(_) => TypeKind::Sequence,
        Type::User(UserType::Struct(ty)) => TypeKind::Struct(ty),
        Type::User(UserType::Enum(ty)) => TypeKind::Enum(ty),
        Type::User(UserType::Union(_)) => TypeKind::Union,
        Type::User(UserType::Opaque) => TypeKind::Opaque,
        Type::Pointer(PointerType::Reference(ptr)) => TypeKind::Reference(ptr.target),
        Type::Pointer(PointerType::Raw(ptr)) => TypeKind::Raw(ptr.target),
        Type::Pointer(PointerType::Function(_)) => TypeKind::Function,
    }
}

/// The field `Shape::def`.
pub uninterp spec fn def_of(shape: Shape) -> DefKind;

/// The field `Shape::def`, variant by variant. That enum is open-ended.
#[verifier::external_body]
pub(crate) fn def_kind(shape: &'static Shape) -> (r: DefKind)
    ensures
        r == def_of(*shape),
{
    match shape.def {
        Def::Undefined => DefKind::Undefined,
        Def::Scalar => DefKind::Scalar,
        Def::Map(def) => DefKind::Mapping(def),
        Def::Set(def) => DefKind::UniqueSet(def),
        Def::List(def) => DefKind::List(def),
        Def::Array(def) => DefKind::Array(def),
        Def::NdArray(def) => DefKind::NdArray(def),
        Def::Slice(def) => DefKind::Slice(def),
        Def::Option(def) => DefKind::Option(def),
        Def::Result(def) => DefKind::Result(def),
        Def::Pointer(def) => DefKind::Pointer(def),
        Def::DynamicValue(def) => DefKind::DynamicValue(def),
        _ => DefKind::Other,
    }
}

/// The field `Shape::inner`.
pub uninterp spec fn inner_of(shape: Shape) -> Option<&'static Shape>;

/// The field `Shape::inner`: the shape that a transparent wrapper wraps.
#[verifier::external_body]
pub(crate) fn inner_shape(shape: &'static Shape) -> (r: Option<&'static Shape>)
    ensures
        r == inner_of(*shape),
{
    shape.inner
}

/// The field `Shape::proxy`.
pub uninterp spec fn proxy_of(shape: Shape) -> Option<&'static ProxyDef>;

/// The field `Shape::proxy`: the proxy through which all values of the type are serialized.
#[verifier::external_body]
pub(crate) fn shape_proxy(shape: &'static Shape) -> (r: Option<&'static ProxyDef>)
    ensures
        r == proxy_of(*shape),
{
    shape.proxy
}

/// The field `Shape::vtable`.
pub uninterp spec fn vtable_of(shape: Shape) -> VTableErased;

/// The field `Shape::vtable`.
#[verifier::external_body]
pub(crate) fn shape_vtable(shape: &'static Shape) -> (r: VTableErased)
    ensures
        r == vtable_of(*shape),
{
    shape.vtable
}

/// The field `Shape::type_identifier`.
pub uninterp spec fn identifier_of(shape: Shape) -> Seq<char>;

/// The field `Shape::type_identifier`: the name of the type without its parameters.
#[verifier::external_body]
pub(crate) fn type_identifier(shape: &'static Shape) -> (r: &'static str)
    ensures
        r@ == identifier_of(*shape),
{
    shape.type_identifier
}

/// The text that `<Shape as Display>::fmt` writes, or `None` where it returns an error.
pub uninterp spec fn name_of(shape: Shape) -> Option<Seq<char>>;

/// `<Shape as Display>::fmt`: the name of the type with its parameters, as the formatter of the
/// shape writes it, or the identifier of the type where the shape has none. On a shape that is not
/// valid that formatter may not return, or not always write the same.
#[verifier::external_body]
pub(crate) fn shape_name(shape: &'static Shape) -> (r: Result<String, FormatError>)
    requires
        is_valid(*shape),
    ensures
        match r {
            Ok(name) => name_of(*shape) == Some(name@),
            Err(_) => name_of(*shape) is None,
        },
{
    let mut name = String::new();
    match write!(name, "{}", shape) {
        Ok(()) => Ok(name),
        Err(_) => Err(FormatError),
    }
}

/// The field `StructType::kind`.
pub uninterp spec fn struct_kind_of(ty: StructType) -> StructKind;

/// The field `StructType::kind`, variant by variant.
#[verifier::external_body]
pub(crate) fn struct_kind(ty: StructType) -> (r: StructKind)
    ensures
        r == struct_kind_of(ty),
{
    match ty.kind {
        facet_core::StructKind::Unit => StructKind::Unit,
        facet_core::StructKind::TupleStruct => StructKind::TupleStruct,
        facet_core::StructKind::Struct => StructKind::Struct,
        facet_core::StructKind::Tuple => StructKind::Tuple,
    }
}

/// The field `StructType::fields`.
pub uninterp spec fn struct_fields_of(ty: StructType) -> Seq<Field>;

/// The field `StructType::fields`: all fields, in the order of their declaration.
#[verifier::external_body]
pub(crate) fn struct_fields(ty: StructType) -> (r: &'static [Field])
    ensures
        r@ == struct_fields_of(ty),
{
    ty.fields
}

/// The result of `SliceDef::t`.
pub uninterp spec fn element_of(def: SliceDef) -> &'static Shape;

/// `SliceDef::t`: the shape of the items of a slice.
pub assume_specification[ SliceDef::t ](def: &SliceDef) -> (r: &'static Shape)
    ensures
        r == element_of(*def),
;

/// The result of `Field::proxy`.
pub uninterp spec fn field_proxy_of(field: Field) -> Option<&'static ProxyDef>;

/// `Field::proxy`: the proxy through which the field is serialized.
pub assume_specification[ Field::proxy ](field: &Field) -> (r: Option<&'static ProxyDef>)
    ensures
        r == field_proxy_of(*field),
;

/// The field `ProxyDef::shape`.
pub uninterp spec fn proxy_shape_of(proxy: ProxyDef) -> &'static Shape;

/// The field `ProxyDef::shape`: the shape of the proxy type.
#[verifier::external_body]
pub(crate) fn proxy_shape(proxy: &'static ProxyDef) -> (r: &'static Shape)
    ensures
        r == proxy_shape_of(*proxy),
{
    proxy.shape
}

/// The shape describes a type whose size is known.
pub uninterp spec fn is_sized(shape: Shape) -> bool;

/// `Shape::allocate`: fresh memory for a value of the shape, unless its size is not known. Where
/// the memory lies is left open. If memory runs out the process is aborted.
pub assume_specification[ Shape::allocate ](described: &Shape) -> (r: Result<
    PtrUninit,
    UnsizedError,
>)
    ensures
        r is Ok <==> is_sized(*described),
;

/// The result of `PtrMut::as_const`.
pub uninterp spec fn const_of(data: PtrMut) -> PtrConst;

/// `PtrMut::as_const`: the same pointer, for reading only.
pub assume_specification[ PtrMut::as_const ](pointer: PtrMut) -> (r: PtrConst)
    ensures
        r == const_of(pointer),
;

/// The result of `PtrMut::as_uninit`.
pub uninterp spec fn uninit_of(data: PtrMut) -> PtrUninit;

/// `PtrMut::as_uninit`: the same pointer, with nothing said of the value.
pub assume_specification[ PtrMut::as_uninit ](pointer: PtrMut) -> (r: PtrUninit)
    ensures
        r == uninit_of(pointer),
;

/// Where a pointer points: its tagged address and its metadata, as numbers.
pub uninterp spec fn place_of(data: PtrUninit) -> (int, int);

/// `<PtrUninit as PartialEq>::eq`: two pointers are equal when address and metadata are.
#[verifier::external_body]
pub(crate) fn same_place(a: PtrUninit, b: PtrUninit) -> (r: bool)
    ensures
        r == (place_of(a) == place_of(b)),
{
    a == b
}

/// A view of a value of shape `from` leads to one of shape `to`: to what it wraps, to what it points
/// to, to the items of a slice, or to the proxy of the type or of a field.
pub open spec fn refers_to(from: Shape, to: Shape) -> bool {
    ||| inner_of(from) == Some(&to)
    ||| type_of(from) == TypeKind::Reference(&to)
    ||| type_of(from) == TypeKind::Raw(&to)
    ||| def_of(from) matches DefKind::Slice(def) && *element_of(def) == to
    ||| proxy_of(from) matches Some(proxy) && *proxy_shape_of(*proxy) == to
    ||| type_of(from) matches TypeKind::Struct(ty) && exists|i: int|
        0 <= i < struct_fields_of(ty).len() && (field_proxy_of(
            #[trigger] struct_fields_of(ty)[i],
        ) matches Some(proxy) && *proxy_shape_of(*proxy) == to)
}

/// A view of a value of shape `from` leads to one of shape `to` in `n` steps.
pub open spec fn leads_to(from: Shape, n: nat, to: Shape) -> bool
    decreases n,
{
    if n == 0 {
        from == to
    } else {
        exists|via: Shape|
            leads_to(from, (n - 1) as nat, via) && #[trigger] refers_to(via, to)
    }
}

/// The shape is valid, and so is every shape to which a view of such a value leads.
pub open spec fn is_valid_throughout(shape: Shape) -> bool {
    forall|n: nat, to: Shape| #[trigger] leads_to(shape, n, to) ==> is_valid(to)
}

} // verus!
