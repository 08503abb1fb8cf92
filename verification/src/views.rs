//! Identifying a value as one of the kinds that have a view of their own.

use crate::error;
use crate::error::ReflectError;
use crate::kind::{DefKind, StructKind, TypeKind};
use crate::peek::{Peek, PeekView};
use crate::shape;
use facet_core::{
    ArrayDef, DynamicValueDef, EnumType, Field, ListDef, MapDef, NdArrayDef, OptionDef, PointerDef,
    PtrConst, ResultDef, SetDef, SliceDef, StructType,
};
use vstd::prelude::*;

verus! {

/// A struct.
#[derive(Clone, Copy)]
pub struct PeekStruct<'mem, 'facet> {
    /// The value.
    pub value: Peek<'mem, 'facet>,
    /// Its description.
    pub ty: StructType,
}

/// An enum.
#[derive(Clone, Copy)]
pub struct PeekEnum<'mem, 'facet> {
    /// The value.
    pub value: Peek<'mem, 'facet>,
    /// Its description.
    pub ty: EnumType,
}

/// The description of a tuple.
#[derive(Clone, Copy)]
pub struct TupleType {
    /// Its fields, in order.
    pub fields: &'static [Field],
}

/// A tuple.
#[derive(Clone, Copy)]
pub struct PeekTuple<'mem, 'facet> {
    /// The value.
    pub value: Peek<'mem, 'facet>,
    /// Its description.
    pub ty: TupleType,
}

/// The operations of a list, an array or a slice.
#[derive(Clone, Copy)]
pub enum ListLikeDef {
    /// Of a list.
    List(ListDef),
    /// Of an array.
    Array(ArrayDef),
    /// Of a slice.
    Slice(SliceDef),
}

/// A list, an array or a slice.
#[derive(Clone, Copy)]
pub struct PeekListLike<'mem, 'facet> {
    /// The value.
    pub value: Peek<'mem, 'facet>,
    /// Its operations.
    pub def: ListLikeDef,
}

/// How a value is seen as a list, an array or a slice.
#[derive(Clone, Copy)]
pub enum ListLikeAccess {
    /// It is one.
    Direct(ListLikeDef),
    /// It is a pointer to a slice.
    Behind(SliceDef),
}

/// A map.
#[derive(Clone, Copy)]
pub struct PeekMap<'mem, 'facet> {
    /// The value.
    pub value: Peek<'mem, 'facet>,
    /// Its operations.
    pub def: MapDef,
}

/// A set.
#[derive(Clone, Copy)]
pub struct PeekSet<'mem, 'facet> {
    /// The value.
    pub value: Peek<'mem, 'facet>,
    /// Its operations.
    pub def: SetDef,
}

/// A list.
#[derive(Clone, Copy)]
pub struct PeekList<'mem, 'facet> {
    /// The value.
    pub value: Peek<'mem, 'facet>,
    /// Its operations.
    pub def: ListDef,
}

/// An array of several dimensions.
#[derive(Clone, Copy)]
pub struct PeekNdArray<'mem, 'facet> {
    /// The value.
    pub value: Peek<'mem, 'facet>,
    /// Its operations.
    pub def: NdArrayDef,
}

/// A pointer.
#[derive(Clone, Copy)]
pub struct PeekPointer<'mem, 'facet> {
    /// The value.
    pub value: Peek<'mem, 'facet>,
    /// Its operations.
    pub def: PointerDef,
}

/// An option.
#[derive(Clone, Copy)]
pub struct PeekOption<'mem, 'facet> {
    /// The value.
    pub value: Peek<'mem, 'facet>,
    /// Its operations.
    pub def: OptionDef,
}

/// A result.
#[derive(Clone, Copy)]
pub struct PeekResult<'mem, 'facet> {
    /// The value.
    pub value: Peek<'mem, 'facet>,
    /// Its operations.
    pub def: ResultDef,
}

/// A dynamic value.
#[derive(Clone, Copy)]
pub struct PeekDynamicValue<'mem, 'facet> {
    /// The value.
    pub value: Peek<'mem, 'facet>,
    /// Its operations.
    pub def: DynamicValueDef,
}

/// A value as a struct.
pub open spec fn struct_of<'mem, 'facet>(value: Peek<'mem, 'facet>) -> Result<
    PeekStruct<'mem, 'facet>,
    ReflectError,
> {
    match shape::type_of(value@.shape) {
        TypeKind::Struct(ty) => Ok(PeekStruct { value, ty }),
        _ => Err(error::was_not_a("struct", value@.shape)),
    }
}

/// A value as an enum.
pub open spec fn enum_of<'mem, 'facet>(value: Peek<'mem, 'facet>) -> Result<
    PeekEnum<'mem, 'facet>,
    ReflectError,
> {
    match shape::type_of(value@.shape) {
        TypeKind::Enum(ty) => Ok(PeekEnum { value, ty }),
        _ => Err(error::was_not_a("enum", value@.shape)),
    }
}

/// The fields of a tuple of the type, if it is one.
pub open spec fn tuple_fields_of(ty: TypeKind) -> Option<Seq<Field>> {
    match ty {
        TypeKind::Struct(ty) if shape::struct_kind_of(ty) == StructKind::Tuple => Some(
            shape::struct_fields_of(ty),
        ),
        _ => None,
    }
}

/// How a value is seen as a list, an array or a slice.
pub open spec fn list_like_of(value: PeekView) -> Result<ListLikeAccess, ReflectError> {
    match shape::def_of(value.shape) {
        DefKind::List(def) => Ok(ListLikeAccess::Direct(ListLikeDef::List(def))),
        DefKind::Array(def) => Ok(ListLikeAccess::Direct(ListLikeDef::Array(def))),
        DefKind::Slice(def) => Ok(ListLikeAccess::Direct(ListLikeDef::Slice(def))),
        _ => match slice_behind(shape::type_of(value.shape)) {
            Some(def) => Ok(ListLikeAccess::Behind(def)),
            None => Err(error::was_not_a("list, array or slice", value.shape)),
        },
    }
}

/// The slice that a type points to, if it does.
pub open spec fn slice_behind(ty: TypeKind) -> Option<SliceDef> {
    match ty {
        TypeKind::Reference(target) | TypeKind::Raw(target) => match shape::def_of(*target) {
            DefKind::Slice(def) => Some(def),
            _ => None,
        },
        _ => None,
    }
}

/// A value as a map.
pub open spec fn map_of<'mem, 'facet>(value: Peek<'mem, 'facet>) -> Result<
    PeekMap<'mem, 'facet>,
    ReflectError,
> {
    match shape::def_of(value@.shape) {
        DefKind::Mapping(def) => Ok(PeekMap { value, def }),
        _ => Err(error::was_not_a("map", value@.shape)),
    }
}

/// A value as a set.
pub open spec fn set_of<'mem, 'facet>(value: Peek<'mem, 'facet>) -> Result<
    PeekSet<'mem, 'facet>,
    ReflectError,
> {
    match shape::def_of(value@.shape) {
        DefKind::UniqueSet(def) => Ok(PeekSet { value, def }),
        _ => Err(error::was_not_a("set", value@.shape)),
    }
}

/// A value as a list.
pub open spec fn list_of<'mem, 'facet>(value: Peek<'mem, 'facet>) -> Result<
    PeekList<'mem, 'facet>,
    ReflectError,
> {
    match shape::def_of(value@.shape) {
        DefKind::List(def) => Ok(PeekList { value, def }),
        _ => Err(error::was_not_a("list", value@.shape)),
    }
}

/// A value as an array of several dimensions.
pub open spec fn ndarray_of<'mem, 'facet>(value: Peek<'mem, 'facet>) -> Result<
    PeekNdArray<'mem, 'facet>,
    ReflectError,
> {
    match shape::def_of(value@.shape) {
        DefKind::NdArray(def) => Ok(PeekNdArray { value, def }),
        _ => Err(error::was_not_a("ndarray", value@.shape)),
    }
}

/// A value as a pointer.
pub open spec fn pointer_of<'mem, 'facet>(value: Peek<'mem, 'facet>) -> Result<
    PeekPointer<'mem, 'facet>,
    ReflectError,
> {
    match shape::def_of(value@.shape) {
        DefKind::Pointer(def) => Ok(PeekPointer { value, def }),
        _ => Err(error::was_not_a("smart pointer", value@.shape)),
    }
}

/// A value as an option.
pub open spec fn option_of<'mem, 'facet>(value: Peek<'mem, 'facet>) -> Result<
    PeekOption<'mem, 'facet>,
    ReflectError,
> {
    match shape::def_of(value@.shape) {
        DefKind::Option(def) => Ok(PeekOption { value, def }),
        _ => Err(error::was_not_a("option", value@.shape)),
    }
}

/// A value as a result.
pub open spec fn result_of<'mem, 'facet>(value: Peek<'mem, 'facet>) -> Result<
    PeekResult<'mem, 'facet>,
    ReflectError,
> {
    match shape::def_of(value@.shape) {
        DefKind::Result(def) => Ok(PeekResult { value, def }),
        _ => Err(error::was_not_a("result", value@.shape)),
    }
}

/// A value as a dynamic value.
pub open spec fn dynamic_value_of<'mem, 'facet>(value: Peek<'mem, 'facet>) -> Result<
    PeekDynamicValue<'mem, 'facet>,
    ReflectError,
> {
    match shape::def_of(value@.shape) {
        DefKind::DynamicValue(def) => Ok(PeekDynamicValue { value, def }),
        _ => Err(error::was_not_a("dynamic value", value@.shape)),
    }
}

impl<'mem, 'facet> Peek<'mem, 'facet> {
    /// Tries to identify this value as a struct.
    pub fn into_struct(self) -> (r: Result<PeekStruct<'mem, 'facet>, ReflectError>)
        ensures
            r == struct_of(self),
    {
        if let TypeKind::Struct(ty) = shape::type_kind(self.shape()) {
            Ok(PeekStruct { value: self, ty })
        } else {
            Err(ReflectError::WasNotA { expected: "struct", actual: self.shape() })
        }
    }

    /// Tries to identify this value as an enum.
    pub fn into_enum(self) -> (r: Result<PeekEnum<'mem, 'facet>, ReflectError>)
        ensures
            r == enum_of(self),
    {
        if let TypeKind::Enum(ty) = shape::type_kind(self.shape()) {
            Ok(PeekEnum { value: self, ty })
        } else {
            Err(ReflectError::WasNotA { expected: "enum", actual: self.shape() })
        }
    }

    /// Tries to identify this value as a tuple.
    pub fn into_tuple(self) -> (r: Result<PeekTuple<'mem, 'facet>, ReflectError>)
        ensures
            match tuple_fields_of(shape::type_of(self@.shape)) {
                Some(fields) => r matches Ok(tuple) && tuple.value == self && tuple.ty.fields@
                    == fields,
                None => r == Err::<PeekTuple<'mem, 'facet>, ReflectError>(
                    error::was_not_a("tuple", self@.shape),
                ),
            },
    {
        if let TypeKind::Struct(ty) = shape::type_kind(self.shape()) {
            if shape::struct_kind(ty) == StructKind::Tuple {
                Ok(PeekTuple { value: self, ty: TupleType { fields: shape::struct_fields(ty) } })
            } else {
                Err(ReflectError::WasNotA { expected: "tuple", actual: self.shape() })
            }
        } else {
            Err(ReflectError::WasNotA { expected: "tuple", actual: self.shape() })
        }
    }

    /// Tries to identify this value as a map.
    pub fn into_map(self) -> (r: Result<PeekMap<'mem, 'facet>, ReflectError>)
        ensures
            r == map_of(self),
    {
        if let DefKind::Mapping(def) = shape::def_kind(self.shape()) {
            Ok(PeekMap { value: self, def })
        } else {
            Err(ReflectError::WasNotA { expected: "map", actual: self.shape() })
        }
    }

    /// Tries to identify this value as a set.
    pub fn into_set(self) -> (r: Result<PeekSet<'mem, 'facet>, ReflectError>)
        ensures
            r == set_of(self),
    {
        if let DefKind::UniqueSet(def) = shape::def_kind(self.shape()) {
            Ok(PeekSet { value: self, def })
        } else {
            Err(ReflectError::WasNotA { expected: "set", actual: self.shape() })
        }
    }

    /// Tries to identify this value as a list.
    pub fn into_list(self) -> (r: Result<PeekList<'mem, 'facet>, ReflectError>)
        ensures
            r == list_of(self),
    {
        if let DefKind::List(def) = shape::def_kind(self.shape()) {
            Ok(PeekList { value: self, def })
        } else {
            Err(ReflectError::WasNotA { expected: "list", actual: self.shape() })
        }
    }

    /// Tries to identify this value as an array of several dimensions.
    pub fn into_ndarray(self) -> (r: Result<PeekNdArray<'mem, 'facet>, ReflectError>)
        ensures
            r == ndarray_of(self),
    {
        if let DefKind::NdArray(def) = shape::def_kind(self.shape()) {
            Ok(PeekNdArray { value: self, def })
        } else {
            Err(ReflectError::WasNotA { expected: "ndarray", actual: self.shape() })
        }
    }

    /// Tries to identify this value as a pointer.
    pub fn into_pointer(self) -> (r: Result<PeekPointer<'mem, 'facet>, ReflectError>)
        ensures
            r == pointer_of(self),
    {
        if let DefKind::Pointer(def) = shape::def_kind(self.shape()) {
            Ok(PeekPointer { value: self, def })
        } else {
            Err(ReflectError::WasNotA { expected: "smart pointer", actual: self.shape() })
        }
    }

    /// Tries to identify this value as an option.
    pub fn into_option(self) -> (r: Result<PeekOption<'mem, 'facet>, ReflectError>)
        ensures
            r == option_of(self),
    {
        if let DefKind::Option(def) = shape::def_kind(self.shape()) {
            Ok(PeekOption { value: self, def })
        } else {
            Err(ReflectError::WasNotA { expected: "option", actual: self.shape() })
        }
    }

    /// Tries to identify this value as a result.
    pub fn into_result(self) -> (r: Result<PeekResult<'mem, 'facet>, ReflectError>)
        ensures
            r == result_of(self),
    {
        if let DefKind::Result(def) = shape::def_kind(self.shape()) {
            Ok(PeekResult { value: self, def })
        } else {
            Err(ReflectError::WasNotA { expected: "result", actual: self.shape() })
        }
    }

    /// Tries to identify this value as a dynamic value.
    pub fn into_dynamic_value(self) -> (r: Result<PeekDynamicValue<'mem, 'facet>, ReflectError>)
        ensures
            r == dynamic_value_of(self),
    {
        if let DefKind::DynamicValue(def) = shape::def_kind(self.shape()) {
            Ok(PeekDynamicValue { value: self, def })
        } else {
            Err(ReflectError::WasNotA { expected: "dynamic value", actual: self.shape() })
        }
    }

    /// Returns how this value is seen as a list, an array or a slice.
    ///
    /// A `&[T]` is a pointer to a slice rather than a slice.
    pub fn list_like_access(&self) -> (r: Result<ListLikeAccess, ReflectError>)
        ensures
            r == list_like_of(self@),
    {
        match shape::def_kind(self.shape()) {
            DefKind::List(def) => Ok(ListLikeAccess::Direct(ListLikeDef::List(def))),
            DefKind::Array(def) => Ok(ListLikeAccess::Direct(ListLikeDef::Array(def))),
            DefKind::Slice(def) => Ok(ListLikeAccess::Direct(ListLikeDef::Slice(def))),
            _ => {
                match shape::type_kind(self.shape()) {
                    TypeKind::Reference(target) | TypeKind::Raw(target) => {
                        if let DefKind::Slice(def) = shape::def_kind(target) {
                            return Ok(ListLikeAccess::Behind(def));
                        }
                    },
                    _ => {},
                }
                Err(
                    ReflectError::WasNotA {
                        expected: "list, array or slice",
                        actual: self.shape(),
                    },
                )
            },
        }
    }

    /// Tries to identify this value as a list, array or slice.
    ///
    /// `follow` reads the slice pointer that is stored at a pointer. It is called only on a
    /// pointer to a slice; the view is then on the items of that slice.
    pub fn into_list_like<F: FnOnce(PtrConst) -> PtrConst>(self, follow: F) -> (r: Result<
        PeekListLike<'mem, 'facet>,
        ReflectError,
    >)
        requires
            list_like_of(self@) matches Ok(ListLikeAccess::Behind(_)) ==> call_requires(
                follow,
                (self@.data,),
            ),
        ensures
            match list_like_of(self@) {
                Ok(ListLikeAccess::Direct(def)) => r == Ok::<_, ReflectError>(
                    PeekListLike { value: self, def },
                ),
                Ok(ListLikeAccess::Behind(def)) => r matches Ok(list) && list.def
                    == ListLikeDef::Slice(def) && list.value@.shape == *shape::element_of(def)
                    && call_ensures(follow, (self@.data,), list.value@.data),
                Err(e) => r == Err::<PeekListLike<'mem, 'facet>, ReflectError>(e),
            },
    {
        match self.list_like_access() {
            Ok(ListLikeAccess::Direct(def)) => Ok(PeekListLike { value: self, def }),
            Ok(ListLikeAccess::Behind(def)) => {
                let items = Peek::unchecked_new(follow(self.data()), def.t());
                Ok(PeekListLike { value: items, def: ListLikeDef::Slice(def) })
            },
            Err(e) => Err(e),
        }
    }
}

} // verus!
