//! What a shape says about the type it describes, as far as this library reads it.

use facet_core::{
    ArrayDef, DynamicValueDef, EnumType, ListDef, MapDef, NdArrayDef, OptionDef, PointerDef,
    ResultDef, SetDef, Shape, SliceDef, StructType,
};
use vstd::prelude::*;

verus! {

/// How a type varies with its lifetime parameter.
#[derive(Clone, Copy, PartialEq, Eq, Structural, Debug)]
pub enum Variance {
    /// The lifetime may be shrunk.
    Covariant,
    /// The lifetime may be grown.
    Contravariant,
    /// The lifetime may not be changed.
    Invariant,
}

/// The kind of a struct-like type.
#[derive(Clone, Copy, PartialEq, Eq, Structural, Debug)]
pub enum StructKind {
    /// `struct Unit;`
    Unit,
    /// `struct Pair(T0, T1);`
    TupleStruct,
    /// `struct Point { x: T0, y: T1 }`
    Struct,
    /// `(T0, T1)`
    Tuple,
}

/// The scalar types between which this library distinguishes.
#[derive(Clone, Copy, PartialEq, Eq, Structural, Debug)]
pub enum ScalarClass {
    /// `str` or `&str`.
    Str,
    /// `String`.
    String,
    /// `u8`.
    U8,
    /// Any other scalar.
    Other,
}

/// The category of a type in the Rust language.
#[derive(Clone, Copy)]
pub enum TypeKind {
    /// Nothing is known of the type.
    Undefined,
    /// A primitive.
    Primitive,
    /// An array or a slice.
    Sequence,
    /// A struct or a tuple.
    Struct(StructType),
    /// An enum.
    Enum(EnumType),
    /// A union.
    Union,
    /// A user-defined type of unknown representation.
    Opaque,
    /// A reference to a value of the given shape.
    Reference(&'static Shape),
    /// A raw pointer to a value of the given shape.
    Raw(&'static Shape),
    /// A function pointer.
    Function,
}

/// What a type is used as.
#[derive(Clone, Copy)]
pub enum DefKind {
    /// Nothing is known of the type.
    Undefined,
    /// A scalar.
    Scalar,
    /// A map.
    Mapping(MapDef),
    /// A set.
    UniqueSet(SetDef),
    /// A list of variable length.
    List(ListDef),
    /// An array of fixed length.
    Array(ArrayDef),
    /// An array of several dimensions.
    NdArray(NdArrayDef),
    /// A slice.
    Slice(SliceDef),
    /// An option.
    Option(OptionDef),
    /// A result.
    Result(ResultDef),
    /// A smart pointer or a reference.
    Pointer(PointerDef),
    /// A value whose type is known only at run time.
    DynamicValue(DynamicValueDef),
    /// Anything else.
    Other,
}

impl TypeKind {
    /// A reference, a raw pointer or a function pointer.
    pub open spec fn points(self) -> bool {
        self is Reference || self is Raw || self is Function
    }

    /// Whether the type is a pointer of any sort.
    pub fn is_pointer(&self) -> (r: bool)
        ensures
            r == self.points(),
    {
        match self {
            TypeKind::Reference(_) => true,
            TypeKind::Raw(_) => true,
            TypeKind::Function => true,
            _ => false,
        }
    }
}

} // verus!
