//! Read-only views of values with run-time type information.
//!
//! A [`Peek`] pairs an address with the `facet_core` shape of the value stored there. From the
//! shape alone this library decides which operations the value supports: whether its lifetime may
//! be shrunk or grown, which kind of value it is (struct, map, list, ...), how its text or bytes
//! are laid out, and how it is converted through a proxy for serialization.
//!
//! The library itself never touches the memory behind a `Peek`. Wherever a value has to be read,
//! compared or released, the caller hands in a function that does so, and the contract says
//! exactly on which arguments that function may be called and what becomes of its result.

pub mod access;
pub mod answers;
pub mod covariant;
pub mod error;
pub mod inner;
pub mod kind;
pub mod laws;
pub mod peek;
pub mod render;
pub mod serialize;
pub mod shape;
pub mod views;

pub use access::StrAccess;
pub use covariant::CovariantPeek;
pub use error::{FormatError, ReflectError};
pub use kind::{DefKind, ScalarClass, StructKind, TypeKind, Variance};
pub use peek::{Peek, ValueId};
pub use serialize::{Conversion, FailedConversion, OwnedPeek};
pub use views::{
    ListLikeAccess, ListLikeDef, PeekDynamicValue, PeekEnum, PeekList, PeekListLike, PeekMap,
    PeekNdArray, PeekOption, PeekPointer, PeekResult, PeekSet, PeekStruct, PeekTuple, TupleType,
};
