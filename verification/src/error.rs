//! Errors of reflective operations.

use facet_core::Shape;
use vstd::prelude::*;

verus! {

/// Why a reflective operation did not succeed.
#[derive(Debug)]
pub enum ReflectError {
    /// The value has another shape than the operation asked for.
    WrongShape {
        /// The shape of the value.
        expected: &'static Shape,
        /// The shape that was asked for.
        actual: &'static Shape,
    },
    /// The value is not of the kind that was asked for.
    WasNotA {
        /// The kind that was asked for.
        expected: &'static str,
        /// The shape of the value.
        actual: &'static Shape,
    },
    /// The shape does not support the operation.
    OperationFailed {
        /// The shape of the value.
        shape: &'static Shape,
        /// The operation.
        operation: &'static str,
    },
    /// The operation needs a type whose size is known.
    Unsized {
        /// The shape whose size is not known.
        shape: &'static Shape,
        /// What went wrong.
        operation: &'static str,
    },
    /// The conversion to a proxy type failed.
    CustomSerializationError {
        /// Why it failed.
        message: String,
        /// The shape of the value.
        src_shape: &'static Shape,
        /// The shape of the proxy.
        dst_shape: &'static Shape,
    },
}

/// The error of a function that writes text and could not.
#[derive(Clone, Copy, PartialEq, Eq, Structural, Debug)]
pub struct FormatError;

/// The error for a value of shape `actual` that is not of the kind `expected`.
pub open spec fn was_not_a(expected: &'static str, actual: Shape) -> ReflectError {
    ReflectError::WasNotA { expected, actual: &actual }
}

/// The error for a value of shape `actual` read or compared as one of shape `asked`.
pub open spec fn wrong_shape(actual: Shape, asked: Shape) -> ReflectError {
    ReflectError::WrongShape { expected: &actual, actual: &asked }
}

/// The error for a shape without the operation.
pub open spec fn unsupported(shape: Shape, operation: &'static str) -> ReflectError {
    ReflectError::OperationFailed { shape: &shape, operation }
}

} // verus!
