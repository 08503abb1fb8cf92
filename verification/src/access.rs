//! Reading a value as a Rust type.
//!
//! A value may be read as a type only if its shape says that it is of that type. The functions
//! here decide that; the reading itself is the caller's.

use crate::error;
use crate::error::ReflectError;
use crate::inner;
use crate::kind::{DefKind, ScalarClass, TypeKind};
use crate::peek::{Peek, PeekView};
use crate::shape;
use facet_core::{PtrConst, PtrMut, ScalarType, Shape};
use vstd::prelude::*;

verus! {

/// Where the text of a string value is, and as which type it is to be read.
#[derive(Clone, Copy)]
pub enum StrAccess {
    /// A `str` is at the pointer, which is a wide one.
    Bare(PtrConst),
    /// A `String` is at the pointer.
    Owned(PtrConst),
    /// A `&str` is at the pointer.
    Reference(PtrConst),
    /// A `&&str` is at the pointer.
    DoubleReference(PtrConst),
}

/// The shape of `str` itself.
pub open spec fn is_str(shape: Shape) -> bool {
    shape::has_class(shape, ScalarClass::Str) && !shape::type_of(shape).points()
}

/// The shape of `&str`.
pub open spec fn is_str_reference(shape: Shape) -> bool {
    shape::type_of(shape) matches TypeKind::Reference(target) && is_str(*target)
}

/// The shape of `&&str`.
pub open spec fn is_str_double_reference(shape: Shape) -> bool {
    shape::type_of(shape) matches TypeKind::Reference(target) && is_str_reference(*target)
}

/// The shape of `String`.
pub open spec fn is_string(shape: Shape) -> bool {
    shape::has_class(shape, ScalarClass::String)
}

/// How the text of a value is read: by its shape, or not at all.
pub open spec fn text_access(value: PeekView) -> Option<StrAccess> {
    if is_str(value.shape) {
        Some(StrAccess::Bare(value.data))
    } else if is_string(value.shape) {
        Some(StrAccess::Owned(value.data))
    } else if is_str_reference(value.shape) {
        Some(StrAccess::Reference(value.data))
    } else if is_str_double_reference(value.shape) {
        Some(StrAccess::DoubleReference(value.data))
    } else {
        None
    }
}

/// `r` is the text of `value`: what `read` reads of its innermost value, if that is a string.
pub open spec fn is_text<
    'mem,
    B: Fn(&'static Shape, PtrConst) -> Option<Result<PtrMut, String>>,
    F: FnOnce(StrAccess) -> &'mem str,
>(borrow: B, read: F, value: PeekView, r: Option<&'mem str>) -> bool {
    exists|to: PeekView| #[trigger]
        inner::is_innermost(borrow, value, to) && match text_access(to) {
            Some(access) => r matches Some(text) && call_ensures(read, (access,), text),
            None => r is None,
        }
}

/// The shape of a reference to a slice of bytes.
pub open spec fn is_bytes_reference(shape: Shape) -> bool {
    shape::type_of(shape) matches TypeKind::Reference(target) && shape::def_of(
        *target,
    ) matches DefKind::Slice(def) && shape::has_class(*shape::element_of(def), ScalarClass::U8)
}

/// Returns whether the shape is a scalar of the class.
fn is_of_class(shape: &'static Shape, class: ScalarClass) -> (r: bool)
    ensures
        r == shape::has_class(*shape, class),
{
    match ScalarType::try_from_shape(shape) {
        Some(scalar) => shape::scalar_class(scalar) == class,
        None => false,
    }
}

/// Returns whether the shape is that of `str` itself.
fn describes_str(shape: &'static Shape) -> (r: bool)
    ensures
        r == is_str(*shape),
{
    is_of_class(shape, ScalarClass::Str) && !shape::type_kind(shape).is_pointer()
}

impl<'mem, 'facet> Peek<'mem, 'facet> {
    /// Returns how the text of this value is read, or `None` if the value is not a string.
    ///
    /// Wrappers are not looked into. A `str` and a `&str` are the same scalar, so what tells them
    /// apart is whether the type is a pointer.
    pub fn str_access(&self) -> (r: Option<StrAccess>)
        ensures
            r == text_access(self@),
    {
        let data = self.data();
        if describes_str(self.shape()) {
            return Some(StrAccess::Bare(data));
        }
        if is_of_class(self.shape(), ScalarClass::String) {
            return Some(StrAccess::Owned(data));
        }
        if let TypeKind::Reference(target) = shape::type_kind(self.shape()) {
            if let TypeKind::Reference(inner_target) = shape::type_kind(target) {
                if describes_str(inner_target) {
                    return Some(StrAccess::DoubleReference(data));
                }
            } else if describes_str(target) {
                return Some(StrAccess::Reference(data));
            }
        }
        None
    }

    /// Try to get the value as a string if it is one, under whatever wrappers.
    ///
    /// `borrow` is as for [`Peek::innermost_peek`]. `read` reads the text of the innermost value,
    /// and is called only with an access that the shape of that value allows.
    pub fn as_str<
        B: Fn(&'static Shape, PtrConst) -> Option<Result<PtrMut, String>>,
        F: FnOnce(StrAccess) -> &'mem str,
    >(&self, borrow: B, read: F) -> (r: Option<&'mem str>)
        requires
            inner::ends_from(borrow, self@),
            inner::borrows_from(borrow, self@),
            forall|to: PeekView|
                #[trigger] inner::is_innermost(borrow, self@, to) && text_access(to) is Some
                    ==> call_requires(read, (text_access(to)->0,)),
        ensures
            is_text(borrow, read, self@, r),
    {
        let peek = self.innermost_peek(borrow);
        match peek.str_access() {
            Some(access) => Some(read(access)),
            None => None,
        }
    }

    /// Try to get the value as a byte slice if it is a reference to one.
    ///
    /// `read` reads the `&[u8]` at the pointer.
    pub fn as_bytes<F: FnOnce(PtrConst) -> &'mem [u8]>(&self, read: F) -> (r: Option<&'mem [u8]>)
        requires
            is_bytes_reference(self@.shape) ==> call_requires(read, (self@.data,)),
        ensures
            r is Some <==> is_bytes_reference(self@.shape),
            r matches Some(bytes) ==> call_ensures(read, (self@.data,), bytes),
    {
        if let TypeKind::Reference(target) = shape::type_kind(self.shape()) {
            if let DefKind::Slice(def) = shape::def_kind(target) {
                if shape::is_byte(def.t()) {
                    return Some(read(self.data()));
                }
            }
        }
        None
    }

    /// Read the value from memory into a Rust value.
    ///
    /// `asked` is the shape of the type to read it as, which must be its own type, and `read` reads
    /// a value of that type at the pointer. To read a value as another type is fatal, and left out
    /// here; see [`Peek::try_get`].
    pub fn get<R, F: FnOnce(PtrConst) -> R>(&self, asked: &'static Shape, read: F) -> (r: Result<
        R,
        ReflectError,
    >)
        requires
            shape::identity_of(self@.shape) == shape::identity_of(*asked),
            call_requires(read, (self@.data,)),
        ensures
            r matches Ok(value) && call_ensures(read, (self@.data,), value),
    {
        self.try_get(asked, read)
    }

    /// Read the value from memory into a Rust value, if it is of the type to read it as.
    ///
    /// `asked` and `read` are as for [`Peek::get`]. A value of another type is not read.
    pub fn try_get<R, F: FnOnce(PtrConst) -> R>(&self, asked: &'static Shape, read: F) -> (r:
        Result<R, ReflectError>)
        requires
            shape::identity_of(self@.shape) == shape::identity_of(*asked) ==> call_requires(
                read,
                (self@.data,),
            ),
        ensures
            shape::identity_of(self@.shape) != shape::identity_of(*asked) ==> r == Err::<
                R,
                ReflectError,
            >(error::wrong_shape(self@.shape, *asked)),
            shape::identity_of(self@.shape) == shape::identity_of(*asked) ==> (r matches Ok(value)
                && call_ensures(read, (self@.data,), value)),
    {
        if !shape::same_type(self.shape(), asked) {
            Err(ReflectError::WrongShape { expected: self.shape(), actual: asked })
        } else {
            Ok(read(self.data()))
        }
    }
}

} // verus!
