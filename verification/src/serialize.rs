//! Serializing a value through a proxy.
//!
//! A type or a field may name a proxy: another type, whose values are serialized in place of its
//! own. The value is converted into memory that is allocated for the proxy. From then on that
//! memory has one owner: the result, if the conversion succeeds, and otherwise the failure, which
//! hands it back for release.

use crate::error;
use crate::error::ReflectError;
use crate::peek::{Peek, PeekView};
use crate::shape;
use core::marker::PhantomData;
use facet_core::{Field, ProxyDef, PtrConst, PtrMut, PtrUninit, Shape, UnsizedError};
use vstd::prelude::*;

verus! {

/// What an [`OwnedPeek`] stands for.
pub struct OwnedPeekView {
    /// Where the value is.
    pub data: PtrMut,
    /// What the value is.
    pub shape: Shape,
}

/// A value that was made for a view and is owned by it.
pub struct OwnedPeek<'mem> {
    data: PtrMut,
    shape: &'static Shape,
    _phantom: PhantomData<&'mem ()>,
}

impl<'mem> View for OwnedPeek<'mem> {
    type V = OwnedPeekView;

    closed spec fn view(&self) -> OwnedPeekView {
        OwnedPeekView { data: self.data, shape: *self.shape }
    }
}

impl<'mem> OwnedPeek<'mem> {
    /// Returns the shape of the value.
    pub fn shape(&self) -> (r: &'static Shape)
        ensures
            *r == self@.shape,
    {
        self.shape
    }

    /// Returns the data.
    pub fn data(&self) -> (r: PtrMut)
        ensures
            r == self@.data,
    {
        self.data
    }
}

/// What a [`Conversion`] stands for.
pub struct ConversionView {
    /// The value to convert.
    pub source: PeekView,
    /// The proxy to convert it to.
    pub proxy: ProxyDef,
    /// The memory that was allocated for the proxy.
    pub target: PtrUninit,
}

impl ConversionView {
    /// The shape of the proxy.
    pub open spec fn target_shape(self) -> Shape {
        *shape::proxy_shape_of(self.proxy)
    }
}

/// A conversion that is under way: memory is allocated for the proxy and not yet filled.
pub struct Conversion {
    source: PtrConst,
    source_shape: &'static Shape,
    proxy: &'static ProxyDef,
    target: PtrUninit,
    target_shape: &'static Shape,
}

impl View for Conversion {
    type V = ConversionView;

    closed spec fn view(&self) -> ConversionView {
        ConversionView {
            source: PeekView { data: self.source, shape: *self.source_shape },
            proxy: *self.proxy,
            target: self.target,
        }
    }
}

/// A conversion that failed. The memory that was allocated for it is to be released.
pub struct FailedConversion {
    /// Why it failed.
    pub error: ReflectError,
    /// The shape for which the memory was allocated.
    pub target_shape: &'static Shape,
    /// The memory.
    pub target: PtrUninit,
}

/// `target` is memory that `Shape::allocate` gave for a value of the shape.
pub open spec fn is_allocated(shape: Shape, target: PtrUninit) -> bool {
    call_ensures(Shape::allocate, (&shape,), Ok::<PtrUninit, UnsizedError>(target))
}

/// The function that converts the value reported success and filled the memory it was given.
pub open spec fn fills(outcome: Result<PtrMut, String>, target: PtrUninit) -> bool {
    outcome matches Ok(data) && shape::place_of(shape::uninit_of(data)) == shape::place_of(target)
}

/// Why a conversion with such an outcome failed: the message of the converting function, or, where
/// it reported success but filled other memory, `mismatch`.
pub open spec fn failure_message(
    outcome: Result<PtrMut, String>,
    mismatch: &'static str,
) -> Seq<char> {
    match outcome {
        Ok(_) => mismatch@,
        Err(message) => message@,
    }
}

/// The error for a conversion from `src` to `dst` that failed.
pub open spec fn is_conversion_error(
    e: ReflectError,
    message: Seq<char>,
    src: Shape,
    dst: Shape,
) -> bool {
    e matches ReflectError::CustomSerializationError { message: text, src_shape, dst_shape }
        && text@ == message && *src_shape == src && *dst_shape == dst
}

/// The error for a proxy whose size is not known.
pub open spec fn unsized_proxy(dst: Shape) -> ReflectError {
    ReflectError::Unsized { shape: &dst, operation: "Not a Sized type" }
}

impl ConversionView {
    /// A conversion with such an outcome ends with `r`: the value in the memory that was allocated,
    /// or an error and that memory, which is then to be released.
    pub open spec fn ends_as<'mem>(
        self,
        outcome: Result<PtrMut, String>,
        mismatch: &'static str,
        r: Result<OwnedPeek<'mem>, FailedConversion>,
    ) -> bool {
        &&& is_allocated(self.target_shape(), self.target)
        &&& if fills(outcome, self.target) {
            r matches Ok(owned) && owned@ == OwnedPeekView {
                data: outcome->Ok_0,
                shape: self.target_shape(),
            }
        } else {
            &&& r matches Err(failed)
            &&& failed.target == self.target
            &&& *failed.target_shape == self.target_shape()
            &&& is_allocated(*failed.target_shape, failed.target)
            &&& is_conversion_error(
                failed.error,
                failure_message(outcome, mismatch),
                self.source.shape,
                self.target_shape(),
            )
        }
    }
}

impl Conversion {
    #[verifier::type_invariant]
    spec fn consistent(self) -> bool {
        &&& *self.target_shape == *shape::proxy_shape_of(*self.proxy)
        &&& is_allocated(*self.target_shape, self.target)
    }

    /// Returns the proxy to convert the value to.
    pub fn proxy(&self) -> (r: &'static ProxyDef)
        ensures
            *r == self@.proxy,
    {
        self.proxy
    }

    /// Returns where the value to convert is.
    pub fn source(&self) -> (r: PtrConst)
        ensures
            r == self@.source.data,
    {
        self.source
    }

    /// Returns the memory to fill.
    pub fn target(&self) -> (r: PtrUninit)
        ensures
            r == self@.target,
            is_allocated(self@.target_shape(), r),
    {
        proof {
            use_type_invariant(self);
        }
        self.target
    }

    /// Ends the conversion with what the converting function returned.
    ///
    /// `mismatch` is the message for a function that claims success but did not fill the memory it
    /// was given.
    pub fn finish<'mem>(
        self,
        outcome: Result<PtrMut, String>,
        mismatch: &'static str,
    ) -> (r: Result<OwnedPeek<'mem>, FailedConversion>)
        ensures
            self@.ends_as(outcome, mismatch, r),
    {
        proof {
            use_type_invariant(&self);
        }
        let message = match outcome {
            Ok(data) => {
                if shape::same_place(data.as_uninit(), self.target) {
                    return Ok(OwnedPeek { data, shape: self.target_shape, _phantom: PhantomData });
                }
                mismatch.to_owned()
            },
            Err(message) => message,
        };
        Err(
            FailedConversion {
                error: ReflectError::CustomSerializationError {
                    message,
                    src_shape: self.source_shape,
                    dst_shape: self.target_shape,
                },
                target_shape: self.target_shape,
                target: self.target,
            },
        )
    }
}

/// `r` is what comes of serializing `value` through `proxy`: memory was allocated for the shape of
/// the proxy, `convert` was called on it, and where it did not fill that memory, `release` was
/// called on it.
pub open spec fn serializes_through<
    'mem,
    C: FnOnce(&'static ProxyDef, PtrConst, PtrUninit) -> Result<PtrMut, String>,
    D: FnOnce(&'static Shape, PtrUninit),
>(
    convert: C,
    release: D,
    value: PeekView,
    proxy: ProxyDef,
    mismatch: &'static str,
    r: Result<OwnedPeek<'mem>, ReflectError>,
) -> bool {
    let dst = *shape::proxy_shape_of(proxy);
    if !shape::is_sized(dst) {
        r == Err::<OwnedPeek<'mem>, ReflectError>(unsized_proxy(dst))
    } else {
        exists|target: PtrUninit, outcome: Result<PtrMut, String>| #[trigger]
            call_ensures(convert, (&proxy, value.data, target), outcome) && is_allocated(
                dst,
                target,
            ) && if fills(outcome, target) {
                r matches Ok(owned) && owned@ == OwnedPeekView {
                    data: outcome->Ok_0,
                    shape: dst,
                }
            } else {
                r matches Err(e) && is_conversion_error(
                    e,
                    failure_message(outcome, mismatch),
                    value.shape,
                    dst,
                ) && call_ensures(release, (&dst, target), ())
            }
    }
}

/// `convert` can be called on any memory that is allocated for the proxy, and `release` on
/// such as `convert` did not fill.
pub open spec fn can_serialize_through<
    C: FnOnce(&'static ProxyDef, PtrConst, PtrUninit) -> Result<PtrMut, String>,
    D: FnOnce(&'static Shape, PtrUninit),
>(convert: C, release: D, value: PeekView, proxy: ProxyDef) -> bool {
    let dst = *shape::proxy_shape_of(proxy);
    shape::is_sized(dst) ==> {
        &&& forall|target: PtrUninit|
            is_allocated(dst, target) ==> #[trigger] call_requires(
                convert,
                (&proxy, value.data, target),
            )
        &&& forall|target: PtrUninit, outcome: Result<PtrMut, String>| #[trigger]
            call_ensures(convert, (&proxy, value.data, target), outcome) && is_allocated(
                dst,
                target,
            ) && !fills(outcome, target) ==> call_requires(release, (&dst, target))
    }
}

impl<'mem, 'facet> Peek<'mem, 'facet> {
    /// Allocates memory for a proxy of this value.
    pub fn begin_conversion(&self, proxy: &'static ProxyDef) -> (r: Result<
        Conversion,
        ReflectError,
    >)
        ensures
            !shape::is_sized(*shape::proxy_shape_of(*proxy)) ==> r == Err::<
                Conversion,
                ReflectError,
            >(unsized_proxy(*shape::proxy_shape_of(*proxy))),
            shape::is_sized(*shape::proxy_shape_of(*proxy)) ==> (r matches Ok(conversion)
                && conversion@.source == self@ && conversion@.proxy == *proxy && is_allocated(
                *shape::proxy_shape_of(*proxy),
                conversion@.target,
            )),
    {
        let target_shape = shape::proxy_shape(proxy);
        match target_shape.allocate() {
            Ok(target) => Ok(
                Conversion {
                    source: self.data(),
                    source_shape: self.shape(),
                    proxy,
                    target,
                    target_shape,
                },
            ),
            Err(_) => Err(
                ReflectError::Unsized { shape: target_shape, operation: "Not a Sized type" },
            ),
        }
    }

    /// Serializes this value through the proxy.
    fn serialize_through<
        C: FnOnce(&'static ProxyDef, PtrConst, PtrUninit) -> Result<PtrMut, String>,
        D: FnOnce(&'static Shape, PtrUninit),
    >(
        &self,
        proxy: &'static ProxyDef,
        mismatch: &'static str,
        convert: C,
        release: D,
    ) -> (r: Result<OwnedPeek<'mem>, ReflectError>)
        requires
            can_serialize_through(convert, release, self@, *proxy),
        ensures
            serializes_through(convert, release, self@, *proxy, mismatch, r),
    {
        match self.begin_conversion(proxy) {
            Ok(conversion) => {
                let outcome = convert(conversion.proxy(), conversion.source(), conversion.target());
                match conversion.finish(outcome, mismatch) {
                    Ok(owned) => Ok(owned),
                    Err(failed) => {
                        release(failed.target_shape, failed.target);
                        Err(failed.error)
                    },
                }
            },
            Err(e) => Err(e),
        }
    }

    /// Performs custom serialization of this value using the metadata of the field that holds it.
    ///
    /// Returns the value that is to be serialized in place of this one. `convert` converts a value
    /// into the memory that is allocated for the proxy, and `release` frees that memory; it is
    /// called just where the conversion failed.
    pub fn custom_serialization<
        C: FnOnce(&'static ProxyDef, PtrConst, PtrUninit) -> Result<PtrMut, String>,
        D: FnOnce(&'static Shape, PtrUninit),
    >(&self, field: Field, convert: C, release: D) -> (r: Result<OwnedPeek<'mem>, ReflectError>)
        requires
            shape::field_proxy_of(field) matches Some(proxy) ==> can_serialize_through(
                convert,
                release,
                self@,
                *proxy,
            ),
        ensures
            match shape::field_proxy_of(field) {
                Some(proxy) => serializes_through(
                    convert,
                    release,
                    self@,
                    *proxy,
                    "convert_out did not return the expected pointer",
                    r,
                ),
                None => r == Err::<OwnedPeek<'mem>, ReflectError>(
                    error::unsupported(self@.shape, "field does not have a proxy definition"),
                ),
            },
    {
        match field.proxy() {
            Some(proxy) => self.serialize_through(
                proxy,
                "convert_out did not return the expected pointer",
                convert,
                release,
            ),
            None => Err(
                ReflectError::OperationFailed {
                    shape: self.shape(),
                    operation: "field does not have a proxy definition",
                },
            ),
        }
    }

    /// Performs custom serialization of this value using the proxy of its type.
    ///
    /// Returns `None` if the type has no proxy. `convert` and `release` are as for
    /// [`Peek::custom_serialization`].
    pub fn custom_serialization_from_shape<
        C: FnOnce(&'static ProxyDef, PtrConst, PtrUninit) -> Result<PtrMut, String>,
        D: FnOnce(&'static Shape, PtrUninit),
    >(&self, convert: C, release: D) -> (r: Result<Option<OwnedPeek<'mem>>, ReflectError>)
        requires
            shape::proxy_of(self@.shape) matches Some(proxy) ==> can_serialize_through(
                convert,
                release,
                self@,
                *proxy,
            ),
        ensures
            match shape::proxy_of(self@.shape) {
                Some(proxy) => exists|through: Result<OwnedPeek<'mem>, ReflectError>| #[trigger]
                    serializes_through(
                        convert,
                        release,
                        self@,
                        *proxy,
                        "proxy convert_out did not return the expected pointer",
                        through,
                    ) && match through {
                        Ok(owned) => r == Ok::<_, ReflectError>(Some(owned)),
                        Err(e) => r == Err::<Option<OwnedPeek<'mem>>, ReflectError>(e),
                    },
                None => r == Ok::<Option<OwnedPeek<'mem>>, ReflectError>(None),
            },
    {
        match shape::shape_proxy(self.shape()) {
            Some(proxy) => {
                let through = self.serialize_through(
                    proxy,
                    "proxy convert_out did not return the expected pointer",
                    convert,
                    release,
                );
                match through {
                    Ok(owned) => Ok(Some(owned)),
                    Err(e) => Err(e),
                }
            },
            None => Ok(None),
        }
    }
}

} // verus!
