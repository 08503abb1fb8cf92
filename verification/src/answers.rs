//! What each function answers, in terms of the shape of a value and of the functions handed in.
//!
//! The statements here speak of what the functions return and of what `facet_core` says of a shape,
//! and of nothing in between.

use crate::access::StrAccess;
use crate::covariant::CovariantPeek;
use crate::error::{FormatError, ReflectError};
use crate::kind::{DefKind, ScalarClass, StructKind, TypeKind, Variance};
use crate::peek::{Peek, ValueId};
use crate::render;
use crate::serialize::{Conversion, FailedConversion, OwnedPeek};
use crate::shape;
use crate::views::{
    ListLikeAccess, ListLikeDef, PeekDynamicValue, PeekEnum, PeekList, PeekListLike, PeekMap,
    PeekNdArray, PeekOption, PeekPointer, PeekResult, PeekSet, PeekStruct, PeekTuple,
};
use core::cmp::Ordering;
use facet_core::{
    Facet, Field, ProxyDef, PtrConst, PtrMut, PtrUninit, ScalarType, Shape, UnsizedError, VTableErased,
};
use vstd::prelude::*;
use vstd::std_specs::cmp::PartialEqSpec;

verus! {

/// A view gives back the pointer and the shape of which it was made.
pub proof fn view_gives_back<'mem, 'facet>(
    data: PtrConst,
    shape: &'static Shape,
    peek: Peek<'mem, 'facet>,
    its_data: PtrConst,
    its_shape: &'static Shape,
)
    requires
        call_ensures(Peek::<'mem, 'facet>::unchecked_new, (data, shape), peek),
        call_ensures(Peek::<'mem, 'facet>::data, (&peek,), its_data),
        call_ensures(Peek::<'mem, 'facet>::shape, (&peek,), its_shape),
    ensures
        its_data == data,
        *its_shape == *shape,
        peek@.data == data,
        peek@.shape == *shape,
{
}

/// Variance, vtable and scalar type of a value are those of its shape.
pub proof fn properties_are_those_of_the_shape<'mem, 'facet>(
    peek: Peek<'mem, 'facet>,
    variance: Variance,
    vtable: VTableErased,
    scalar: Option<ScalarType>,
)
    requires
        call_ensures(Peek::<'mem, 'facet>::variance, (&peek,), variance),
        call_ensures(Peek::<'mem, 'facet>::vtable, (&peek,), vtable),
        call_ensures(Peek::<'mem, 'facet>::scalar_type, (&peek,), scalar),
    ensures
        variance == shape::variance_of(peek@.shape),
        vtable == shape::vtable_of(peek@.shape),
        scalar == shape::scalar_of(peek@.shape),
{
}

/// A lifetime is shrunk just where the type is covariant and grown just where it is contravariant,
/// and the view is on the same value as before.
pub proof fn lifetimes_follow_variance<'mem, 'facet: 'shorter, 'shorter, 'longer: 'facet>(
    peek: Peek<'mem, 'facet>,
    shrunk: Option<Peek<'mem, 'shorter>>,
    surely_shrunk: Peek<'mem, 'shorter>,
    grown: Option<Peek<'mem, 'longer>>,
    surely_grown: Peek<'mem, 'longer>,
)
    requires
        call_ensures(Peek::<'mem, 'facet>::try_shrink_lifetime, (peek,), shrunk),
        call_ensures(Peek::<'mem, 'facet>::try_grow_lifetime, (peek,), grown),
    ensures
        shape::variance_of(peek@.shape) == Variance::Covariant <==> shrunk is Some,
        shape::variance_of(peek@.shape) == Variance::Contravariant <==> grown is Some,
        shrunk matches Some(p) ==> p@.data == peek@.data && p@.shape == peek@.shape,
        grown matches Some(p) ==> p@.data == peek@.data && p@.shape == peek@.shape,
        call_ensures(Peek::<'mem, 'facet>::shrink_lifetime, (peek,), surely_shrunk)
            ==> surely_shrunk@.data == peek@.data && surely_shrunk@.shape == peek@.shape,
        call_ensures(Peek::<'mem, 'facet>::grow_lifetime, (peek,), surely_grown)
            ==> surely_grown@.data == peek@.data && surely_grown@.shape == peek@.shape,
{
}

/// A covariant view is made of a view just where its type is covariant.
pub proof fn covariant_views_are_of_covariant_types<'mem, 'facet>(
    peek: Peek<'mem, 'facet>,
    made: Option<CovariantPeek<'mem, 'facet>>,
)
    requires
        call_ensures(CovariantPeek::<'mem, 'facet>::new, (peek,), made),
    ensures
        made is Some <==> shape::variance_of(peek@.shape) == Variance::Covariant,
{
}

/// A covariant view is made of a value just where the view that `Peek::new` gives of it is of a
/// covariant type, and is on what that one is on.
pub proof fn covariant_views_of_values<'mem, 'facet, T: Facet<'facet> + ?Sized>(
    t: &'mem T,
    r: Option<CovariantPeek<'mem, 'facet>>,
)
    requires
        call_ensures(CovariantPeek::<'mem, 'facet>::from_ref::<T>, (t,), r),
    ensures
        exists|peek: Peek<'mem, 'facet>| #[trigger]
            call_ensures(Peek::<'mem, 'facet>::new::<T>, (t,), peek) && match r {
                Some(made) => shape::variance_of(peek@.shape) == Variance::Covariant && made@.data
                    == peek@.data && made@.shape == peek@.shape,
                None => shape::variance_of(peek@.shape) != Variance::Covariant,
            },
{
}

/// A covariant view that was made of a view, by `new` or by `new_unchecked`, is on the same value,
/// whose pointer and shape it gives back.
pub proof fn covariant_views_give_back<'mem, 'facet>(
    peek: Peek<'mem, 'facet>,
    covariant: CovariantPeek<'mem, 'facet>,
    back: Peek<'mem, 'facet>,
    data: PtrConst,
    its_shape: &'static Shape,
)
    requires
        call_ensures(
            CovariantPeek::<'mem, 'facet>::new,
            (peek,),
            Some(covariant),
        ) || call_ensures(
            CovariantPeek::<'mem, 'facet>::new_unchecked,
            (peek,),
            covariant,
        ),
        call_ensures(CovariantPeek::<'mem, 'facet>::into_peek, (covariant,), back),
        call_ensures(CovariantPeek::<'mem, 'facet>::data, (&covariant,), data),
        call_ensures(CovariantPeek::<'mem, 'facet>::shape, (&covariant,), its_shape),
    ensures
        back@.data == peek@.data && back@.shape == peek@.shape,
        data == peek@.data,
        *its_shape == peek@.shape,
{
}

/// The identifier of a value holds its shape and its address. Two values are pointer-equal just if
/// `address` gives them one address, and identifiers are equal just if both type and address are.
/// This is of an `address` that gives `x` for the first value and `y` for the second.
pub proof fn identifiers_hold_shape_and_address<A: Fn(PtrConst) -> usize>(
    address: A,
    a: Peek<'_, '_>,
    x: usize,
    b: Peek<'_, '_>,
    y: usize,
    id_a: ValueId,
    id_b: ValueId,
    shape_a: &'static Shape,
    address_a: usize,
    pointer_equal: bool,
)
    requires
        forall|u: usize| #[trigger] call_ensures(address, (a@.data,), u) ==> u == x,
        forall|u: usize| #[trigger] call_ensures(address, (b@.data,), u) ==> u == y,
        call_ensures(Peek::<'_, '_>::id::<A>, (&a, address), id_a),
        call_ensures(Peek::<'_, '_>::id::<A>, (&b, address), id_b),
        call_ensures(ValueId::shape, (&id_a,), shape_a),
        call_ensures(ValueId::address, (&id_a,), address_a),
        call_ensures(Peek::<'_, '_>::ptr_eq::<A>, (&a, &b, address), pointer_equal),
    ensures
        *shape_a == a@.shape,
        address_a == x,
        pointer_equal == (x == y),
        id_a.eq_spec(&id_b) <==> shape::identity_of(a@.shape) == shape::identity_of(b@.shape) && x
            == y,
{
}

/// Values of two types are neither compared nor ordered: `partial_eq` and `partial_cmp` say which
/// shapes were met, `eq` says that the values differ, and `order` that they have no order.
pub proof fn values_of_two_types_are_not_compared<
    E: FnOnce(&'static Shape, PtrConst, PtrConst) -> Option<bool>,
    O: FnOnce(&'static Shape, PtrConst, PtrConst) -> Option<Option<Ordering>>,
>(
    a: Peek<'_, '_>,
    b: Peek<'_, '_>,
    equality: E,
    partial: Result<bool, ReflectError>,
    equal: bool,
    ordering: O,
    compared: Result<Option<Ordering>, ReflectError>,
    ordered: Option<Ordering>,
)
    requires
        call_ensures(Peek::<'_, '_>::partial_eq::<E>, (&a, &b, equality), partial),
        call_ensures(Peek::<'_, '_>::eq::<E>, (&a, &b, equality), equal),
        call_ensures(Peek::<'_, '_>::partial_cmp::<O>, (&a, &b, ordering), compared),
        call_ensures(Peek::<'_, '_>::order::<O>, (&a, &b, ordering), ordered),
        shape::identity_of(a@.shape) != shape::identity_of(b@.shape),
    ensures
        partial == Err::<bool, ReflectError>(
            ReflectError::WrongShape { expected: &a@.shape, actual: &b@.shape },
        ),
        compared == Err::<Option<Ordering>, ReflectError>(
            ReflectError::WrongShape { expected: &a@.shape, actual: &b@.shape },
        ),
        !equal,
        ordered is None,
{
}

/// Values of one type are equal just if `equality` says so: its answer is handed on, and where the
/// type has no equality they are different. This is of an `equality` that answers `o`.
pub proof fn equality_is_handed_on<
    E: FnOnce(&'static Shape, PtrConst, PtrConst) -> Option<bool>,
>(
    a: Peek<'_, '_>,
    b: Peek<'_, '_>,
    equality: E,
    o: Option<bool>,
    partial: Result<bool, ReflectError>,
    equal: bool,
)
    requires
        call_ensures(Peek::<'_, '_>::partial_eq::<E>, (&a, &b, equality), partial),
        call_ensures(Peek::<'_, '_>::eq::<E>, (&a, &b, equality), equal),
        shape::identity_of(a@.shape) == shape::identity_of(b@.shape),
        forall|x: Option<bool>| #[trigger]
            call_ensures(equality, (&a@.shape, a@.data, b@.data), x) ==> x == o,
    ensures
        o == Some(true) ==> partial == Ok::<bool, ReflectError>(true) && equal,
        o == Some(false) ==> partial == Ok::<bool, ReflectError>(false) && !equal,
        o is None ==> partial == Ok::<bool, ReflectError>(false) && !equal,
{
}

/// Values of one type have the order that `ordering` gives them, whichever it is, and none where the
/// type has no order. This is of an `ordering` that answers `o`.
pub proof fn ordering_is_handed_on<
    O: FnOnce(&'static Shape, PtrConst, PtrConst) -> Option<Option<Ordering>>,
>(
    a: Peek<'_, '_>,
    b: Peek<'_, '_>,
    ordering: O,
    o: Option<Option<Ordering>>,
    compared: Result<Option<Ordering>, ReflectError>,
    ordered: Option<Ordering>,
)
    requires
        call_ensures(Peek::<'_, '_>::partial_cmp::<O>, (&a, &b, ordering), compared),
        call_ensures(Peek::<'_, '_>::order::<O>, (&a, &b, ordering), ordered),
        shape::identity_of(a@.shape) == shape::identity_of(b@.shape),
        forall|x: Option<Option<Ordering>>| #[trigger]
            call_ensures(ordering, (&a@.shape, a@.data, b@.data), x) ==> x == o,
    ensures
        o matches Some(given) ==> compared == Ok::<Option<Ordering>, ReflectError>(given) && ordered
            == given,
        o is None ==> compared == Ok::<Option<Ordering>, ReflectError>(None) && ordered is None,
{
}

/// The order of two values of one type turns round with them, if that of `ordering` does: what is
/// less one way is greater the other way, and what is equal stays equal.
pub proof fn order_turns_round<
    O: FnOnce(&'static Shape, PtrConst, PtrConst) -> Option<Option<Ordering>>,
>(
    a: Peek<'_, '_>,
    b: Peek<'_, '_>,
    ordering: O,
    forth: Option<Ordering>,
    back: Option<Ordering>,
)
    requires
        call_ensures(Peek::<'_, '_>::order::<O>, (&a, &b, ordering), forth),
        call_ensures(Peek::<'_, '_>::order::<O>, (&b, &a, ordering), back),
        shape::identity_of(a@.shape) == shape::identity_of(b@.shape),
        forall|x: Option<Option<Ordering>>, y: Option<Option<Ordering>>| #[trigger]
            call_ensures(ordering, (&a@.shape, a@.data, b@.data), x) && #[trigger] call_ensures(
                ordering,
                (&b@.shape, b@.data, a@.data),
                y,
            ) ==> {
                &&& x == Some(Some(Ordering::Less)) <==> y == Some(Some(Ordering::Greater))
                &&& x == Some(Some(Ordering::Greater)) <==> y == Some(Some(Ordering::Less))
                &&& x == Some(Some(Ordering::Equal)) <==> y == Some(Some(Ordering::Equal))
            },
    ensures
        forth == Some(Ordering::Less) <==> back == Some(Ordering::Greater),
        forth == Some(Ordering::Greater) <==> back == Some(Ordering::Less),
        forth == Some(Ordering::Equal) <==> back == Some(Ordering::Equal),
        forth is None <==> back is None,
{
    if let Some(o) = forth {
        match o {
            Ordering::Less => {},
            Ordering::Equal => {},
            Ordering::Greater => {},
        }
    }
    if let Some(o) = back {
        match o {
            Ordering::Less => {},
            Ordering::Equal => {},
            Ordering::Greater => {},
        }
    }
}

/// A value is hashed just if `feed` hashes it. This is of a `feed` that answers `o`.
pub proof fn hashing_is_handed_on<F: FnOnce(&'static Shape, PtrConst) -> Option<()>>(
    peek: Peek<'_, '_>,
    feed: F,
    o: Option<()>,
    r: Result<(), ReflectError>,
)
    requires
        call_ensures(Peek::<'_, '_>::hash::<F>, (&peek, feed), r),
        forall|x: Option<()>| #[trigger]
            call_ensures(feed, (&peek@.shape, peek@.data), x) ==> x == o,
    ensures
        o is Some ==> r is Ok,
        o is None ==> r == Err::<(), ReflectError>(
            ReflectError::OperationFailed { shape: &peek@.shape, operation: "hash" },
        ),
{
}

/// Text is found in string scalars and in references to them, and nowhere else. A `String` is where
/// the scalar type is `String`. A bare `str` is where the scalar type is `str` and the type is no
/// pointer. Where the type is a reference to such a type there is a `&str`, and where it is a
/// reference to that, a `&&str`. Each is where the value is.
pub proof fn text_is_found_in_strings<'mem, 'facet>(
    peek: Peek<'mem, 'facet>,
    r: Option<StrAccess>,
)
    requires
        call_ensures(Peek::<'mem, 'facet>::str_access, (&peek,), r),
    ensures
        r matches Some(StrAccess::Bare(data)) ==> data == peek@.data,
        r matches Some(StrAccess::Owned(data)) ==> data == peek@.data,
        r matches Some(StrAccess::Reference(data)) ==> data == peek@.data,
        r matches Some(StrAccess::DoubleReference(data)) ==> data == peek@.data,
        r matches Some(StrAccess::Owned(_)) <==> (shape::scalar_of(peek@.shape) matches Some(s)
            && shape::class_of(s) == ScalarClass::String),
        r matches Some(StrAccess::Bare(_)) <==> (shape::scalar_of(peek@.shape) matches Some(s)
            && shape::class_of(s) == ScalarClass::Str) && !(shape::type_of(
            peek@.shape,
        ) is Reference) && !(shape::type_of(peek@.shape) is Raw) && !(shape::type_of(
            peek@.shape,
        ) is Function),
        r matches Some(StrAccess::Reference(_)) <==> !(shape::scalar_of(peek@.shape) matches Some(s)
            && shape::class_of(s) == ScalarClass::String) && (shape::type_of(
            peek@.shape,
        ) matches TypeKind::Reference(target) && (shape::scalar_of(*target) matches Some(s)
            && shape::class_of(s) == ScalarClass::Str) && !(shape::type_of(*target) is Reference)
            && !(shape::type_of(*target) is Raw) && !(shape::type_of(*target) is Function)),
        r matches Some(StrAccess::DoubleReference(_)) <==> !(shape::scalar_of(
            peek@.shape,
        ) matches Some(s) && shape::class_of(s) == ScalarClass::String) && (shape::type_of(
            peek@.shape,
        ) matches TypeKind::Reference(outer) && (shape::type_of(
            *outer,
        ) matches TypeKind::Reference(target) && (shape::scalar_of(*target) matches Some(s)
            && shape::class_of(s) == ScalarClass::Str) && !(shape::type_of(*target) is Reference)
            && !(shape::type_of(*target) is Raw) && !(shape::type_of(*target) is Function))),
        shape::scalar_of(peek@.shape) is None && !(shape::type_of(peek@.shape) is Reference)
            ==> r is None,
{
}

/// The bytes of a value are read, where the value is, just if it is a reference to a slice of `u8`.
pub proof fn bytes_are_behind_references<'mem, 'facet, F: FnOnce(PtrConst) -> &'mem [u8]>(
    peek: Peek<'mem, 'facet>,
    read: F,
    r: Option<&'mem [u8]>,
)
    requires
        call_ensures(Peek::<'mem, 'facet>::as_bytes::<F>, (&peek, read), r),
    ensures
        r is Some <==> (shape::type_of(peek@.shape) matches TypeKind::Reference(target) && (
        shape::def_of(*target) matches DefKind::Slice(def) && (shape::scalar_of(
            *shape::element_of(def),
        ) matches Some(s) && shape::class_of(s) == ScalarClass::U8))),
        r matches Some(bytes) ==> call_ensures(read, (peek@.data,), bytes),
{
}

/// A value is read, where it is, just if it is of the type to read it as.
pub proof fn values_are_read_as_their_type<'mem, 'facet, R, F: FnOnce(PtrConst) -> R>(
    peek: Peek<'mem, 'facet>,
    asked: &'static Shape,
    read: F,
    got: Result<R, ReflectError>,
    tried: Result<R, ReflectError>,
)
    requires
        call_ensures(Peek::<'mem, 'facet>::try_get::<R, F>, (&peek, asked, read), tried),
    ensures
        call_ensures(Peek::<'mem, 'facet>::get::<R, F>, (&peek, asked, read), got) ==> (
        got matches Ok(value) && call_ensures(read, (peek@.data,), value)),
        shape::identity_of(peek@.shape) == shape::identity_of(*asked) ==> (tried matches Ok(value)
            && call_ensures(read, (peek@.data,), value)),
        shape::identity_of(peek@.shape) != shape::identity_of(*asked) ==> tried == Err::<
            R,
            ReflectError,
        >(ReflectError::WrongShape { expected: &peek@.shape, actual: asked }),
{
}

/// A value is a struct, with that description, just if its type is one, whatever kind of struct.
pub proof fn structs_are_structs<'mem, 'facet>(
    value: Peek<'mem, 'facet>,
    r: Result<PeekStruct<'mem, 'facet>, ReflectError>,
)
    requires
        call_ensures(Peek::<'mem, 'facet>::into_struct, (value,), r),
    ensures
        shape::type_of(value@.shape) matches TypeKind::Struct(ty) ==> (r matches Ok(view) && view.ty == ty
            && view.value == value),
        !(shape::type_of(value@.shape) is Struct) ==> r == Err::<
            PeekStruct<'mem, 'facet>,
            ReflectError,
        >(ReflectError::WasNotA { expected: "struct", actual: &value@.shape }),
{
}

/// A value is an enum, with that description, just if its type is one.
pub proof fn enums_are_enums<'mem, 'facet>(
    value: Peek<'mem, 'facet>,
    r: Result<PeekEnum<'mem, 'facet>, ReflectError>,
)
    requires
        call_ensures(Peek::<'mem, 'facet>::into_enum, (value,), r),
    ensures
        shape::type_of(value@.shape) matches TypeKind::Enum(ty) ==> (r matches Ok(view) && view.ty == ty
            && view.value == value),
        !(shape::type_of(value@.shape) is Enum) ==> r == Err::<
            PeekEnum<'mem, 'facet>,
            ReflectError,
        >(ReflectError::WasNotA { expected: "enum", actual: &value@.shape }),
{
}

/// A value is a tuple, with the fields of that struct, just if its type is a struct of that kind.
pub proof fn tuples_are_tuples<'mem, 'facet>(
    value: Peek<'mem, 'facet>,
    r: Result<PeekTuple<'mem, 'facet>, ReflectError>,
)
    requires
        call_ensures(Peek::<'mem, 'facet>::into_tuple, (value,), r),
    ensures
        r is Ok <==> (shape::type_of(value@.shape) matches TypeKind::Struct(ty)
            && shape::struct_kind_of(ty) == StructKind::Tuple),
        r matches Ok(view) ==> view.value == value && (shape::type_of(
            value@.shape,
        ) matches TypeKind::Struct(ty) && view.ty.fields@ == shape::struct_fields_of(ty)),
        r is Err ==> r == Err::<PeekTuple<'mem, 'facet>, ReflectError>(
            ReflectError::WasNotA { expected: "tuple", actual: &value@.shape },
        ),
{
}

/// A value is a map, with those operations, just if its shape defines it as one.
pub proof fn maps_are_maps<'mem, 'facet>(
    value: Peek<'mem, 'facet>,
    r: Result<PeekMap<'mem, 'facet>, ReflectError>,
)
    requires
        call_ensures(Peek::<'mem, 'facet>::into_map, (value,), r),
    ensures
        shape::def_of(value@.shape) matches DefKind::Mapping(def) ==> (r matches Ok(view) && view.def == def
            && view.value == value),
        !(shape::def_of(value@.shape) is Mapping) ==> r == Err::<
            PeekMap<'mem, 'facet>,
            ReflectError,
        >(ReflectError::WasNotA { expected: "map", actual: &value@.shape }),
{
}

/// A value is a set, with those operations, just if its shape defines it as one.
pub proof fn sets_are_sets<'mem, 'facet>(
    value: Peek<'mem, 'facet>,
    r: Result<PeekSet<'mem, 'facet>, ReflectError>,
)
    requires
        call_ensures(Peek::<'mem, 'facet>::into_set, (value,), r),
    ensures
        shape::def_of(value@.shape) matches DefKind::UniqueSet(def) ==> (r matches Ok(view) && view.def == def
            && view.value == value),
        !(shape::def_of(value@.shape) is UniqueSet) ==> r == Err::<
            PeekSet<'mem, 'facet>,
            ReflectError,
        >(ReflectError::WasNotA { expected: "set", actual: &value@.shape }),
{
}

/// A value is a list, with those operations, just if its shape defines it as one.
pub proof fn lists_are_lists<'mem, 'facet>(
    value: Peek<'mem, 'facet>,
    r: Result<PeekList<'mem, 'facet>, ReflectError>,
)
    requires
        call_ensures(Peek::<'mem, 'facet>::into_list, (value,), r),
    ensures
        shape::def_of(value@.shape) matches DefKind::List(def) ==> (r matches Ok(view) && view.def == def
            && view.value == value),
        !(shape::def_of(value@.shape) is List) ==> r == Err::<
            PeekList<'mem, 'facet>,
            ReflectError,
        >(ReflectError::WasNotA { expected: "list", actual: &value@.shape }),
{
}

/// A value is an array of several dimensions, with those operations, just if its shape defines it as one.
pub proof fn ndarrays_are_ndarrays<'mem, 'facet>(
    value: Peek<'mem, 'facet>,
    r: Result<PeekNdArray<'mem, 'facet>, ReflectError>,
)
    requires
        call_ensures(Peek::<'mem, 'facet>::into_ndarray, (value,), r),
    ensures
        shape::def_of(value@.shape) matches DefKind::NdArray(def) ==> (r matches Ok(view) && view.def == def
            && view.value == value),
        !(shape::def_of(value@.shape) is NdArray) ==> r == Err::<
            PeekNdArray<'mem, 'facet>,
            ReflectError,
        >(ReflectError::WasNotA { expected: "ndarray", actual: &value@.shape }),
{
}

/// A value is a pointer, with those operations, just if its shape defines it as one.
pub proof fn pointers_are_pointers<'mem, 'facet>(
    value: Peek<'mem, 'facet>,
    r: Result<PeekPointer<'mem, 'facet>, ReflectError>,
)
    requires
        call_ensures(Peek::<'mem, 'facet>::into_pointer, (value,), r),
    ensures
        shape::def_of(value@.shape) matches DefKind::Pointer(def) ==> (r matches Ok(view) && view.def == def
            && view.value == value),
        !(shape::def_of(value@.shape) is Pointer) ==> r == Err::<
            PeekPointer<'mem, 'facet>,
            ReflectError,
        >(ReflectError::WasNotA { expected: "smart pointer", actual: &value@.shape }),
{
}

/// A value is an option, with those operations, just if its shape defines it as one.
pub proof fn options_are_options<'mem, 'facet>(
    value: Peek<'mem, 'facet>,
    r: Result<PeekOption<'mem, 'facet>, ReflectError>,
)
    requires
        call_ensures(Peek::<'mem, 'facet>::into_option, (value,), r),
    ensures
        shape::def_of(value@.shape) matches DefKind::Option(def) ==> (r matches Ok(view) && view.def == def
            && view.value == value),
        !(shape::def_of(value@.shape) is Option) ==> r == Err::<
            PeekOption<'mem, 'facet>,
            ReflectError,
        >(ReflectError::WasNotA { expected: "option", actual: &value@.shape }),
{
}

/// A value is a result, with those operations, just if its shape defines it as one.
pub proof fn results_are_results<'mem, 'facet>(
    value: Peek<'mem, 'facet>,
    r: Result<PeekResult<'mem, 'facet>, ReflectError>,
)
    requires
        call_ensures(Peek::<'mem, 'facet>::into_result, (value,), r),
    ensures
        shape::def_of(value@.shape) matches DefKind::Result(def) ==> (r matches Ok(view) && view.def == def
            && view.value == value),
        !(shape::def_of(value@.shape) is Result) ==> r == Err::<
            PeekResult<'mem, 'facet>,
            ReflectError,
        >(ReflectError::WasNotA { expected: "result", actual: &value@.shape }),
{
}

/// A value is a dynamic value, with those operations, just if its shape defines it as one.
pub proof fn dynamic_values_are_dynamic_values<'mem, 'facet>(
    value: Peek<'mem, 'facet>,
    r: Result<PeekDynamicValue<'mem, 'facet>, ReflectError>,
)
    requires
        call_ensures(Peek::<'mem, 'facet>::into_dynamic_value, (value,), r),
    ensures
        shape::def_of(value@.shape) matches DefKind::DynamicValue(def) ==> (r matches Ok(view) && view.def == def
            && view.value == value),
        !(shape::def_of(value@.shape) is DynamicValue) ==> r == Err::<
            PeekDynamicValue<'mem, 'facet>,
            ReflectError,
        >(ReflectError::WasNotA { expected: "dynamic value", actual: &value@.shape }),
{
}

/// Every list, array and slice is seen as what it is, and every other value that is a reference or a
/// raw pointer to a slice as that slice, whatever its items are. All else is not list-like.
pub proof fn list_like_values_are_seen_so<'mem, 'facet>(
    value: Peek<'mem, 'facet>,
    r: Result<ListLikeAccess, ReflectError>,
)
    requires
        call_ensures(Peek::<'mem, 'facet>::list_like_access, (&value,), r),
    ensures
        shape::def_of(value@.shape) matches DefKind::List(def) ==> r == Ok::<_, ReflectError>(
            ListLikeAccess::Direct(ListLikeDef::List(def)),
        ),
        shape::def_of(value@.shape) matches DefKind::Array(def) ==> r == Ok::<_, ReflectError>(
            ListLikeAccess::Direct(ListLikeDef::Array(def)),
        ),
        shape::def_of(value@.shape) matches DefKind::Slice(def) ==> r == Ok::<_, ReflectError>(
            ListLikeAccess::Direct(ListLikeDef::Slice(def)),
        ),
        !(shape::def_of(value@.shape) is List) && !(shape::def_of(value@.shape) is Array) && !(
        shape::def_of(value@.shape) is Slice) ==> {
            &&& shape::type_of(value@.shape) matches TypeKind::Reference(target) ==> (shape::def_of(
                *target,
            ) matches DefKind::Slice(def) ==> r == Ok::<_, ReflectError>(
                ListLikeAccess::Behind(def),
            ))
            &&& shape::type_of(value@.shape) matches TypeKind::Raw(target) ==> (shape::def_of(
                *target,
            ) matches DefKind::Slice(def) ==> r == Ok::<_, ReflectError>(
                ListLikeAccess::Behind(def),
            ))
            &&& !(shape::type_of(value@.shape) matches TypeKind::Reference(target)
                && shape::def_of(*target) is Slice) && !(shape::type_of(
                value@.shape,
            ) matches TypeKind::Raw(target) && shape::def_of(*target) is Slice) ==> r == Err::<
                ListLikeAccess,
                ReflectError,
            >(ReflectError::WasNotA { expected: "list, array or slice", actual: &value@.shape })
        },
{
}

/// A list-like view of a list, an array or a slice is on the value itself, and that of a reference
/// or raw pointer to a slice on the items to which `follow` leads, whatever they are. All else is
/// not list-like.
pub proof fn list_like_views_are_of_the_items<
    'mem,
    'facet,
    F: FnOnce(PtrConst) -> PtrConst,
>(
    value: Peek<'mem, 'facet>,
    follow: F,
    r: Result<PeekListLike<'mem, 'facet>, ReflectError>,
)
    requires
        call_ensures(Peek::<'mem, 'facet>::into_list_like::<F>, (value, follow), r),
    ensures
        shape::def_of(value@.shape) matches DefKind::List(def) ==> (r matches Ok(view) && view.value
            == value && view.def == ListLikeDef::List(def)),
        shape::def_of(value@.shape) matches DefKind::Array(def) ==> (r matches Ok(view)
            && view.value == value && view.def == ListLikeDef::Array(def)),
        shape::def_of(value@.shape) matches DefKind::Slice(def) ==> (r matches Ok(view)
            && view.value == value && view.def == ListLikeDef::Slice(def)),
        !(shape::def_of(value@.shape) is List) && !(shape::def_of(value@.shape) is Array) && !(
        shape::def_of(value@.shape) is Slice) ==> {
            &&& shape::type_of(value@.shape) matches TypeKind::Reference(target) ==> (shape::def_of(
                *target,
            ) matches DefKind::Slice(def) ==> (r matches Ok(view) && view.def
                == ListLikeDef::Slice(def) && view.value@.shape == *shape::element_of(def)
                && call_ensures(follow, (value@.data,), view.value@.data)))
            &&& shape::type_of(value@.shape) matches TypeKind::Raw(target) ==> (shape::def_of(
                *target,
            ) matches DefKind::Slice(def) ==> (r matches Ok(view) && view.def
                == ListLikeDef::Slice(def) && view.value@.shape == *shape::element_of(def)
                && call_ensures(follow, (value@.data,), view.value@.data)))
            &&& !(shape::type_of(value@.shape) matches TypeKind::Reference(target)
                && shape::def_of(*target) is Slice) && !(shape::type_of(
                value@.shape,
            ) matches TypeKind::Raw(target) && shape::def_of(*target) is Slice) ==> r == Err::<
                PeekListLike<'mem, 'facet>,
                ReflectError,
            >(ReflectError::WasNotA { expected: "list, array or slice", actual: &value@.shape })
        },
{
}

/// A type is a pointer if it is a reference, a raw pointer or a function pointer, and nothing else.
pub proof fn pointers_are_of_three_sorts(ty: TypeKind, r: bool)
    requires
        call_ensures(TypeKind::is_pointer, (&ty,), r),
    ensures
        r == match ty {
            TypeKind::Reference(_) => true,
            TypeKind::Raw(_) => true,
            TypeKind::Function => true,
            TypeKind::Undefined => false,
            TypeKind::Primitive => false,
            TypeKind::Sequence => false,
            TypeKind::Struct(_) => false,
            TypeKind::Enum(_) => false,
            TypeKind::Union => false,
            TypeKind::Opaque => false,
        },
{
}

/// A conversion begins just if the size of the proxy is known, with memory that was allocated for
/// the proxy, from the value, to the proxy.
pub proof fn conversions_begin_with_memory<'mem, 'facet>(
    peek: Peek<'mem, 'facet>,
    proxy: &'static ProxyDef,
    r: Result<Conversion, ReflectError>,
    conversion: Conversion,
    its_proxy: &'static ProxyDef,
    source: PtrConst,
    target: PtrUninit,
)
    requires
        call_ensures(Peek::<'mem, 'facet>::begin_conversion, (&peek, proxy), r),
        r matches Ok(begun) ==> begun == conversion,
        call_ensures(Conversion::proxy, (&conversion,), its_proxy),
        call_ensures(Conversion::source, (&conversion,), source),
        call_ensures(Conversion::target, (&conversion,), target),
    ensures
        !shape::is_sized(*shape::proxy_shape_of(*proxy)) ==> r == Err::<Conversion, ReflectError>(
            ReflectError::Unsized {
                shape: shape::proxy_shape_of(*proxy),
                operation: "Not a Sized type",
            },
        ),
        shape::is_sized(*shape::proxy_shape_of(*proxy)) ==> {
            &&& r is Ok
            &&& *its_proxy == *proxy
            &&& source == peek@.data
            &&& call_ensures(
                Shape::allocate,
                (shape::proxy_shape_of(*proxy),),
                Ok::<PtrUninit, UnsizedError>(target),
            )
        },
{
}

/// A conversion that filled its memory gives the value there, of the shape of the proxy. Any other
/// gives the memory back, with the message of the converting function, or, where that one claims
/// success, with `mismatch`, and says from which shape to which the conversion was. `begun` is what
/// `begin_conversion` returned of `peek`.
pub proof fn conversions_end_with_value_or_memory<'mem, 'facet>(
    peek: Peek<'mem, 'facet>,
    proxy: &'static ProxyDef,
    begun: Conversion,
    target: PtrUninit,
    outcome: Result<PtrMut, String>,
    mismatch: &'static str,
    r: Result<OwnedPeek<'mem>, FailedConversion>,
)
    requires
        call_ensures(
            Peek::<'mem, 'facet>::begin_conversion,
            (&peek, proxy),
            Ok::<Conversion, ReflectError>(begun),
        ),
        call_ensures(Conversion::target, (&begun,), target),
        call_ensures(Conversion::finish, (begun, outcome, mismatch), r),
    ensures
        match outcome {
            Ok(data) => if shape::place_of(shape::uninit_of(data)) == shape::place_of(target) {
                r matches Ok(owned) && owned@.data == data && owned@.shape
                    == *shape::proxy_shape_of(*proxy)
            } else {
                r matches Err(failed) && failed.target == target && *failed.target_shape
                    == *shape::proxy_shape_of(*proxy) && (
                failed.error matches ReflectError::CustomSerializationError {
                    message,
                    src_shape,
                    dst_shape,
                } && message@ == mismatch@ && *src_shape == peek@.shape && *dst_shape
                    == *shape::proxy_shape_of(*proxy))
            },
            Err(text) => r matches Err(failed) && failed.target == target && *failed.target_shape
                == *shape::proxy_shape_of(*proxy) && (
            failed.error matches ReflectError::CustomSerializationError {
                message,
                src_shape,
                dst_shape,
            } && message@ == text@ && *src_shape == peek@.shape && *dst_shape
                == *shape::proxy_shape_of(*proxy)),
        },
{
}

/// An owned value gives back its pointer and its shape.
pub proof fn owned_values_give_back<'mem>(
    owned: OwnedPeek<'mem>,
    data: PtrMut,
    its_shape: &'static Shape,
)
    requires
        call_ensures(OwnedPeek::<'mem>::data, (&owned,), data),
        call_ensures(OwnedPeek::<'mem>::shape, (&owned,), its_shape),
    ensures
        data == owned@.data,
        *its_shape == owned@.shape,
{
}

/// A value is serialized through the proxy of the field: without one that is an error, and so is a
/// proxy whose size is not known. Otherwise `convert` is called on the value and on memory that was
/// allocated for the proxy. If it returns that memory, the value there is the result, of the shape of
/// the proxy. If not, that memory is released, and the error carries the message of `convert`, or
/// says that it returned other memory.
pub proof fn fields_are_serialized_through_their_proxy<
    'mem,
    'facet,
    C: FnOnce(&'static ProxyDef, PtrConst, PtrUninit) -> Result<PtrMut, String>,
    D: FnOnce(&'static Shape, PtrUninit),
>(
    value: Peek<'mem, 'facet>,
    field: Field,
    convert: C,
    release: D,
    r: Result<OwnedPeek<'mem>, ReflectError>,
)
    requires
        call_ensures(
            Peek::<'mem, 'facet>::custom_serialization::<C, D>,
            (&value, field, convert, release),
            r,
        ),
    ensures
        shape::field_proxy_of(field) is None ==> r == Err::<OwnedPeek<'mem>, ReflectError>(
            ReflectError::OperationFailed {
                shape: &value@.shape,
                operation: "field does not have a proxy definition",
            },
        ),
        shape::field_proxy_of(field) matches Some(proxy) ==> (!shape::is_sized(
            *shape::proxy_shape_of(*proxy),
        ) ==> (r matches Err(ReflectError::Unsized { shape: at, operation }) && *at
            == *shape::proxy_shape_of(*proxy) && operation == "Not a Sized type")),
        shape::field_proxy_of(field) matches Some(proxy) ==> (shape::is_sized(
            *shape::proxy_shape_of(*proxy),
        ) ==> exists|target: PtrUninit, outcome: Result<PtrMut, String>| #[trigger]
            call_ensures(convert, (proxy, value@.data, target), outcome) && call_ensures(
                Shape::allocate,
                (shape::proxy_shape_of(*proxy),),
                Ok::<PtrUninit, UnsizedError>(target),
            ) && (outcome matches Ok(data) && shape::place_of(shape::uninit_of(data))
                == shape::place_of(target) ==> (r matches Ok(owned) && owned@.data
                == outcome->Ok_0 && owned@.shape == *shape::proxy_shape_of(*proxy))) && (!(
            outcome matches Ok(data) && shape::place_of(shape::uninit_of(data)) == shape::place_of(
                target,
            )) ==> (r matches Err(
                ReflectError::CustomSerializationError { message, src_shape, dst_shape },
            ) && *src_shape == value@.shape && *dst_shape == *shape::proxy_shape_of(*proxy)
                && message@ == (match outcome {
                Ok(_) => "convert_out did not return the expected pointer"@,
                Err(text) => text@,
            }) && call_ensures(release, (shape::proxy_shape_of(*proxy), target), ())))),
{
}

/// A value is serialized through the proxy of its type, as through that of a field. Without one there
/// is no result, and no error.
pub proof fn types_are_serialized_through_their_proxy<
    'mem,
    'facet,
    C: FnOnce(&'static ProxyDef, PtrConst, PtrUninit) -> Result<PtrMut, String>,
    D: FnOnce(&'static Shape, PtrUninit),
>(
    value: Peek<'mem, 'facet>,
    convert: C,
    release: D,
    r: Result<Option<OwnedPeek<'mem>>, ReflectError>,
)
    requires
        call_ensures(
            Peek::<'mem, 'facet>::custom_serialization_from_shape::<C, D>,
            (&value, convert, release),
            r,
        ),
    ensures
        shape::proxy_of(value@.shape) is None ==> r == Ok::<
            Option<OwnedPeek<'mem>>,
            ReflectError,
        >(None),
        shape::proxy_of(value@.shape) matches Some(proxy) ==> (!shape::is_sized(
            *shape::proxy_shape_of(*proxy),
        ) ==> (r matches Err(ReflectError::Unsized { shape: at, operation }) && *at
            == *shape::proxy_shape_of(*proxy) && operation == "Not a Sized type")),
        shape::proxy_of(value@.shape) matches Some(proxy) ==> (shape::is_sized(
            *shape::proxy_shape_of(*proxy),
        ) ==> exists|target: PtrUninit, outcome: Result<PtrMut, String>| #[trigger]
            call_ensures(convert, (proxy, value@.data, target), outcome) && call_ensures(
                Shape::allocate,
                (shape::proxy_shape_of(*proxy),),
                Ok::<PtrUninit, UnsizedError>(target),
            ) && (outcome matches Ok(data) && shape::place_of(shape::uninit_of(data))
                == shape::place_of(target) ==> (r matches Ok(Some(owned)) && owned@.data
                == outcome->Ok_0 && owned@.shape == *shape::proxy_shape_of(*proxy))) && (!(
            outcome matches Ok(data) && shape::place_of(shape::uninit_of(data)) == shape::place_of(
                target,
            )) ==> (r matches Err(
                ReflectError::CustomSerializationError { message, src_shape, dst_shape },
            ) && *src_shape == value@.shape && *dst_shape == *shape::proxy_shape_of(*proxy)
                && message@ == (match outcome {
                Ok(_) => "proxy convert_out did not return the expected pointer"@,
                Err(text) => text@,
            }) && call_ensures(release, (shape::proxy_shape_of(*proxy), target), ())))),
{
}

/// A value is shown as `show` shows it. Where `show` does not, it is shown as the name of its type in
/// angle brackets, if that can be written. This is of a `show` that answers `o`.
pub proof fn values_are_shown_or_named<
    F: FnOnce(&'static Shape, PtrConst) -> Option<Result<String, FormatError>>,
>(
    peek: Peek<'_, '_>,
    show: F,
    o: Option<Result<String, FormatError>>,
    r: Result<String, FormatError>,
)
    requires
        call_ensures(Peek::<'_, '_>::display::<F>, (&peek, show), r) || call_ensures(
            Peek::<'_, '_>::debug::<F>,
            (&peek, show),
            r,
        ),
        forall|x: Option<Result<String, FormatError>>| #[trigger]
            call_ensures(show, (&peek@.shape, peek@.data), x) ==> x == o,
    ensures
        o matches Some(shown) ==> r == shown,
        o is None ==> match shape::name_of(peek@.shape) {
            Some(name) => r matches Ok(text) && text@ == "⟨"@ + name + "⟩"@,
            None => r is Err,
        },
{
}

/// The name of a type is what `format` writes, and its identifier where `format` writes nothing.
/// This is of a `format` that answers `o`.
pub proof fn types_are_named_by_format_or_identifier<
    F: FnOnce(&'static Shape) -> Option<Result<String, FormatError>>,
>(
    peek: Peek<'_, '_>,
    format: F,
    o: Option<Result<String, FormatError>>,
    r: Result<String, FormatError>,
)
    requires
        call_ensures(Peek::<'_, '_>::formatted_name::<F>, (&peek, format), r),
        forall|x: Option<Result<String, FormatError>>| #[trigger]
            call_ensures(format, (&peek@.shape,), x) ==> x == o,
    ensures
        o matches Some(formatted) ==> r == formatted,
        o is None ==> (r matches Ok(name) && name@ == shape::identifier_of(peek@.shape)),
{
}

/// The number that hexadecimal digits, in lower case, stand for.
pub open spec fn number_of(digits: Seq<char>) -> int
    decreases digits.len(),
{
    if digits.len() == 0 {
        0
    } else {
        let c = digits.last();
        16 * number_of(digits.drop_last()) + if c <= '9' {
            c as int - '0' as int
        } else {
            c as int - 'a' as int + 10
        }
    }
}

/// The digits stand for the number, are all in lower case, and do not start with a needless zero.
proof fn lemma_hex_stands_for(n: nat)
    ensures
        number_of(render::hex_of(n)) == n,
        render::hex_of(n).len() > 0,
        forall|i: int|
            0 <= i < render::hex_of(n).len() ==> {
                let c = #[trigger] render::hex_of(n)[i];
                '0' <= c <= '9' || 'a' <= c <= 'f'
            },
        n > 0 ==> render::hex_of(n)[0] != '0',
        n == 0 ==> render::hex_of(n).len() == 1,
    decreases n,
{
    reveal_with_fuel(number_of, 2);
    let digits = render::hex_of(n);
    if n >= 16 {
        lemma_hex_stands_for(n / 16);
        assert(digits.drop_last() =~= render::hex_of(n / 16));
        assert(digits.last() == render::hex_digit(n % 16));
    } else {
        assert(digits.drop_last() =~= Seq::<char>::empty());
        assert(digits.last() == render::hex_digit(n));
    }
}

/// The text of an identifier is the name of the type, `@0x`, and hexadecimal digits that stand for
/// the address, in lower case and without needless zeros; and there is none just where the name of
/// the type cannot be written.
pub proof fn identifiers_are_written_in_full(id: ValueId, r: Result<String, FormatError>)
    requires
        call_ensures(ValueId::to_text, (&id,), r),
    ensures
        r is Ok <==> shape::name_of(id@.shape) is Some,
        r matches Ok(text) ==> exists|digits: Seq<char>|
            {
                &&& shape::name_of(id@.shape) matches Some(name) && text@ == name + "@0x"@ + digits
                &&& #[trigger] number_of(digits) == id@.address
                &&& digits.len() > 0
                &&& digits[0] == '0' ==> digits.len() == 1
                &&& forall|i: int|
                    0 <= i < digits.len() ==> '0' <= #[trigger] digits[i] <= '9' || 'a' <= digits[i]
                        <= 'f'
            },
{
    let digits = render::hex_of(id@.address as nat);
    lemma_hex_stands_for(id@.address as nat);
    assert(number_of(digits) == id@.address);
}

/// Every value can be asked what it is, whatever its shape.
pub proof fn every_value_can_be_identified<'mem, 'facet>(value: Peek<'mem, 'facet>)
    ensures
        call_requires(Peek::<'mem, 'facet>::into_struct, (value,)),
        call_requires(Peek::<'mem, 'facet>::into_enum, (value,)),
        call_requires(Peek::<'mem, 'facet>::into_tuple, (value,)),
        call_requires(Peek::<'mem, 'facet>::into_map, (value,)),
        call_requires(Peek::<'mem, 'facet>::into_set, (value,)),
        call_requires(Peek::<'mem, 'facet>::into_list, (value,)),
        call_requires(Peek::<'mem, 'facet>::into_ndarray, (value,)),
        call_requires(Peek::<'mem, 'facet>::into_pointer, (value,)),
        call_requires(Peek::<'mem, 'facet>::into_option, (value,)),
        call_requires(Peek::<'mem, 'facet>::into_result, (value,)),
        call_requires(Peek::<'mem, 'facet>::into_dynamic_value, (value,)),
        call_requires(Peek::<'mem, 'facet>::shape, (&value,)),
        call_requires(Peek::<'mem, 'facet>::data, (&value,)),
        call_requires(Peek::<'mem, 'facet>::vtable, (&value,)),
        call_requires(Peek::<'mem, 'facet>::scalar_type, (&value,)),
        call_requires(Peek::<'mem, 'facet>::str_access, (&value,)),
        call_requires(Peek::<'mem, 'facet>::list_like_access, (&value,)),
{
}

/// A value can be compared with every other, if the functions handed in can be called on two values
/// of one type; can be hashed, shown, named, identified and read if they can be called on the value;
/// and can be followed if it is a pointer to a slice that they can follow.
pub proof fn every_value_can_be_used<
    'mem,
    'facet,
    E: FnOnce(&'static Shape, PtrConst, PtrConst) -> Option<bool>,
    O: FnOnce(&'static Shape, PtrConst, PtrConst) -> Option<Option<Ordering>>,
    H: FnOnce(&'static Shape, PtrConst) -> Option<()>,
    A: Fn(PtrConst) -> usize,
    R: FnOnce(PtrConst) -> &'mem [u8],
    L: FnOnce(PtrConst) -> PtrConst,
    S: FnOnce(&'static Shape, PtrConst) -> Option<Result<String, FormatError>>,
>(
    a: Peek<'mem, 'facet>,
    b: Peek<'mem, 'facet>,
    asked: &'static Shape,
    equality: E,
    ordering: O,
    feed: H,
    address: A,
    read: R,
    follow: L,
    show: S,
)
    requires
        shape::identity_of(a@.shape) == shape::identity_of(b@.shape) ==> call_requires(
            equality,
            (&a@.shape, a@.data, b@.data),
        ) && call_requires(ordering, (&a@.shape, a@.data, b@.data)),
        call_requires(feed, (&a@.shape, a@.data)),
        call_requires(address, (a@.data,)),
        call_requires(address, (b@.data,)),
        call_requires(read, (a@.data,)),
        shape::type_of(a@.shape) is Reference || shape::type_of(a@.shape) is Raw ==> call_requires(
            follow,
            (a@.data,),
        ),
        call_requires(show, (&a@.shape, a@.data)),
        shape::is_valid(a@.shape),
    ensures
        call_requires(Peek::<'mem, 'facet>::partial_eq::<E>, (&a, &b, equality)),
        call_requires(Peek::<'mem, 'facet>::eq::<E>, (&a, &b, equality)),
        call_requires(Peek::<'mem, 'facet>::partial_cmp::<O>, (&a, &b, ordering)),
        call_requires(Peek::<'mem, 'facet>::order::<O>, (&a, &b, ordering)),
        call_requires(Peek::<'mem, 'facet>::hash::<H>, (&a, feed)),
        call_requires(Peek::<'mem, 'facet>::id::<A>, (&a, address)),
        call_requires(Peek::<'mem, 'facet>::ptr_eq::<A>, (&a, &b, address)),
        call_requires(Peek::<'mem, 'facet>::as_bytes::<R>, (&a, read)),
        call_requires(Peek::<'mem, 'facet>::try_get::<&'mem [u8], R>, (&a, asked, read)),
        call_requires(Peek::<'mem, 'facet>::into_list_like::<L>, (a, follow)),
        call_requires(Peek::<'mem, 'facet>::display::<S>, (&a, show)),
        call_requires(Peek::<'mem, 'facet>::debug::<S>, (&a, show)),
        call_requires(Peek::<'mem, 'facet>::variance, (&a,)),
        call_requires(Peek::<'mem, 'facet>::try_shrink_lifetime, (a,)),
        call_requires(Peek::<'mem, 'facet>::try_grow_lifetime, (a,)),
        call_requires(CovariantPeek::<'mem, 'facet>::new, (a,)),
{
}

/// Every value can be serialized, if `convert` can be called on any memory for any proxy, and
/// `release` on any memory.
pub proof fn every_value_can_be_serialized<
    'mem,
    'facet,
    C: FnOnce(&'static ProxyDef, PtrConst, PtrUninit) -> Result<PtrMut, String>,
    D: FnOnce(&'static Shape, PtrUninit),
>(
    value: Peek<'mem, 'facet>,
    field: Field,
    proxy: &'static ProxyDef,
    convert: C,
    release: D,
)
    requires
        forall|p: ProxyDef, d: PtrConst, t: PtrUninit| #[trigger]
            call_requires(convert, (&p, d, t)),
        forall|v: Shape, t: PtrUninit| #[trigger] call_requires(release, (&v, t)),
    ensures
        call_requires(
            Peek::<'mem, 'facet>::custom_serialization::<C, D>,
            (&value, field, convert, release),
        ),
        call_requires(
            Peek::<'mem, 'facet>::custom_serialization_from_shape::<C, D>,
            (&value, convert, release),
        ),
        call_requires(Peek::<'mem, 'facet>::begin_conversion, (&value, proxy)),
{
}

} // verus!
