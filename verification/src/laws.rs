//! What holds across the functions of this library.

use crate::access;
use crate::access::StrAccess;
use crate::covariant::CovariantPeek;
use crate::error::ReflectError;
use crate::inner;
use crate::kind::{TypeKind, Variance};
use crate::peek::{Peek, PeekView, ValueId};
use crate::serialize;
use crate::serialize::{Conversion, FailedConversion, OwnedPeek};
use crate::shape;
use crate::views;
use crate::views::{ListLikeAccess, ListLikeDef};
use core::cmp::Ordering;
use facet_core::{Field, ProxyDef, PtrConst, PtrMut, PtrUninit, Shape, SliceDef};
use vstd::prelude::*;
use vstd::std_specs::cmp::PartialEqSpec;

verus! {

/// The lifetime of a value can be shrunk or grown, never both, and neither if its type is
/// invariant. `shrunk` and `grown` are what `try_shrink_lifetime` and `try_grow_lifetime` return.
pub proof fn lifetime_changes_one_way<'mem, 'facet: 'shorter, 'shorter, 'longer: 'facet>(
    peek: Peek<'mem, 'facet>,
    shrunk: Option<Peek<'mem, 'shorter>>,
    grown: Option<Peek<'mem, 'longer>>,
)
    requires
        call_ensures(Peek::<'mem, 'facet>::try_shrink_lifetime, (peek,), shrunk),
        call_ensures(Peek::<'mem, 'facet>::try_grow_lifetime, (peek,), grown),
    ensures
        !(shrunk is Some && grown is Some),
        shape::variance_of(peek@.shape) == Variance::Invariant <==> shrunk is None && grown is None,
        shrunk matches Some(p) ==> p@ == peek@,
        grown matches Some(p) ==> p@ == peek@,
{
}

/// A view that is made covariant, and then a view again, is the view it was, and its lifetime can
/// be shrunk. `covariant`, `back` and `shrunk` are what `new`, `into_peek` and `try_shrink_lifetime`
/// return.
pub proof fn covariant_round_trip<'mem, 'facet: 'shorter, 'shorter>(
    peek: Peek<'mem, 'facet>,
    covariant: CovariantPeek<'mem, 'facet>,
    back: Peek<'mem, 'facet>,
    shrunk: Option<Peek<'mem, 'shorter>>,
)
    requires
        call_ensures(CovariantPeek::<'mem, 'facet>::new, (peek,), Some(covariant)),
        call_ensures(CovariantPeek::<'mem, 'facet>::into_peek, (covariant,), back),
        call_ensures(Peek::<'mem, 'facet>::try_shrink_lifetime, (back,), shrunk),
    ensures
        back@ == peek@,
        shape::is_valid(back@.shape),
        shrunk matches Some(p) && p@ == peek@,
{
}

/// To be of the same type is an equivalence, so whether two values can be compared does not depend
/// on their order.
pub proof fn same_type_is_equivalence(a: Peek<'_, '_>, b: Peek<'_, '_>, c: Peek<'_, '_>)
    ensures
        a.same_type(&a),
        a.same_type(&b) ==> b.same_type(&a),
        a.same_type(&b) && b.same_type(&c) ==> a.same_type(&c),
{
}

/// `eq` is true just where `partial_eq` gives `Ok(true)`, and `order` gives what `partial_cmp` gives,
/// or `None` for its error. `partial`, `equal`, `compared` and `ordered` are what the four return,
/// called with an `equality` and an `ordering` that answer the same whenever they are called on the
/// same values.
pub proof fn comparisons_agree<
    E: FnOnce(&'static Shape, PtrConst, PtrConst) -> Option<bool>,
    O: FnOnce(&'static Shape, PtrConst, PtrConst) -> Option<Option<Ordering>>,
>(
    a: Peek<'_, '_>,
    b: Peek<'_, '_>,
    equality: E,
    partial: Result<bool, ReflectError>,
    equal: bool,
    ordering: O,
    compared: Result<Option<Ordering>, ReflectError>,
    ordered: Option<Ordering>,
)
    requires
        forall|x: Option<bool>, y: Option<bool>| #[trigger]
            call_ensures(equality, (&a@.shape, a@.data, b@.data), x) && #[trigger] call_ensures(
                equality,
                (&a@.shape, a@.data, b@.data),
                y,
            ) ==> x == y,
        forall|x: Option<Option<Ordering>>, y: Option<Option<Ordering>>| #[trigger]
            call_ensures(ordering, (&a@.shape, a@.data, b@.data), x) && #[trigger] call_ensures(
                ordering,
                (&a@.shape, a@.data, b@.data),
                y,
            ) ==> x == y,
        call_ensures(
            Peek::<'_, '_>::partial_eq::<E>,
            (&a, &b, equality),
            partial,
        ),
        call_ensures(Peek::<'_, '_>::eq::<E>, (&a, &b, equality), equal),
        call_ensures(Peek::<'_, '_>::partial_cmp::<O>, (&a, &b, ordering), compared),
        call_ensures(Peek::<'_, '_>::order::<O>, (&a, &b, ordering), ordered),
    ensures
        equal == (partial == Ok::<bool, ReflectError>(true)),
        ordered == (match compared {
            Ok(o) => o,
            Err(_) => None,
        }),
{
}

/// Equality of identifiers is an equivalence.
pub proof fn value_id_is_equivalence(a: ValueId, b: ValueId, c: ValueId)
    ensures
        a.eq_spec(&a),
        a.eq_spec(&b) ==> b.eq_spec(&a),
        a.eq_spec(&b) && b.eq_spec(&c) ==> a.eq_spec(&c),
{
}

/// Two values have equal identifiers just if they are of the same type and pointer-equal, and
/// pointer equality is symmetric. `id_a` and `id_b` are what `id` returns of `a` and `b`, and
/// `pointer_equal` and `reversed` what `ptr_eq` returns of them in one order and the other, called
/// with an `address` that gives each pointer one address.
pub proof fn equal_ids_are_equal_places<A: Fn(PtrConst) -> usize>(
    address: A,
    a: Peek<'_, '_>,
    b: Peek<'_, '_>,
    id_a: ValueId,
    id_b: ValueId,
    pointer_equal: bool,
    reversed: bool,
)
    requires
        forall|data: PtrConst, x: usize, y: usize|
            #[trigger] call_ensures(address, (data,), x) && #[trigger] call_ensures(
                address,
                (data,),
                y,
            ) ==> x == y,
        call_ensures(Peek::<'_, '_>::id::<A>, (&a, address), id_a),
        call_ensures(Peek::<'_, '_>::id::<A>, (&b, address), id_b),
        call_ensures(Peek::<'_, '_>::ptr_eq::<A>, (&a, &b, address), pointer_equal),
        call_ensures(Peek::<'_, '_>::ptr_eq::<A>, (&b, &a, address), reversed),
    ensures
        id_a.eq_spec(&id_b) <==> a.same_type(&b) && pointer_equal,
        reversed == pointer_equal,
{
}

/// A value is at most one of these: map, set, list, array of several dimensions, pointer, option,
/// result, dynamic value.
pub proof fn definitions_are_exclusive(value: Peek<'_, '_>)
    ensures
        views::map_of(value) is Ok ==> !(views::set_of(value) is Ok || views::list_of(value) is Ok
            || views::ndarray_of(value) is Ok || views::pointer_of(value) is Ok || views::option_of(
            value,
        ) is Ok || views::result_of(value) is Ok || views::dynamic_value_of(value) is Ok),
        views::set_of(value) is Ok ==> !(views::list_of(value) is Ok || views::ndarray_of(
            value,
        ) is Ok || views::pointer_of(value) is Ok || views::option_of(value) is Ok
            || views::result_of(value) is Ok || views::dynamic_value_of(value) is Ok),
        views::list_of(value) is Ok ==> !(views::ndarray_of(value) is Ok || views::pointer_of(
            value,
        ) is Ok || views::option_of(value) is Ok || views::result_of(value) is Ok
            || views::dynamic_value_of(value) is Ok),
        views::ndarray_of(value) is Ok ==> !(views::pointer_of(value) is Ok || views::option_of(
            value,
        ) is Ok || views::result_of(value) is Ok || views::dynamic_value_of(value) is Ok),
        views::pointer_of(value) is Ok ==> !(views::option_of(value) is Ok || views::result_of(
            value,
        ) is Ok || views::dynamic_value_of(value) is Ok),
        views::option_of(value) is Ok ==> !(views::result_of(value) is Ok
            || views::dynamic_value_of(value) is Ok),
        views::result_of(value) is Ok ==> !(views::dynamic_value_of(value) is Ok),
{
}

/// A tuple is a struct, and a struct is not an enum.
pub proof fn tuples_are_structs(value: Peek<'_, '_>)
    ensures
        views::tuple_fields_of(shape::type_of(value@.shape)) is Some ==> views::struct_of(
            value,
        ) is Ok,
        views::struct_of(value) is Ok ==> views::enum_of(value) is Err,
{
}

/// A list is list-like, with the same operations. Something that is not a list, an array or a slice
/// is list-like only as a reference or raw pointer to a slice.
pub proof fn lists_are_list_like(value: Peek<'_, '_>)
    ensures
        views::list_of(value) matches Ok(list) ==> views::list_like_of(value@) == Ok::<
            ListLikeAccess,
            ReflectError,
        >(ListLikeAccess::Direct(ListLikeDef::List(list.def))),
        views::list_like_of(value@) matches Ok(ListLikeAccess::Behind(def)) ==> (shape::type_of(
            value@.shape,
        ) is Reference || shape::type_of(value@.shape) is Raw) && views::list_of(value) is Err,
        views::map_of(value) is Ok && !shape::type_of(value@.shape).points()
            ==> views::list_like_of(value@) is Err,
{
}

/// Text is read where the value is, and as the type that the shape describes: as `str` only where
/// the shape is that of `str`, as `String` only where it is that of `String`, and so on. A value
/// whose text cannot be read is none of these.
pub proof fn text_is_read_as_described(value: PeekView)
    ensures
        match access::text_access(value) {
            Some(StrAccess::Bare(data)) => data == value.data && access::is_str(value.shape),
            Some(StrAccess::Owned(data)) => data == value.data && access::is_string(value.shape),
            Some(StrAccess::Reference(data)) => data == value.data && access::is_str_reference(
                value.shape,
            ),
            Some(StrAccess::DoubleReference(data)) => data == value.data
                && access::is_str_double_reference(value.shape),
            None => !access::is_str(value.shape) && !access::is_string(value.shape)
                && !access::is_str_reference(value.shape) && !access::is_str_double_reference(
                value.shape,
            ),
        },
{
}

/// No type is two of `str`, `&str` and `&&str`, nor both `str` and `String`.
pub proof fn text_types_are_exclusive(shape: Shape)
    ensures
        !(access::is_str(shape) && access::is_str_reference(shape)),
        !(access::is_str(shape) && access::is_str_double_reference(shape)),
        !(access::is_str_reference(shape) && access::is_str_double_reference(shape)),
        !(access::is_str(shape) && access::is_string(shape)),
{
}

/// The shape of what is reached is that of the value with as many wrappers taken off.
pub proof fn lemma_shape_reached<
    B: Fn(&'static Shape, PtrConst) -> Option<Result<PtrMut, String>>,
>(borrow: B, from: PeekView, n: nat, to: PeekView)
    requires
        inner::reaches(borrow, from, n, to),
    ensures
        inner::inner_at(from.shape, n) == Some(to.shape),
    decreases n,
{
    if n > 0 {
        let wrapper = choose|wrapper: PeekView|
            inner::reaches(borrow, from, (n - 1) as nat, wrapper) && #[trigger] inner::steps_to(
                borrow,
                wrapper,
                to,
            );
        lemma_shape_reached(borrow, from, (n - 1) as nat, wrapper);
    }
}

/// What is reached from a value that was reached is reached from where that one was.
proof fn lemma_reached_onward<B: Fn(&'static Shape, PtrConst) -> Option<Result<PtrMut, String>>>(
    borrow: B,
    from: PeekView,
    m: nat,
    through: PeekView,
    n: nat,
    to: PeekView,
)
    requires
        inner::reaches(borrow, from, m, through),
        inner::reaches(borrow, through, n, to),
    ensures
        inner::reaches(borrow, from, m + n, to),
    decreases n,
{
    if n > 0 {
        let wrapper = choose|wrapper: PeekView|
            inner::reaches(borrow, through, (n - 1) as nat, wrapper) && #[trigger] inner::steps_to(
                borrow,
                wrapper,
                to,
            );
        lemma_reached_onward(borrow, from, m, through, (n - 1) as nat, wrapper);
        assert((m + n - 1) as nat == m + (n - 1) as nat);
    }
}

/// What is reached in some steps is reached by a first step and then the others.
proof fn lemma_first_step<B: Fn(&'static Shape, PtrConst) -> Option<Result<PtrMut, String>>>(
    borrow: B,
    from: PeekView,
    n: nat,
    to: PeekView,
) -> (next: PeekView)
    requires
        n > 0,
        inner::reaches(borrow, from, n, to),
    ensures
        inner::steps_to(borrow, from, next),
        inner::reaches(borrow, next, (n - 1) as nat, to),
    decreases n,
{
    let wrapper = choose|wrapper: PeekView|
        inner::reaches(borrow, from, (n - 1) as nat, wrapper) && #[trigger] inner::steps_to(
            borrow,
            wrapper,
            to,
        );
    if n == 1 {
        to
    } else {
        lemma_first_step(borrow, from, (n - 1) as nat, wrapper)
    }
}

/// What is reached from a shape that was led to is led to from where that one was.
proof fn lemma_led_onward(from: Shape, via: Shape, n: nat, to: Shape)
    requires
        shape::refers_to(from, via),
        shape::leads_to(via, n, to),
    ensures
        shape::leads_to(from, n + 1, to),
    decreases n,
{
    if n == 0 {
        assert(shape::leads_to(from, 0, from));
    } else {
        let last = choose|last: Shape|
            shape::leads_to(via, (n - 1) as nat, last) && #[trigger] shape::refers_to(last, to);
        lemma_led_onward(from, via, (n - 1) as nat, last);
    }
}

/// A shape that is valid throughout is valid, and each shape that it refers to is valid throughout.
pub proof fn validity_is_passed_on(from: Shape, to: Shape)
    requires
        shape::is_valid_throughout(from),
    ensures
        shape::is_valid(from),
        shape::refers_to(from, to) ==> shape::is_valid_throughout(to),
{
    assert(shape::leads_to(from, 0, from));
    if shape::refers_to(from, to) {
        assert forall|n: nat, last: Shape| #[trigger] shape::leads_to(to, n, last) implies
            shape::is_valid(last) by {
            lemma_led_onward(from, to, n, last);
        }
    }
}

/// What is reached of a value whose shape is valid throughout has such a shape too.
proof fn lemma_reached_is_valid<
    B: Fn(&'static Shape, PtrConst) -> Option<Result<PtrMut, String>>,
>(borrow: B, from: PeekView, n: nat, to: PeekView)
    requires
        shape::is_valid_throughout(from.shape),
        inner::reaches(borrow, from, n, to),
    ensures
        shape::is_valid_throughout(to.shape),
    decreases n,
{
    if n > 0 {
        let wrapper = choose|wrapper: PeekView|
            inner::reaches(borrow, from, (n - 1) as nat, wrapper) && #[trigger] inner::steps_to(
                borrow,
                wrapper,
                to,
            );
        lemma_reached_is_valid(borrow, from, (n - 1) as nat, wrapper);
        validity_is_passed_on(wrapper.shape, to.shape);
    }
}

/// The innermost value of a value whose shape is valid throughout can be asked for its variance and
/// its name as well.
pub proof fn innermost_is_valid<
    B: Fn(&'static Shape, PtrConst) -> Option<Result<PtrMut, String>>,
>(borrow: B, from: PeekView, to: PeekView)
    requires
        shape::is_valid_throughout(from.shape),
        inner::is_innermost(borrow, from, to),
    ensures
        shape::is_valid(to.shape),
        shape::is_valid_throughout(to.shape),
{
    let n = choose|n: nat| inner::reaches(borrow, from, n, to);
    lemma_reached_is_valid(borrow, from, n, to);
    validity_is_passed_on(to.shape, to.shape);
}

/// The items of a slice, behind a pointer or not, can be asked for their variance and their name if
/// the shape of the value is valid throughout.
pub proof fn items_are_valid(value: PeekView, def: SliceDef)
    requires
        shape::is_valid_throughout(value.shape),
        views::list_like_of(value) == Ok::<ListLikeAccess, ReflectError>(
            ListLikeAccess::Behind(def),
        ) || views::list_like_of(value) == Ok::<ListLikeAccess, ReflectError>(
            ListLikeAccess::Direct(ListLikeDef::Slice(def)),
        ),
    ensures
        shape::is_valid(*shape::element_of(def)),
        shape::is_valid_throughout(*shape::element_of(def)),
{
    let items = *shape::element_of(def);
    match shape::type_of(value.shape) {
        TypeKind::Reference(target) | TypeKind::Raw(target) => {
            validity_is_passed_on(value.shape, *target);
            validity_is_passed_on(*target, items);
        },
        _ => {},
    }
    validity_is_passed_on(value.shape, items);
    validity_is_passed_on(items, items);
}

/// A value that is serialized through the proxy of its type, or of a field of a struct, becomes one
/// that can be asked for its variance and its name, if the shape that names the proxy is valid
/// throughout.
pub proof fn proxies_are_valid(named_by: Shape, i: int, proxy: &'static ProxyDef)
    requires
        shape::is_valid_throughout(named_by),
        shape::proxy_of(named_by) == Some(proxy) || (shape::type_of(
            named_by,
        ) matches TypeKind::Struct(ty) && 0 <= i < shape::struct_fields_of(ty).len()
            && shape::field_proxy_of(shape::struct_fields_of(ty)[i]) == Some(proxy)),
    ensures
        shape::is_valid(*shape::proxy_shape_of(*proxy)),
        shape::is_valid_throughout(*shape::proxy_shape_of(*proxy)),
{
    let dst = *shape::proxy_shape_of(*proxy);
    validity_is_passed_on(named_by, dst);
    validity_is_passed_on(dst, dst);
}

/// The unwrapping of a value comes to an end if its type has finitely many wrappers, and if the
/// value does not lend what it wraps.
pub proof fn unwrapping_ends<
    B: Fn(&'static Shape, PtrConst) -> Option<Result<PtrMut, String>>,
>(borrow: B, value: PeekView, n: nat)
    ensures
        inner::inner_at(value.shape, n) is None ==> inner::ends_from(borrow, value),
        (forall|next: PeekView| !inner::steps_to(borrow, value, next)) ==> inner::ends_from(
            borrow,
            value,
        ),
{
    if inner::inner_at(value.shape, n) is None {
        assert forall|to: PeekView| !inner::reaches(borrow, value, n, to) by {
            if inner::reaches(borrow, value, n, to) {
                lemma_shape_reached(borrow, value, n, to);
            }
        }
        assert(inner::never_reached(borrow, value, n));
    }
    if forall|next: PeekView| !inner::steps_to(borrow, value, next) {
        assert forall|to: PeekView| !inner::reaches(borrow, value, 1, to) by {
            if inner::reaches(borrow, value, 1, to) {
                let next = lemma_first_step(borrow, value, 1, to);
            }
        }
        assert(inner::never_reached(borrow, value, 1));
    }
}

/// A value that wraps nothing is its own innermost value, and has no other.
pub proof fn unwrapped_is_innermost<
    B: Fn(&'static Shape, PtrConst) -> Option<Result<PtrMut, String>>,
>(borrow: B, value: PeekView, to: PeekView)
    requires
        shape::inner_of(value.shape) is None,
    ensures
        inner::is_innermost(borrow, value, to) <==> to == value,
{
    assert(inner::reaches(borrow, value, 0, value));
    if inner::is_innermost(borrow, value, to) {
        let n = choose|n: nat| inner::reaches(borrow, value, n, to);
        if n > 0 {
            let next = lemma_first_step(borrow, value, n, to);
        }
    }
}

/// `borrow` gives the same result whenever it is called on the same value.
pub open spec fn is_function<B: Fn(&'static Shape, PtrConst) -> Option<Result<PtrMut, String>>>(
    borrow: B,
) -> bool {
    forall|
        at: PeekView,
        x: Option<Result<PtrMut, String>>,
        y: Option<Result<PtrMut, String>>,
    |
        #[trigger] call_ensures(borrow, (&at.shape, at.data), x) && #[trigger] call_ensures(
            borrow,
            (&at.shape, at.data),
            y,
        ) ==> x == y
}

/// One step leads to one value.
proof fn lemma_step_is_unique<B: Fn(&'static Shape, PtrConst) -> Option<Result<PtrMut, String>>>(
    borrow: B,
    from: PeekView,
    a: PeekView,
    b: PeekView,
)
    requires
        is_function(borrow),
        inner::steps_to(borrow, from, a),
        inner::steps_to(borrow, from, b),
    ensures
        a == b,
{
    let x = choose|x: PtrMut|
        a.data == shape::const_of(x) && #[trigger] call_ensures(
            borrow,
            (&from.shape, from.data),
            Some(Ok(x)),
        );
    let y = choose|y: PtrMut|
        b.data == shape::const_of(y) && #[trigger] call_ensures(
            borrow,
            (&from.shape, from.data),
            Some(Ok(y)),
        );
    assert(Some(Ok::<PtrMut, String>(x)) == Some(Ok::<PtrMut, String>(y)));
}

/// As many steps lead to one value.
proof fn lemma_reached_is_unique<
    B: Fn(&'static Shape, PtrConst) -> Option<Result<PtrMut, String>>,
>(borrow: B, from: PeekView, n: nat, a: PeekView, b: PeekView)
    requires
        is_function(borrow),
        inner::reaches(borrow, from, n, a),
        inner::reaches(borrow, from, n, b),
    ensures
        a == b,
    decreases n,
{
    if n > 0 {
        let m = (n - 1) as nat;
        let v = choose|v: PeekView|
            inner::reaches(borrow, from, m, v) && #[trigger] inner::steps_to(borrow, v, a);
        let w = choose|w: PeekView|
            inner::reaches(borrow, from, m, w) && #[trigger] inner::steps_to(borrow, w, b);
        lemma_reached_is_unique(borrow, from, m, v, w);
        lemma_step_is_unique(borrow, v, a, b);
    }
}

/// What is reached in more steps is reached through a value at which there was a step to take.
proof fn lemma_reached_through<B: Fn(&'static Shape, PtrConst) -> Option<Result<PtrMut, String>>>(
    borrow: B,
    from: PeekView,
    m: nat,
    n: nat,
    to: PeekView,
) -> (through: (PeekView, PeekView))
    requires
        m < n,
        inner::reaches(borrow, from, n, to),
    ensures
        inner::reaches(borrow, from, m, through.0),
        inner::steps_to(borrow, through.0, through.1),
    decreases n,
{
    let wrapper = choose|wrapper: PeekView|
        inner::reaches(borrow, from, (n - 1) as nat, wrapper) && #[trigger] inner::steps_to(
            borrow,
            wrapper,
            to,
        );
    if m == n - 1 {
        (wrapper, to)
    } else {
        lemma_reached_through(borrow, from, m, (n - 1) as nat, wrapper)
    }
}

/// There is no step to take at a value where the unwrapping stops.
proof fn lemma_no_step<B: Fn(&'static Shape, PtrConst) -> Option<Result<PtrMut, String>>>(
    borrow: B,
    at: PeekView,
    to: PeekView,
)
    requires
        is_function(borrow),
        inner::stops_at(borrow, at),
    ensures
        !inner::steps_to(borrow, at, to),
{
    if inner::steps_to(borrow, at, to) {
        let x = choose|x: PtrMut|
            to.data == shape::const_of(x) && #[trigger] call_ensures(
                borrow,
                (&at.shape, at.data),
                Some(Ok(x)),
            );
        assert(call_ensures(borrow, (&at.shape, at.data), Some(Ok::<PtrMut, String>(x))));
        assert(call_ensures(borrow, (&at.shape, at.data), None::<Result<PtrMut, String>>));
        assert(Some(Ok::<PtrMut, String>(x)) == None::<Result<PtrMut, String>>);
    }
}

/// A value has one innermost value, if `borrow` lends the same whenever it is called on the same
/// value.
pub proof fn innermost_is_unique<
    B: Fn(&'static Shape, PtrConst) -> Option<Result<PtrMut, String>>,
>(borrow: B, from: PeekView, a: PeekView, b: PeekView)
    requires
        is_function(borrow),
        inner::is_innermost(borrow, from, a),
        inner::is_innermost(borrow, from, b),
    ensures
        a == b,
{
    let m = choose|m: nat| inner::reaches(borrow, from, m, a);
    let n = choose|n: nat| inner::reaches(borrow, from, n, b);
    if m < n {
        let (v, w) = lemma_reached_through(borrow, from, m, n, b);
        lemma_reached_is_unique(borrow, from, m, v, a);
        lemma_no_step(borrow, a, w);
    } else if n < m {
        let (v, w) = lemma_reached_through(borrow, from, n, m, a);
        lemma_reached_is_unique(borrow, from, n, v, b);
        lemma_no_step(borrow, b, w);
    } else {
        lemma_reached_is_unique(borrow, from, m, a, b);
    }
}

/// Unwrapping twice is unwrapping once: what is innermost of a value is its own innermost value, can
/// be unwrapped wherever the value could, and has no other innermost value if `borrow` lends the
/// same whenever it is called on the same value.
pub proof fn innermost_is_idempotent<
    B: Fn(&'static Shape, PtrConst) -> Option<Result<PtrMut, String>>,
>(borrow: B, from: PeekView, to: PeekView, again: PeekView)
    requires
        inner::is_innermost(borrow, from, to),
    ensures
        inner::is_innermost(borrow, to, to),
        inner::ends_from(borrow, from) ==> inner::ends_from(borrow, to),
        inner::borrows_from(borrow, from) ==> inner::borrows_from(borrow, to),
        is_function(borrow) && inner::is_innermost(borrow, to, again) ==> again == to,
{
    assert(inner::reaches(borrow, to, 0, to));
    let m = choose|m: nat| inner::reaches(borrow, from, m, to);
    if inner::ends_from(borrow, from) {
        let n = choose|n: nat| #[trigger] inner::never_reached(borrow, from, n);
        inner::lemma_never_reached(borrow, from, n, m + n);
        assert forall|at: PeekView| !inner::reaches(borrow, to, n, at) by {
            if inner::reaches(borrow, to, n, at) {
                lemma_reached_onward(borrow, from, m, to, n, at);
            }
        }
        assert(inner::never_reached(borrow, to, n));
    }
    if inner::borrows_from(borrow, from) {
        assert forall|n: nat, at: PeekView|
            #[trigger] inner::reaches(borrow, to, n, at) && shape::inner_of(
                at.shape,
            ) is Some implies inner::lends(borrow, at) by {
            lemma_reached_onward(borrow, from, m, to, n, at);
        }
    }
    if is_function(borrow) && inner::is_innermost(borrow, to, again) {
        innermost_is_unique(borrow, to, again, to);
    }
}

/// Unwrapping a value is taking one wrapper off and unwrapping the rest; and where there is none to
/// take off, the value is what is left. This is of a `borrow` that lends the same whenever it is
/// called on the same value.
pub proof fn innermost_step_by_step<
    B: Fn(&'static Shape, PtrConst) -> Option<Result<PtrMut, String>>,
>(borrow: B, from: PeekView, next: PeekView, to: PeekView)
    requires
        is_function(borrow),
    ensures
        inner::steps_to(borrow, from, next) ==> (inner::is_innermost(borrow, from, to)
            <==> inner::is_innermost(borrow, next, to)),
        inner::stops_at(borrow, from) ==> (inner::is_innermost(borrow, from, to) <==> to == from),
{
    assert(inner::reaches(borrow, from, 0, from));
    if inner::steps_to(borrow, from, next) {
        if inner::is_innermost(borrow, from, to) {
            let n = choose|n: nat| inner::reaches(borrow, from, n, to);
            if n == 0 {
                lemma_no_step(borrow, from, next);
            } else {
                let first = lemma_first_step(borrow, from, n, to);
                lemma_step_is_unique(borrow, from, first, next);
            }
        }
        if inner::is_innermost(borrow, next, to) {
            let n = choose|n: nat| inner::reaches(borrow, next, n, to);
            assert(inner::reaches(borrow, from, 1, next));
            lemma_reached_onward(borrow, from, 1, next, n, to);
        }
    }
    if inner::stops_at(borrow, from) && inner::is_innermost(borrow, from, to) {
        innermost_is_unique(borrow, from, to, from);
    }
}

/// `innermost_peek_within` finds the innermost value just where no more than `limit` wrappers are to
/// be taken off for it. `r` is what it returns, called with a `borrow` that lends the same whenever
/// it is called on the same value.
pub proof fn limit_is_exact<
    'mem,
    'facet,
    B: Fn(&'static Shape, PtrConst) -> Option<Result<PtrMut, String>>,
>(from: Peek<'mem, 'facet>, limit: usize, borrow: B, r: Option<Peek<'mem, 'facet>>)
    requires
        is_function(borrow),
        call_ensures(Peek::<'mem, 'facet>::innermost_peek_within::<B>, (from, limit, borrow), r),
    ensures
        r is Some <==> inner::never_reached(borrow, from@, (limit + 1) as nat),
        r matches Some(peek) ==> inner::is_innermost(borrow, from@, peek@),
{
    if let Some(peek) = r {
        let n = choose|n: nat| n <= limit && inner::reaches(borrow, from@, n, peek@);
        let more: nat = n + 1;
        assert forall|to: PeekView| !inner::reaches(borrow, from@, more, to) by {
            if inner::reaches(borrow, from@, more, to) {
                let (at, next) = lemma_reached_through(borrow, from@, n, more, to);
                lemma_reached_is_unique(borrow, from@, n, at, peek@);
                lemma_no_step(borrow, at, next);
            }
        }
        inner::lemma_never_reached(borrow, from@, more, (limit + 1) as nat);
    }
}

/// The text of a value is the text of its innermost value, for a `borrow` that lends the same
/// whenever it is called on the same value.
pub proof fn text_is_that_of_innermost<
    'mem,
    B: Fn(&'static Shape, PtrConst) -> Option<Result<PtrMut, String>>,
    F: FnOnce(StrAccess) -> &'mem str,
>(borrow: B, read: F, value: PeekView, to: PeekView, r: Option<&'mem str>)
    requires
        is_function(borrow),
        inner::is_innermost(borrow, value, to),
    ensures
        access::is_text(borrow, read, value, r) <==> access::is_text(borrow, read, to, r),
{
    innermost_is_idempotent(borrow, value, to, to);
    if access::is_text(borrow, read, value, r) {
        let at = choose|at: PeekView| #[trigger]
            inner::is_innermost(borrow, value, at) && match access::text_access(at) {
                Some(access) => r matches Some(text) && call_ensures(read, (access,), text),
                None => r is None,
            };
        innermost_is_unique(borrow, value, at, to);
    }
    if access::is_text(borrow, read, to, r) {
        let at = choose|at: PeekView| #[trigger]
            inner::is_innermost(borrow, to, at) && match access::text_access(at) {
                Some(access) => r matches Some(text) && call_ensures(read, (access,), text),
                None => r is None,
            };
        innermost_is_unique(borrow, to, at, to);
    }
}

/// Unwrapping stops for one of two reasons: at a value that wraps nothing, or at one that `borrow`
/// said does not lend what it wraps. `r` and `within` are what `innermost_peek` and
/// `innermost_peek_within` return.
pub proof fn unwrapping_stops_for_a_reason<
    'mem,
    'facet,
    B: Fn(&'static Shape, PtrConst) -> Option<Result<PtrMut, String>>,
>(
    from: Peek<'mem, 'facet>,
    borrow: B,
    r: Peek<'mem, 'facet>,
    limit: usize,
    within: Option<Peek<'mem, 'facet>>,
    at: PeekView,
)
    requires
        call_ensures(
            Peek::<'mem, 'facet>::innermost_peek_within::<B>,
            (from, limit, borrow),
            within,
        ),
    ensures
        call_ensures(Peek::<'mem, 'facet>::innermost_peek::<B>, (from, borrow), r)
            ==> shape::inner_of(r@.shape) is None || call_ensures(
            borrow,
            (&r@.shape, r@.data),
            None::<Result<PtrMut, String>>,
        ),
        within matches Some(p) ==> shape::inner_of(p@.shape) is None || call_ensures(
            borrow,
            (&p@.shape, p@.data),
            None::<Result<PtrMut, String>>,
        ),
        inner::is_innermost(borrow, from@, at) ==> shape::inner_of(at.shape) is None
            || call_ensures(borrow, (&at.shape, at.data), None::<Result<PtrMut, String>>),
{
}

/// Whatever a value lends is unwrapped in its place: the innermost value of a wrapper is that of the
/// value it lends, which has the shape that the wrapper wraps. `r` and `s` are what `innermost_peek`
/// returns of the wrapper `from` and of `next`, the value that it `lent`, with a `borrow` that lends
/// the same whenever it is called on the same value.
pub proof fn unwrapping_takes_off_what_is_lent<
    'mem,
    'facet,
    B: Fn(&'static Shape, PtrConst) -> Option<Result<PtrMut, String>>,
>(
    from: Peek<'mem, 'facet>,
    wrapped: &'static Shape,
    lent: PtrMut,
    next: Peek<'mem, 'facet>,
    borrow: B,
    r: Peek<'mem, 'facet>,
    s: Peek<'mem, 'facet>,
    at: PeekView,
)
    requires
        forall|
            v: Shape,
            d: PtrConst,
            x: Option<Result<PtrMut, String>>,
            y: Option<Result<PtrMut, String>>,
        |
            #[trigger] call_ensures(borrow, (&v, d), x) && #[trigger] call_ensures(
                borrow,
                (&v, d),
                y,
            ) ==> x == y,
        shape::inner_of(from@.shape) == Some(wrapped),
        call_ensures(
            borrow,
            (&from@.shape, from@.data),
            Some(Ok::<PtrMut, String>(lent)),
        ),
        next@.shape == *wrapped,
        next@.data == shape::const_of(lent),
        call_ensures(Peek::<'mem, 'facet>::innermost_peek::<B>, (from, borrow), r),
        call_ensures(Peek::<'mem, 'facet>::innermost_peek::<B>, (next, borrow), s),
    ensures
        r@.shape == s@.shape,
        r@.data == s@.data,
        inner::is_innermost(borrow, from@, at) <==> inner::is_innermost(borrow, next@, at),
{
    assert(is_function(borrow));
    assert(inner::steps_to(borrow, from@, next@));
    innermost_step_by_step(borrow, from@, next@, s@);
    innermost_step_by_step(borrow, from@, next@, at);
    innermost_is_unique(borrow, from@, r@, s@);
}

/// A value that wraps nothing, or does not lend what it wraps, is returned as it is, by
/// `innermost_peek` as `r` and by `innermost_peek_within` as `within`. This is of a `borrow` that
/// lends the same whenever it is called on the same value.
pub proof fn unwrapping_leaves_what_is_not_lent<
    'mem,
    'facet,
    B: Fn(&'static Shape, PtrConst) -> Option<Result<PtrMut, String>>,
>(
    from: Peek<'mem, 'facet>,
    borrow: B,
    r: Peek<'mem, 'facet>,
    limit: usize,
    within: Option<Peek<'mem, 'facet>>,
)
    requires
        forall|
            v: Shape,
            d: PtrConst,
            x: Option<Result<PtrMut, String>>,
            y: Option<Result<PtrMut, String>>,
        |
            #[trigger] call_ensures(borrow, (&v, d), x) && #[trigger] call_ensures(
                borrow,
                (&v, d),
                y,
            ) ==> x == y,
        shape::inner_of(from@.shape) is None || call_ensures(
            borrow,
            (&from@.shape, from@.data),
            None::<Result<PtrMut, String>>,
        ),
        call_ensures(Peek::<'mem, 'facet>::innermost_peek::<B>, (from, borrow), r),
        call_ensures(
            Peek::<'mem, 'facet>::innermost_peek_within::<B>,
            (from, limit, borrow),
            within,
        ),
    ensures
        r@.shape == from@.shape,
        r@.data == from@.data,
        within matches Some(p) && p@.shape == from@.shape && p@.data == from@.data,
{
    assert(is_function(borrow));
    assert(inner::stops_at(borrow, from@));
    innermost_step_by_step(borrow, from@, from@, r@);
    limit_is_exact(from, limit, borrow, within);
    match within {
        Some(p) => {
            innermost_step_by_step(borrow, from@, from@, p@);
        },
        None => {
            let taken = (limit + 1) as nat;
            let to = choose|to: PeekView| inner::reaches(borrow, from@, taken, to);
            let next = lemma_first_step(borrow, from@, taken, to);
            lemma_no_step(borrow, from@, next);
        },
    }
}

/// A limit counts the wrappers that are taken off: a wrapper that lends is too much for a limit of
/// none, and for any other limit it comes to the same as the value it lends with a limit of one
/// less. `r` and `s` are what `innermost_peek_within` returns of the wrapper `from` and of `next`,
/// the value that it `lent`, with a `borrow` that lends the same whenever it is called on the same
/// value.
pub proof fn limit_counts_what_is_taken_off<
    'mem,
    'facet,
    B: Fn(&'static Shape, PtrConst) -> Option<Result<PtrMut, String>>,
>(
    from: Peek<'mem, 'facet>,
    wrapped: &'static Shape,
    lent: PtrMut,
    next: Peek<'mem, 'facet>,
    borrow: B,
    limit: usize,
    r: Option<Peek<'mem, 'facet>>,
    less: usize,
    s: Option<Peek<'mem, 'facet>>,
)
    requires
        forall|
            v: Shape,
            d: PtrConst,
            x: Option<Result<PtrMut, String>>,
            y: Option<Result<PtrMut, String>>,
        |
            #[trigger] call_ensures(borrow, (&v, d), x) && #[trigger] call_ensures(
                borrow,
                (&v, d),
                y,
            ) ==> x == y,
        shape::inner_of(from@.shape) == Some(wrapped),
        call_ensures(
            borrow,
            (&from@.shape, from@.data),
            Some(Ok::<PtrMut, String>(lent)),
        ),
        next@.shape == *wrapped,
        next@.data == shape::const_of(lent),
        call_ensures(Peek::<'mem, 'facet>::innermost_peek_within::<B>, (from, limit, borrow), r),
        call_ensures(Peek::<'mem, 'facet>::innermost_peek_within::<B>, (next, less, borrow), s),
    ensures
        limit == 0 ==> r is None,
        limit == less + 1 ==> (r is Some <==> s is Some),
        limit == less + 1 ==> (r matches Some(p) ==> (s matches Some(q) && p@.shape == q@.shape
            && p@.data == q@.data)),
{
    assert(is_function(borrow));
    assert(inner::steps_to(borrow, from@, next@));
    limit_is_exact(from, limit, borrow, r);
    limit_is_exact(next, less, borrow, s);
    assert(inner::reaches(borrow, from@, 0, from@));
    assert(inner::reaches(borrow, from@, 1, next@));
    if limit == less + 1 {
        let taken = (limit + 1) as nat;
        let rest = (less + 1) as nat;
        if !inner::never_reached(borrow, from@, taken) {
            let to = choose|to: PeekView| inner::reaches(borrow, from@, taken, to);
            let first = lemma_first_step(borrow, from@, taken, to);
            lemma_step_is_unique(borrow, from@, first, next@);
            assert(inner::reaches(borrow, next@, rest, to));
        }
        if !inner::never_reached(borrow, next@, rest) {
            let to = choose|to: PeekView| inner::reaches(borrow, next@, rest, to);
            lemma_reached_onward(borrow, from@, 1, next@, rest, to);
            assert(inner::reaches(borrow, from@, taken, to));
        }
        if let (Some(p), Some(q)) = (r, s) {
            innermost_step_by_step(borrow, from@, next@, q@);
            innermost_is_unique(borrow, from@, p@, q@);
        }
    }
}

/// The text of a value is what `read` reads of its innermost value, in the way in which that one's
/// text is to be read, and there is none where that one has none. `to` is what `innermost_peek`
/// returns of the value, and `access` what `str_access` returns of `to`, with a `borrow` that lends
/// the same whenever it is called on the same value.
pub proof fn text_is_read_of_the_innermost<
    'mem,
    'facet,
    B: Fn(&'static Shape, PtrConst) -> Option<Result<PtrMut, String>>,
    F: FnOnce(StrAccess) -> &'mem str,
>(
    from: Peek<'mem, 'facet>,
    borrow: B,
    read: F,
    to: Peek<'mem, 'facet>,
    access: Option<StrAccess>,
    r: Option<&'mem str>,
)
    requires
        forall|
            v: Shape,
            d: PtrConst,
            x: Option<Result<PtrMut, String>>,
            y: Option<Result<PtrMut, String>>,
        |
            #[trigger] call_ensures(borrow, (&v, d), x) && #[trigger] call_ensures(
                borrow,
                (&v, d),
                y,
            ) ==> x == y,
        call_ensures(Peek::<'mem, 'facet>::innermost_peek::<B>, (from, borrow), to),
        call_ensures(Peek::<'mem, 'facet>::str_access, (&to,), access),
        call_ensures(Peek::<'mem, 'facet>::as_str::<B, F>, (&from, borrow, read), r),
    ensures
        access is None ==> r is None,
        access matches Some(a) ==> (r matches Some(text) && call_ensures(read, (a,), text)),
{
    assert(is_function(borrow));
    let at = choose|at: PeekView| #[trigger]
        inner::is_innermost(borrow, from@, at) && match access::text_access(at) {
            Some(a) => r matches Some(text) && call_ensures(read, (a,), text),
            None => r is None,
        };
    innermost_is_unique(borrow, from@, at, to@);
}

/// Every value can be unwrapped up to a limit, and without one if its type has fewer than `n`
/// wrappers, by a `borrow` that can be called on every value and does not fail.
pub proof fn every_value_can_be_unwrapped<
    'mem,
    'facet,
    B: Fn(&'static Shape, PtrConst) -> Option<Result<PtrMut, String>>,
>(value: Peek<'mem, 'facet>, n: nat, limit: usize, borrow: B)
    requires
        forall|v: Shape, d: PtrConst| #[trigger] call_requires(borrow, (&v, d)),
        forall|v: Shape, d: PtrConst, message: String|
            !#[trigger] call_ensures(borrow, (&v, d), Some(Err::<PtrMut, String>(message))),
    ensures
        call_requires(
            Peek::<'mem, 'facet>::innermost_peek_within::<B>,
            (value, limit, borrow),
        ),
        inner::inner_at(value@.shape, n) is None ==> call_requires(
            Peek::<'mem, 'facet>::innermost_peek::<B>,
            (value, borrow),
        ),
{
    unwrapping_ends(borrow, value@, n);
    assert(inner::borrows_from(borrow, value@));
}

/// The memory of a conversion was allocated for the proxy, and has one owner when the conversion
/// ends: the value that is returned lies in it, or the failure hands it back. `r` is what `finish`
/// returns.
pub proof fn memory_has_one_owner<'mem>(
    conversion: Conversion,
    outcome: Result<PtrMut, String>,
    mismatch: &'static str,
    r: Result<OwnedPeek<'mem>, FailedConversion>,
)
    requires
        call_ensures(Conversion::finish, (conversion, outcome, mismatch), r),
    ensures
        serialize::is_allocated(conversion@.target_shape(), conversion@.target),
        match r {
            Ok(owned) => shape::place_of(shape::uninit_of(owned@.data)) == shape::place_of(
                conversion@.target,
            ) && owned@.shape == conversion@.target_shape(),
            Err(failed) => failed.target == conversion@.target && *failed.target_shape
                == conversion@.target_shape(),
        },
        r is Ok <==> serialize::fills(outcome, conversion@.target),
{
}

/// A value that is serialized through a proxy becomes a value of the shape of that proxy, whose
/// size is known; and a conversion that reports an error makes no value.
pub proof fn serialized_as_proxy<
    'mem,
    C: FnOnce(&'static ProxyDef, PtrConst, PtrUninit) -> Result<PtrMut, String>,
    D: FnOnce(&'static Shape, PtrUninit),
>(
    convert: C,
    release: D,
    value: PeekView,
    proxy: ProxyDef,
    mismatch: &'static str,
    r: Result<OwnedPeek<'mem>, ReflectError>,
)
    requires
        serialize::serializes_through(convert, release, value, proxy, mismatch, r),
    ensures
        r matches Ok(owned) ==> owned@.shape == *shape::proxy_shape_of(proxy) && shape::is_sized(
            owned@.shape,
        ),
        (forall|target: PtrUninit, data: PtrMut|
            !#[trigger] call_ensures(convert, (&proxy, value.data, target), Ok::<PtrMut, String>(data)))
            ==> r is Err,
{
    if r is Ok {
        assert(shape::is_sized(*shape::proxy_shape_of(proxy)));
        let (target, outcome) = choose|target: PtrUninit, outcome: Result<PtrMut, String>|
            #[trigger]
            call_ensures(convert, (&proxy, value.data, target), outcome) && serialize::fills(
                outcome,
                target,
            );
        assert(outcome == Ok::<PtrMut, String>(outcome->Ok_0));
        assert(call_ensures(
            convert,
            (&proxy, value.data, target),
            Ok::<PtrMut, String>(outcome->Ok_0),
        ));
    }
}

/// What `convert` does does not depend on which memory was allocated for the proxy: it fails on all
/// of it, and with one message, or on none, and fills all of it that it claims to, or none.
pub open spec fn converts_alike<
    C: FnOnce(&'static ProxyDef, PtrConst, PtrUninit) -> Result<PtrMut, String>,
>(convert: C, value: PeekView, proxy: ProxyDef) -> bool {
    let dst = *shape::proxy_shape_of(proxy);
    forall|s: PtrUninit, t: PtrUninit, x: Result<PtrMut, String>, y: Result<PtrMut, String>|
        #[trigger] call_ensures(convert, (&proxy, value.data, s), x) && #[trigger] call_ensures(
            convert,
            (&proxy, value.data, t),
            y,
        ) && serialize::is_allocated(dst, s) && serialize::is_allocated(dst, t) ==> {
            &&& x is Err <==> y is Err
            &&& x is Err ==> x->Err_0@ == y->Err_0@
            &&& serialize::fills(x, s) <==> serialize::fills(y, t)
        }
}

/// No memory is left behind: what was allocated for the shape was released.
pub open spec fn released_what_was_allocated<D: FnOnce(&'static Shape, PtrUninit)>(
    release: D,
    dst: Shape,
) -> bool {
    exists|target: PtrUninit| #[trigger]
        serialize::is_allocated(dst, target) && call_ensures(release, (&dst, target), ())
}

/// Both errors are for a conversion from `src` to `dst` that failed, with one message, or with that
/// of a field and that of a type for a conversion that filled other memory.
pub open spec fn fail_alike(
    by_field: ReflectError,
    by_type: ReflectError,
    src: Shape,
    dst: Shape,
) -> bool {
    ||| exists|message: Seq<char>| #[trigger]
        serialize::is_conversion_error(by_field, message, src, dst)
            && serialize::is_conversion_error(by_type, message, src, dst)
    ||| serialize::is_conversion_error(
        by_field,
        "convert_out did not return the expected pointer"@,
        src,
        dst,
    ) && serialize::is_conversion_error(
        by_type,
        "proxy convert_out did not return the expected pointer"@,
        src,
        dst,
    )
}

/// What `convert` was called on and returned, for a proxy whose size is known.
proof fn lemma_converted<
    'mem,
    C: FnOnce(&'static ProxyDef, PtrConst, PtrUninit) -> Result<PtrMut, String>,
    D: FnOnce(&'static Shape, PtrUninit),
>(
    convert: C,
    release: D,
    value: PeekView,
    proxy: ProxyDef,
    mismatch: &'static str,
    r: Result<OwnedPeek<'mem>, ReflectError>,
) -> (call: (PtrUninit, Result<PtrMut, String>))
    requires
        serialize::serializes_through(convert, release, value, proxy, mismatch, r),
        shape::is_sized(*shape::proxy_shape_of(proxy)),
    ensures
        call_ensures(convert, (&proxy, value.data, call.0), call.1),
        serialize::is_allocated(*shape::proxy_shape_of(proxy), call.0),
        r is Ok <==> serialize::fills(call.1, call.0),
        r matches Ok(owned) ==> owned@.shape == *shape::proxy_shape_of(proxy),
        r matches Err(e) ==> serialize::is_conversion_error(
            e,
            serialize::failure_message(call.1, mismatch),
            value.shape,
            *shape::proxy_shape_of(proxy),
        ) && call_ensures(release, (shape::proxy_shape_of(proxy), call.0), ()),
{
    let dst = *shape::proxy_shape_of(proxy);
    choose|target: PtrUninit, outcome: Result<PtrMut, String>| #[trigger]
        call_ensures(convert, (&proxy, value.data, target), outcome) && serialize::is_allocated(
            dst,
            target,
        ) && if serialize::fills(outcome, target) {
            r matches Ok(owned) && owned@ == serialize::OwnedPeekView {
                data: outcome->Ok_0,
                shape: dst,
            }
        } else {
            r matches Err(e) && serialize::is_conversion_error(
                e,
                serialize::failure_message(outcome, mismatch),
                value.shape,
                dst,
            ) && call_ensures(release, (&dst, target), ())
        }
}

/// Serializing through a proxy comes to the same whether a field or the type names it: both succeed,
/// with a value of the shape of the proxy, or both fail, and then for the same reason and with the
/// memory that was allocated released. Only the message for a conversion that claims success and
/// filled other memory differs. `by_field` and `by_type` are what `custom_serialization` and
/// `custom_serialization_from_shape` return.
pub proof fn serializations_agree<
    'mem,
    'facet,
    C: FnOnce(&'static ProxyDef, PtrConst, PtrUninit) -> Result<PtrMut, String>,
    D: FnOnce(&'static Shape, PtrUninit),
>(
    value: Peek<'mem, 'facet>,
    field: Field,
    proxy: &'static ProxyDef,
    convert: C,
    release: D,
    by_field: Result<OwnedPeek<'mem>, ReflectError>,
    by_type: Result<Option<OwnedPeek<'mem>>, ReflectError>,
)
    requires
        shape::field_proxy_of(field) == Some(proxy),
        shape::proxy_of(value@.shape) == Some(proxy),
        converts_alike(convert, value@, *proxy),
        call_ensures(
            Peek::<'mem, 'facet>::custom_serialization::<C, D>,
            (&value, field, convert, release),
            by_field,
        ),
        call_ensures(
            Peek::<'mem, 'facet>::custom_serialization_from_shape::<C, D>,
            (&value, convert, release),
            by_type,
        ),
    ensures
        by_field is Ok <==> by_type is Ok,
        by_field matches Ok(owned) ==> owned@.shape == *shape::proxy_shape_of(*proxy),
        by_type matches Ok(o) ==> (o matches Some(owned) && owned@.shape == *shape::proxy_shape_of(
            *proxy,
        )),
        !shape::is_sized(*shape::proxy_shape_of(*proxy)) ==> by_field is Err
            && by_field->Err_0 == serialize::unsized_proxy(*shape::proxy_shape_of(*proxy))
            && by_type->Err_0 == by_field->Err_0,
        shape::is_sized(*shape::proxy_shape_of(*proxy)) && by_field is Err ==> fail_alike(
            by_field->Err_0,
            by_type->Err_0,
            value@.shape,
            *shape::proxy_shape_of(*proxy),
        ) && released_what_was_allocated(release, *shape::proxy_shape_of(*proxy)),
{
    let dst = *shape::proxy_shape_of(*proxy);
    let mismatch = "proxy convert_out did not return the expected pointer";
    let through = choose|through: Result<OwnedPeek<'mem>, ReflectError>| #[trigger]
        serialize::serializes_through(convert, release, value@, *proxy, mismatch, through)
            && match through {
            Ok(owned) => by_type == Ok::<_, ReflectError>(Some(owned)),
            Err(e) => by_type == Err::<Option<OwnedPeek<'mem>>, ReflectError>(e),
        };
    if shape::is_sized(dst) {
        let (s, x) = lemma_converted(
            convert,
            release,
            value@,
            *proxy,
            "convert_out did not return the expected pointer",
            by_field,
        );
        let (t, y) = lemma_converted(convert, release, value@, *proxy, mismatch, through);
        assert(serialize::fills(x, s) <==> serialize::fills(y, t));
        assert(serialize::is_allocated(dst, s));
        if by_field is Err && x is Err {
            assert(serialize::is_conversion_error(
                by_field->Err_0,
                x->Err_0@,
                value@.shape,
                dst,
            ));
        }
    }
}

} // verus!
