//! The engine's laws, stated and proved once for all inputs.
//!
//! Each law is a public proof over the specification evaluators that the
//! executable engine is proved to agree with on host-free validators, or a
//! direct consequence of a public contract named in its documentation.

use vstd::prelude::*;

use crate::errors::ErrCtxV;
use crate::errors::ErrorV;
use crate::member::Member;
use crate::member::psb_view;
use crate::member::read_spec;
use crate::member::write_spec;
use crate::validators::TypeValidatorV;
use crate::validators::ValidatorV;
use crate::validators::union_spec;
use crate::validators::validate_each_spec;
use crate::validators::validate_items_spec;
use crate::validators::validate_spec;
use crate::validators::validate_type_spec;
use crate::value::ValueV;

verus! {

/// Whether a type contract is one of the primitive kinds.
pub open spec fn is_primitive(t: TypeValidatorV) -> bool {
    ||| t is NoneType
    ||| t is Bool
    ||| t is Int
    ||| t is Float
    ||| t is Str
    ||| t is Bytes
}

/// For every primitive type contract, validation is idempotent: whenever a
/// value passes, validating the result again returns it unchanged.
pub proof fn lemma_primitive_validate_idempotent(
    t: TypeValidatorV,
    x: ValueV,
    ctx: Option<ErrCtxV>,
)
    requires
        is_primitive(t),
        validate_type_spec(t, x, ctx) is Ok,
    ensures
        validate_type_spec(t, x, ctx) == Ok::<ValueV, ErrorV>(x),
        validate_type_spec(t, validate_type_spec(t, x, ctx)->Ok_0, ctx) == validate_type_spec(
            t,
            x,
            ctx,
        ),
{
}

/// Homogeneous element validation returns the elements unchanged when every
/// element already validates to itself.
proof fn lemma_each_identity(it: ValidatorV, xs: Seq<ValueV>, i: int, ctx: Option<ErrCtxV>)
    requires
        0 <= i <= xs.len(),
        forall|q: int|
            0 <= q < xs.len() ==> validate_spec(it, #[trigger] xs[q], ctx) == Ok::<ValueV, ErrorV>(
                xs[q],
            ),
    ensures
        validate_each_spec(it, xs, i, ctx) == Ok::<Seq<ValueV>, ErrorV>(xs.skip(i)),
    decreases xs.len() - i,
{
    if i == xs.len() {
        assert(xs.skip(i) =~= Seq::<ValueV>::empty());
    } else {
        lemma_each_identity(it, xs, i + 1, ctx);
        assert(seq![xs[i]] + xs.skip(i + 1) =~= xs.skip(i));
    }
}

/// Positional element validation returns the elements unchanged when every
/// position already validates to itself.
proof fn lemma_items_identity(
    items: Seq<ValidatorV>,
    xs: Seq<ValueV>,
    i: int,
    ctx: Option<ErrCtxV>,
)
    requires
        0 <= i <= items.len(),
        items.len() == xs.len(),
        forall|q: int|
            0 <= q < xs.len() ==> validate_spec(items[q], #[trigger] xs[q], ctx) == Ok::<
                ValueV,
                ErrorV,
            >(xs[q]),
    ensures
        validate_items_spec(items, xs, i, ctx) == Ok::<Seq<ValueV>, ErrorV>(xs.skip(i)),
    decreases items.len() - i,
{
    if i == items.len() {
        assert(xs.skip(i) =~= Seq::<ValueV>::empty());
    } else {
        lemma_items_identity(items, xs, i + 1, ctx);
        assert(seq![xs[i]] + xs.skip(i + 1) =~= xs.skip(i));
    }
}

/// Identity fast path of a fixed tuple: when every position validates its
/// element to itself, the tuple passes through unchanged.
pub proof fn lemma_tuple_identity(
    items: Seq<ValidatorV>,
    xs: Seq<ValueV>,
    ctx: Option<ErrCtxV>,
)
    requires
        items.len() == xs.len(),
        forall|q: int|
            0 <= q < xs.len() ==> validate_spec(items[q], #[trigger] xs[q], ctx) == Ok::<
                ValueV,
                ErrorV,
            >(xs[q]),
    ensures
        validate_type_spec(TypeValidatorV::Tuple { items }, ValueV::Tuple(xs), ctx) == Ok::<
            ValueV,
            ErrorV,
        >(ValueV::Tuple(xs)),
{
    lemma_items_identity(items, xs, 0, ctx);
    assert(xs.skip(0) =~= xs);
}

/// Identity fast path of the homogeneous containers: when every element
/// validates to itself, the container passes through unchanged.
pub proof fn lemma_container_identity(
    it: ValidatorV,
    xs: Seq<ValueV>,
    ctx: Option<ErrCtxV>,
)
    requires
        forall|q: int|
            0 <= q < xs.len() ==> validate_spec(it, #[trigger] xs[q], ctx) == Ok::<ValueV, ErrorV>(
                xs[q],
            ),
    ensures
        validate_type_spec(
            TypeValidatorV::VarTuple { item: Some(Box::new(it)) },
            ValueV::Tuple(xs),
            ctx,
        ) == Ok::<ValueV, ErrorV>(ValueV::Tuple(xs)),
        validate_type_spec(
            TypeValidatorV::FrozenSet { item: Some(Box::new(it)) },
            ValueV::FrozenSet(xs),
            ctx,
        ) == Ok::<ValueV, ErrorV>(ValueV::FrozenSet(xs)),
        validate_type_spec(
            TypeValidatorV::MutableSet { item: Some(Box::new(it)) },
            ValueV::MutableSet(xs),
            ctx,
        ) == Ok::<ValueV, ErrorV>(ValueV::MutableSet(xs)),
{
    lemma_each_identity(it, xs, 0, ctx);
    assert(xs.skip(0) =~= xs);
}

/// Alternation order matters, first half: when the members up to some
/// position all reject a value and that position accepts it, the alternation
/// returns that member's result — the semantics of the first accepting
/// member apply, not a later one's.
pub proof fn lemma_union_first_success(
    members: Seq<ValidatorV>,
    x: ValueV,
    ctx: Option<ErrCtxV>,
    n: int,
    w: ValueV,
)
    requires
        0 <= n < members.len(),
        forall|q: int| 0 <= q < n ==> validate_spec(#[trigger] members[q], x, ctx) is Err,
        validate_spec(members[n], x, ctx) == Ok::<ValueV, ErrorV>(w),
    ensures
        validate_type_spec(TypeValidatorV::Union { members }, x, ctx) == Ok::<ValueV, ErrorV>(w),
{
    lemma_union_first_success_from(members, x, ctx, 0, n, w);
}

proof fn lemma_union_first_success_from(
    members: Seq<ValidatorV>,
    x: ValueV,
    ctx: Option<ErrCtxV>,
    i: int,
    n: int,
    w: ValueV,
)
    requires
        0 <= i <= n < members.len(),
        forall|q: int| 0 <= q < n ==> validate_spec(#[trigger] members[q], x, ctx) is Err,
        validate_spec(members[n], x, ctx) == Ok::<ValueV, ErrorV>(w),
    ensures
        union_spec(members, x, i, ctx) == Ok::<ValueV, Seq<ErrorV>>(w),
    decreases n - i,
{
    if i < n {
        lemma_union_first_success_from(members, x, ctx, i + 1, n, w);
    }
}

/// Alternation order matters, second half: when every member rejects a
/// value, the alternation's report aggregates every member's reason, in
/// declaration order — each is reachable from the result.
pub proof fn lemma_union_all_fail(members: Seq<ValidatorV>, x: ValueV, ctx: Option<ErrCtxV>)
    requires
        forall|q: int|
            0 <= q < members.len() ==> validate_spec(#[trigger] members[q], x, ctx) is Err,
    ensures
        ({
            let r = validate_type_spec(TypeValidatorV::Union { members }, x, ctx);
            &&& r matches Err(e)
            &&& e matches ErrorV::UnionMismatch { causes, ctx: c }
            &&& c == ctx
            &&& causes.len() == members.len()
            &&& forall|q: int|
                0 <= q < members.len() ==> #[trigger] causes[q] == validate_spec(
                    members[q],
                    x,
                    ctx,
                )->Err_0
        }),
{
    lemma_union_all_fail_from(members, x, ctx, 0);
    let es = union_spec(members, x, 0, ctx)->Err_0;
    assert(validate_type_spec(TypeValidatorV::Union { members }, x, ctx) == Err::<ValueV, ErrorV>(
        ErrorV::UnionMismatch { causes: es, ctx },
    ));
}

proof fn lemma_union_all_fail_from(members: Seq<ValidatorV>, x: ValueV, ctx: Option<ErrCtxV>, i: int)
    requires
        0 <= i <= members.len(),
        forall|q: int|
            0 <= q < members.len() ==> validate_spec(#[trigger] members[q], x, ctx) is Err,
    ensures
        ({
            let r = union_spec(members, x, i, ctx);
            &&& r matches Err(es)
            &&& es.len() == members.len() - i
            &&& forall|q: int|
                0 <= q < es.len() ==> #[trigger] es[q] == validate_spec(members[i + q], x, ctx)->Err_0
        }),
    decreases members.len() - i,
{
    if i >= members.len() {
    } else {
        lemma_union_all_fail_from(members, x, ctx, i + 1);
        let tail = union_spec(members, x, i + 1, ctx)->Err_0;
        let e = validate_spec(members[i], x, ctx)->Err_0;
        assert forall|q: int| 0 <= q < (seq![e] + tail).len() implies #[trigger] (seq![e]
            + tail)[q] == validate_spec(members[i + q], x, ctx)->Err_0 by {
            if q > 0 {
                assert(tail[q - 1] == validate_spec(members[i + q], x, ctx)->Err_0);
            }
        }
    }
}

/// A fixed tuple rejects a tuple of the wrong arity outright, citing both
/// the required and the actual length.
pub proof fn lemma_tuple_wrong_arity(
    items: Seq<ValidatorV>,
    xs: Seq<ValueV>,
    ctx: Option<ErrCtxV>,
)
    requires
        xs.len() != items.len(),
    ensures
        validate_type_spec(TypeValidatorV::Tuple { items }, ValueV::Tuple(xs), ctx) == Err::<
            ValueV,
            ErrorV,
        >(
            ErrorV::WrongArity {
                expected: items.len() as int,
                actual: xs.len() as int,
                ctx,
            },
        ),
{
}

/// A fixed tuple of the right arity validates positionally and fails at the
/// first invalid position, reporting that position and its reason.
pub proof fn lemma_tuple_first_failure(
    items: Seq<ValidatorV>,
    xs: Seq<ValueV>,
    ctx: Option<ErrCtxV>,
    n: int,
    e: ErrorV,
)
    requires
        items.len() == xs.len(),
        0 <= n < items.len(),
        forall|q: int|
            0 <= q < n ==> validate_spec(#[trigger] items[q], xs[q], ctx) is Ok,
        validate_spec(items[n], xs[n], ctx) == Err::<ValueV, ErrorV>(e),
    ensures
        validate_type_spec(TypeValidatorV::Tuple { items }, ValueV::Tuple(xs), ctx) == Err::<
            ValueV,
            ErrorV,
        >(ErrorV::ItemInvalid { index: n, cause: Box::new(e), ctx }),
{
    lemma_tuple_first_failure_from(items, xs, ctx, 0, n, e);
}

proof fn lemma_tuple_first_failure_from(
    items: Seq<ValidatorV>,
    xs: Seq<ValueV>,
    ctx: Option<ErrCtxV>,
    i: int,
    n: int,
    e: ErrorV,
)
    requires
        items.len() == xs.len(),
        0 <= i <= n < items.len(),
        forall|q: int|
            0 <= q < n ==> validate_spec(#[trigger] items[q], xs[q], ctx) is Ok,
        validate_spec(items[n], xs[n], ctx) == Err::<ValueV, ErrorV>(e),
    ensures
        validate_items_spec(items, xs, i, ctx) == Err::<Seq<ValueV>, ErrorV>(
            ErrorV::ItemInvalid { index: n, cause: Box::new(e), ctx },
        ),
    decreases n - i,
{
    if i < n {
        lemma_tuple_first_failure_from(items, xs, ctx, i + 1, n, e);
    }
}

/// Reading an unset slot of a member with no default always fails, naming
/// the attribute and its owner.
pub proof fn lemma_read_no_default(m: Member, slots: Seq<Option<ValueV>>, owner: Seq<char>)
    requires
        0 <= (m.slot_index as int) && (m.slot_index as int) < slots.len(),
        slots[m.slot_index as int] is None,
        m.default is NoDefault,
    ensures
        read_spec(m, slots, owner) == (
            (
                Err::<ValueV, ErrorV>(
                    ErrorV::MissingValue { ctx: ErrCtxV { member: m.name@, owner } },
                ),
                slots,
            )
        ),
{
}

/// Once a read has materialized and stored a default, every further read
/// returns that same value and changes nothing: the default strategy is not
/// consulted again.
pub proof fn lemma_read_stable_after_default(
    m: Member,
    slots: Seq<Option<ValueV>>,
    owner: Seq<char>,
)
    requires
        0 <= (m.slot_index as int) && (m.slot_index as int) < slots.len(),
        read_spec(m, slots, owner).0 is Ok,
    ensures
        ({
            let (first, stored) = read_spec(m, slots, owner);
            let (second, stored2) = read_spec(m, stored, owner);
            &&& second == first
            &&& stored2 == stored
        }),
{
    let (first, stored) = read_spec(m, slots, owner);
    if slots[m.slot_index as int] is Some {
    } else {
        assert(stored[m.slot_index as int] == Some(first->Ok_0));
    }
}

/// The first write through a read-only member's unset slot stores the
/// validated value; every later write is rejected and changes nothing, even
/// after a rejected delete, since a rejected delete leaves the slot set.
pub proof fn lemma_read_only_write_once(
    m: Member,
    slots: Seq<Option<ValueV>>,
    owner: Seq<char>,
    x: ValueV,
    y: ValueV,
)
    requires
        0 <= (m.slot_index as int) && (m.slot_index as int) < slots.len(),
        psb_view(m.pre_setattr) is ReadOnly,
        slots[m.slot_index as int] is None,
        validate_spec(
            validator_view_of(m),
            x,
            Some(ErrCtxV { member: m.name@, owner }),
        ) is Ok,
    ensures
        ({
            let (first, stored) = write_spec(m, false, slots, owner, x);
            let (second, stored2) = write_spec(m, false, stored, owner, y);
            &&& first is Ok
            &&& stored[m.slot_index as int] is Some
            &&& second == Err::<(), ErrorV>(
                ErrorV::ReadOnlyMember {
                    ctx: Some(ErrCtxV { member: m.name@, owner }),
                },
            )
            &&& stored2 == stored
        }),
{
}

/// The validation policy of a member, as its view.
pub open spec fn validator_view_of(m: Member) -> ValidatorV {
    crate::validators::validator_view(m.validator)
}


/// Identity fast path of a keyed mapping: when every key and every value
/// validates to itself, the mapping passes through unchanged.
pub proof fn lemma_dict_identity(
    kv: ValidatorV,
    vv: ValidatorV,
    xs: Seq<(ValueV, ValueV)>,
    ctx: Option<ErrCtxV>,
)
    requires
        forall|q: int|
            0 <= q < xs.len() ==> validate_spec(kv, (#[trigger] xs[q]).0, ctx) == Ok::<
                ValueV,
                ErrorV,
            >(xs[q].0),
        forall|q: int|
            0 <= q < xs.len() ==> validate_spec(vv, (#[trigger] xs[q]).1, ctx) == Ok::<
                ValueV,
                ErrorV,
            >(xs[q].1),
    ensures
        validate_type_spec(
            TypeValidatorV::Dict { items: Some((Box::new(kv), Box::new(vv))) },
            ValueV::Dict(xs),
            ctx,
        ) == Ok::<ValueV, ErrorV>(ValueV::Dict(xs)),
{
    lemma_entries_identity(kv, vv, xs, 0, ctx);
    assert(xs.skip(0) =~= xs);
}

proof fn lemma_entries_identity(
    kv: ValidatorV,
    vv: ValidatorV,
    xs: Seq<(ValueV, ValueV)>,
    i: int,
    ctx: Option<ErrCtxV>,
)
    requires
        0 <= i <= xs.len(),
        forall|q: int|
            0 <= q < xs.len() ==> validate_spec(kv, (#[trigger] xs[q]).0, ctx) == Ok::<
                ValueV,
                ErrorV,
            >(xs[q].0),
        forall|q: int|
            0 <= q < xs.len() ==> validate_spec(vv, (#[trigger] xs[q]).1, ctx) == Ok::<
                ValueV,
                ErrorV,
            >(xs[q].1),
    ensures
        crate::validators::validate_entries_spec(
            TypeValidatorV::Dict { items: Some((Box::new(kv), Box::new(vv))) },
            xs,
            i,
            ctx,
        ) == Ok::<Seq<(ValueV, ValueV)>, ErrorV>(xs.skip(i)),
    decreases xs.len() - i,
{
    if i == xs.len() {
        assert(xs.skip(i) =~= Seq::<(ValueV, ValueV)>::empty());
    } else {
        lemma_entries_identity(kv, vv, xs, i + 1, ctx);
        assert(seq![(xs[i].0, xs[i].1)] + xs.skip(i + 1) =~= xs.skip(i));
    }
}
} // verus!
