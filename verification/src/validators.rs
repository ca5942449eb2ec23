//! The type validation and coercion engine.
//!
//! A [`Validator`] couples one [`TypeValidator`] (the structural type
//! contract), an ordered list of [`ValueValidator`]s (secondary constraints
//! run after the type check), and up to two optional [`Coercer`]s (one for
//! initialization time, one for assignment time; a coercer runs only as a
//! fallback after strict validation fails).
//!
//! Validators are plain immutable data, recursively composed; structurally
//! equal validators are interchangeable.  Every piece of the engine has a
//! mathematical mirror (`…V` types and `…_view` functions) and a
//! specification-level evaluator; the executable engine is proved to agree
//! with the evaluator on every validator that involves no host callback.

use vstd::prelude::*;

use crate::errors::ErrCtx;
use crate::errors::ErrCtxV;
use crate::errors::Error;
use crate::errors::ErrorV;
use crate::errors::Expected;
use crate::errors::ExpectedV;
use crate::errors::clone_ctx;
use crate::errors::ctx_view;
use crate::errors::err_view;
use crate::host::HostCallable;
use crate::host::HostCalls;
use crate::host::PrimitiveTarget;
use crate::value::Value;
use crate::value::ValueV;
use crate::value::clone_ids;
use crate::value::clone_values;
use crate::value::value_eq;
use crate::value::views_of;

verus! {

/// A best-effort fallback conversion, applied only after strict validation
/// fails.
pub enum Coercer {
    /// Structural, type-driven conversion derived from the type validator.
    TypeInferred,
    /// A host callable invoked with the value alone.
    CallValue { callable: HostCallable },
    /// A host callable invoked with the attribute name, owning instance,
    /// value and the init/assignment flag.
    CallNameObjectValueInit { callable: HostCallable },
    /// A named method of the owning record instance.
    ObjectMethod { meth_name: String },
}

/// Mathematical view of a [`Coercer`].
pub enum CoercerV {
    TypeInferred,
    CallValue { callable: HostCallable },
    CallNameObjectValueInit { callable: HostCallable },
    ObjectMethod { meth_name: Seq<char> },
}

/// A secondary constraint, evaluated after type validation succeeds.
pub enum ValueValidator {
    /// Membership in a fixed set of permitted values.
    Values { values: Vec<Value> },
    /// Positional constraints on the items of a fixed-arity tuple.
    TupleItems { items: Vec<Vec<ValueValidator>> },
    /// One list of constraints applied to every element of a sequence.
    SequenceItems { item: Vec<ValueValidator> },
    /// A host callable invoked with the value alone.
    CallValue { callable: HostCallable },
    /// A host callable invoked with the attribute name, owning instance and
    /// the value.
    CallMemberObjectValue { callable: HostCallable },
    /// A named method of the owning record instance.
    ObjectMethod { meth_name: String },
}

/// Mathematical view of a [`ValueValidator`].
pub enum ValueValidatorV {
    Values { values: Seq<ValueV> },
    TupleItems { items: Seq<Seq<ValueValidatorV>> },
    SequenceItems { item: Seq<ValueValidatorV> },
    CallValue { callable: HostCallable },
    CallMemberObjectValue { callable: HostCallable },
    ObjectMethod { meth_name: Seq<char> },
}

/// A deferred type contract: an unresolved type expression together with a
/// write-once memo of its resolution.
///
/// The host resolves the expression (through the annotation translator) and
/// hands the outcome back exactly once through [`LateResolvedValidator::resolve`];
/// a failure is cached and replayed like a success.
pub struct LateResolvedValidator {
    /// The attribute name the deferred contract belongs to, for reports.
    pub name: String,
    /// The unresolved type expression, as host text.
    pub expr: String,
    /// The memoized resolution: empty until the host resolves, then fixed.
    pub cell: Option<Result<Box<TypeValidator>, Box<Error>>>,
}

/// The primary, structural type contract: a closed, recursively composable
/// variant set.
pub enum TypeValidator {
    /// Accepts any value unchanged.
    Any,
    /// Accepts exactly the unit value.
    NoneType,
    /// Accepts booleans.
    Bool,
    /// Accepts integers.
    Int,
    /// Accepts floats.
    Float,
    /// Accepts text.
    Str,
    /// Accepts byte strings.
    Bytes,
    /// A fixed-arity tuple with one child validator per position.
    Tuple { items: Vec<Validator> },
    /// A variable-length tuple with one optional homogeneous child validator.
    VarTuple { item: Option<Box<Validator>> },
    /// A frozen set with an optional item validator.
    FrozenSet { item: Option<Box<Validator>> },
    /// A mutable set with an optional item validator.
    MutableSet { item: Option<Box<Validator>> },
    /// A keyed mapping with an optional key/value validator pair.
    Dict { items: Option<(Box<Validator>, Box<Validator>)> },
    /// A nominal exact-class check.
    Typed { class_id: u64 },
    /// Accepts an instance of any of the named classes.
    Instance { class_ids: Vec<u64> },
    /// Ordered alternation: child validators are tried in declaration order
    /// and the first success wins.
    Union { members: Vec<Validator> },
    /// A nominal exact-class check plus strict validation of named
    /// attributes, for structural generics.
    GenericAttributes { class_id: u64, attributes: Vec<(String, Validator)> },
    /// A lazily resolved type contract.
    ForwardValidator { late_validator: LateResolvedValidator },
}

/// Mathematical view of a [`TypeValidator`].
pub enum TypeValidatorV {
    Any,
    NoneType,
    Bool,
    Int,
    Float,
    Str,
    Bytes,
    Tuple { items: Seq<ValidatorV> },
    VarTuple { item: Option<Box<ValidatorV>> },
    FrozenSet { item: Option<Box<ValidatorV>> },
    MutableSet { item: Option<Box<ValidatorV>> },
    Dict { items: Option<(Box<ValidatorV>, Box<ValidatorV>)> },
    Typed { class_id: u64 },
    Instance { class_ids: Seq<u64> },
    Union { members: Seq<ValidatorV> },
    GenericAttributes { class_id: u64, attributes: Seq<(Seq<char>, ValidatorV)> },
    ForwardValidator {
        name: Seq<char>,
        expr: Seq<char>,
        cell: Option<Result<Box<TypeValidatorV>, Box<ErrorV>>>,
    },
}

/// The complete validation policy of one attribute or nested position.
pub struct Validator {
    pub type_validator: TypeValidator,
    pub value_validators: Vec<ValueValidator>,
    pub coercer: Option<Coercer>,
    pub init_coercer: Option<Coercer>,
}

/// Mathematical view of a [`Validator`].
pub struct ValidatorV {
    pub type_validator: TypeValidatorV,
    pub value_validators: Seq<ValueValidatorV>,
    pub coercer: Option<CoercerV>,
    pub init_coercer: Option<CoercerV>,
}

/// Mathematical view of a coercer.
pub open spec fn co_view(c: Coercer) -> CoercerV {
    match c {
        Coercer::TypeInferred => CoercerV::TypeInferred,
        Coercer::CallValue { callable } => CoercerV::CallValue { callable },
        Coercer::CallNameObjectValueInit { callable } => CoercerV::CallNameObjectValueInit {
            callable,
        },
        Coercer::ObjectMethod { meth_name } => CoercerV::ObjectMethod { meth_name: meth_name@ },
    }
}

/// Mathematical view of an optional coercer.
pub open spec fn opt_co_view(c: Option<Coercer>) -> Option<CoercerV> {
    match c {
        Some(cc) => Some(co_view(cc)),
        None => None,
    }
}

/// Mathematical view of a value validator.
pub open spec fn vv_view(vv: ValueValidator) -> ValueValidatorV
    decreases vv, 1int,
{
    match vv {
        ValueValidator::Values { values } => ValueValidatorV::Values { values: views_of(values@) },
        ValueValidator::TupleItems { items } => ValueValidatorV::TupleItems {
            items: vv_group_views(items@),
        },
        ValueValidator::SequenceItems { item } => ValueValidatorV::SequenceItems {
            item: vv_views(item@),
        },
        ValueValidator::CallValue { callable } => ValueValidatorV::CallValue { callable },
        ValueValidator::CallMemberObjectValue { callable } => ValueValidatorV::CallMemberObjectValue {
            callable,
        },
        ValueValidator::ObjectMethod { meth_name } => ValueValidatorV::ObjectMethod {
            meth_name: meth_name@,
        },
    }
}

/// Views of a sequence of value validators, elementwise.
pub open spec fn vv_views(s: Seq<ValueValidator>) -> Seq<ValueValidatorV>
    decreases s, 0int,
{
    Seq::new(
        s.len(),
        |i: int|
            if 0 <= i < s.len() {
                vv_view(s[i])
            } else {
                ValueValidatorV::Values { values: Seq::empty() }
            },
    )
}

/// Views of a sequence of value-validator lists, elementwise.
pub open spec fn vv_group_views(s: Seq<Vec<ValueValidator>>) -> Seq<Seq<ValueValidatorV>>
    decreases s, 0int,
{
    Seq::new(
        s.len(),
        |i: int|
            if 0 <= i < s.len() {
                vv_views(s[i]@)
            } else {
                Seq::empty()
            },
    )
}

/// Mathematical view of a type validator.
pub open spec fn ty_view(t: TypeValidator) -> TypeValidatorV
    decreases t, 1int,
{
    match t {
        TypeValidator::Any => TypeValidatorV::Any,
        TypeValidator::NoneType => TypeValidatorV::NoneType,
        TypeValidator::Bool => TypeValidatorV::Bool,
        TypeValidator::Int => TypeValidatorV::Int,
        TypeValidator::Float => TypeValidatorV::Float,
        TypeValidator::Str => TypeValidatorV::Str,
        TypeValidator::Bytes => TypeValidatorV::Bytes,
        TypeValidator::Tuple { items } => TypeValidatorV::Tuple {
            items: validator_views(items@),
        },
        TypeValidator::VarTuple { item } => TypeValidatorV::VarTuple {
            item: match item {
                Some(b) => Some(Box::new(validator_view(*b))),
                None => None,
            },
        },
        TypeValidator::FrozenSet { item } => TypeValidatorV::FrozenSet {
            item: match item {
                Some(b) => Some(Box::new(validator_view(*b))),
                None => None,
            },
        },
        TypeValidator::MutableSet { item } => TypeValidatorV::MutableSet {
            item: match item {
                Some(b) => Some(Box::new(validator_view(*b))),
                None => None,
            },
        },
        TypeValidator::Dict { items } => TypeValidatorV::Dict {
            items: match items {
                Some((k, v)) => Some((Box::new(validator_view(*k)), Box::new(validator_view(*v)))),
                None => None,
            },
        },
        TypeValidator::Typed { class_id } => TypeValidatorV::Typed { class_id },
        TypeValidator::Instance { class_ids } => TypeValidatorV::Instance {
            class_ids: class_ids@,
        },
        TypeValidator::Union { members } => TypeValidatorV::Union {
            members: validator_views(members@),
        },
        TypeValidator::GenericAttributes { class_id, attributes } => TypeValidatorV::GenericAttributes {
            class_id,
            attributes: named_validator_views(attributes@),
        },
        TypeValidator::ForwardValidator { late_validator } => TypeValidatorV::ForwardValidator {
            name: late_validator.name@,
            expr: late_validator.expr@,
            cell: match late_validator.cell {
                None => None,
                Some(Ok(b)) => Some(Ok(Box::new(ty_view(*b)))),
                Some(Err(e)) => Some(Err(Box::new(err_view(*e)))),
            },
        },
    }
}

/// Mathematical view of a validator.
pub open spec fn validator_view(v: Validator) -> ValidatorV
    decreases v, 2int,
{
    ValidatorV {
        type_validator: ty_view(v.type_validator),
        value_validators: vv_views(v.value_validators@),
        coercer: opt_co_view(v.coercer),
        init_coercer: opt_co_view(v.init_coercer),
    }
}

/// Views of a sequence of validators, elementwise.
pub open spec fn validator_views(s: Seq<Validator>) -> Seq<ValidatorV>
    decreases s, 0int,
{
    Seq::new(
        s.len(),
        |i: int|
            if 0 <= i < s.len() {
                validator_view(s[i])
            } else {
                ValidatorV {
                    type_validator: TypeValidatorV::Any,
                    value_validators: Seq::empty(),
                    coercer: None,
                    init_coercer: None,
                }
            },
    )
}

/// Views of a sequence of named validators, elementwise.
pub open spec fn named_validator_views(s: Seq<(String, Validator)>) -> Seq<(Seq<char>, ValidatorV)>
    decreases s, 0int,
{
    Seq::new(
        s.len(),
        |i: int|
            if 0 <= i < s.len() {
                (s[i].0@, validator_view(s[i].1))
            } else {
                (
                    Seq::empty(),
                    ValidatorV {
                        type_validator: TypeValidatorV::Any,
                        value_validators: Seq::empty(),
                        coercer: None,
                        init_coercer: None,
                    },
                )
            },
    )
}


/// View of a validation result.
pub open spec fn res_view(r: Result<Value, Error>) -> Result<ValueV, ErrorV> {
    match r {
        Ok(v) => Ok(v.deep_view()),
        Err(e) => Err(err_view(e)),
    }
}

/// View of a unit result.
pub open spec fn unit_res_view(r: Result<(), Error>) -> Result<(), ErrorV> {
    match r {
        Ok(u) => Ok(u),
        Err(e) => Err(err_view(e)),
    }
}

/// Truthiness of a value: the emptiness convention of the host runtime.
pub open spec fn truthy_spec(x: ValueV) -> bool {
    match x {
        ValueV::NoneValue => false,
        ValueV::Bool(b) => b,
        ValueV::Int(i) => i != 0,
        ValueV::Float(bits) => !(bits == 0 || bits == 0x8000_0000_0000_0000u64),
        ValueV::Str(s) => s.len() > 0,
        ValueV::Bytes(b) => b.len() > 0,
        ValueV::Tuple(items) => items.len() > 0,
        ValueV::MutableSet(items) => items.len() > 0,
        ValueV::FrozenSet(items) => items.len() > 0,
        ValueV::Dict(entries) => entries.len() > 0,
        ValueV::Obj { .. } => true,
    }
}

/// Whether a character is a decimal digit.
pub open spec fn is_digit(c: char) -> bool {
    48 <= c as u32 <= 57
}

/// Whether every character of a sequence is a decimal digit.
pub open spec fn all_digits(s: Seq<char>) -> bool {
    forall|i: int| 0 <= i < s.len() ==> is_digit(#[trigger] s[i])
}

/// The numeric value of a sequence of decimal digits.
pub open spec fn digits_val(s: Seq<char>) -> int
    decreases s.len(),
{
    if s.len() == 0 {
        0
    } else {
        digits_val(s.drop_last()) * 10 + ((s.last() as u32) as int - 48)
    }
}

/// The integer denoted by a decimal numeral with an optional leading minus
/// sign, if it is one and fits the engine's integer width.
pub open spec fn int_parse_spec(s: Seq<char>) -> Option<i64> {
    if s.len() > 0 && s[0] == '-' {
        let ds = s.drop_first();
        if ds.len() > 0 && all_digits(ds) && -digits_val(ds) >= i64::MIN {
            Some((-digits_val(ds)) as i64)
        } else {
            None
        }
    } else {
        if s.len() > 0 && all_digits(s) && digits_val(s) <= i64::MAX {
            Some(digits_val(s) as i64)
        } else {
            None
        }
    }
}

/// Decimal digits of a non-negative number, most significant first.
pub open spec fn udec_spec(n: int) -> Seq<char>
    decreases n,
{
    if n <= 0 {
        seq!['0']
    } else if n < 10 {
        seq![digit_char(n)]
    } else {
        udec_spec(n / 10).push(digit_char(n % 10))
    }
}

/// The digit character of one decimal digit.
pub open spec fn digit_char(d: int) -> char {
    if d == 0 {
        '0'
    } else if d == 1 {
        '1'
    } else if d == 2 {
        '2'
    } else if d == 3 {
        '3'
    } else if d == 4 {
        '4'
    } else if d == 5 {
        '5'
    } else if d == 6 {
        '6'
    } else if d == 7 {
        '7'
    } else if d == 8 {
        '8'
    } else {
        '9'
    }
}

/// Decimal text of an integer: an optional minus sign and the digits.
pub open spec fn dec_spec(n: int) -> Seq<char> {
    if n < 0 {
        seq!['-'] + udec_spec(-n)
    } else {
        udec_spec(n)
    }
}

/// The text of a truth value.
pub open spec fn bool_text(b: bool) -> Seq<char> {
    if b {
        seq!['T', 'r', 'u', 'e']
    } else {
        seq!['F', 'a', 'l', 's', 'e']
    }
}

/// A run of zeroed bytes of the given length.
pub open spec fn zero_bytes(n: int) -> Seq<u8> {
    Seq::new(if n >= 0 { n as nat } else { 0 }, |i: int| 0u8)
}

/// Whether a sequence of values contains one with the given view.
pub open spec fn contains_val(values: Seq<ValueV>, x: ValueV) -> bool {
    exists|i: int| 0 <= i < values.len() && values[i] == x
}

/// Whether a sequence of named values has an entry under the given name.
pub open spec fn has_attr(attrs: Seq<(Seq<char>, ValueV)>, name: Seq<char>) -> bool {
    exists|i: int| 0 <= i < attrs.len() && attrs[i].0 == name
}

/// The first value under the given name in a sequence of named values.
pub open spec fn lookup_attr(attrs: Seq<(Seq<char>, ValueV)>, name: Seq<char>) -> ValueV
    decreases attrs.len(),
{
    if attrs.len() == 0 {
        ValueV::NoneValue
    } else if attrs.first().0 == name {
        attrs.first().1
    } else {
        lookup_attr(attrs.drop_first(), name)
    }
}

/// Instance check: the object is of the class or lists it among its
/// ancestors.
pub open spec fn instance_of(class_id: u64, ancestors: Seq<u64>, t: u64) -> bool {
    class_id == t || ancestors.contains(t)
}

/// Instance check against any of several classes.
pub open spec fn instance_of_any(class_id: u64, ancestors: Seq<u64>, ts: Seq<u64>) -> bool {
    exists|i: int| 0 <= i < ts.len() && instance_of(class_id, ancestors, ts[i])
}

// ---------------------------------------------------------------------------
// Host-freedom: the fragment of the engine whose outcome depends on nothing
// but its arguments.  Every callback-free validator is in it; the
// specification evaluators below pin the engine's behavior exactly on this
// fragment.
// ---------------------------------------------------------------------------

/// Whether a validator involves no host callback on any path that
/// validation or coercion can take.
pub open spec fn hf_validator(v: ValidatorV) -> bool
    decreases v, 3int, 0int,
{
    &&& hf_ty(v.type_validator)
    &&& hf_vvs(v.value_validators)
    &&& hf_opt_co(v.coercer, v.type_validator)
    &&& hf_opt_co(v.init_coercer, v.type_validator)
}

/// Whether an optional coercer for the given target is host-free.
pub open spec fn hf_opt_co(c: Option<CoercerV>, t: TypeValidatorV) -> bool
    decreases t, 2int, 1int,
{
    match c {
        None => true,
        Some(CoercerV::TypeInferred) => hf_coerce(t),
        Some(_) => false,
    }
}

/// Whether strict validation under a type validator is host-free.
pub open spec fn hf_ty(t: TypeValidatorV) -> bool
    decreases t, 2int, 0int,
{
    match t {
        TypeValidatorV::Any => true,
        TypeValidatorV::NoneType => true,
        TypeValidatorV::Bool => true,
        TypeValidatorV::Int => true,
        TypeValidatorV::Float => true,
        TypeValidatorV::Str => true,
        TypeValidatorV::Bytes => true,
        TypeValidatorV::Tuple { items } => forall|i: int|
            0 <= i < items.len() ==> hf_validator(#[trigger] items[i]),
        TypeValidatorV::VarTuple { item } => match item {
            None => true,
            Some(b) => hf_validator(*b),
        },
        TypeValidatorV::FrozenSet { item } => match item {
            None => true,
            Some(b) => hf_validator(*b),
        },
        TypeValidatorV::MutableSet { item } => match item {
            None => true,
            Some(b) => hf_validator(*b),
        },
        TypeValidatorV::Dict { items } => match items {
            None => true,
            Some((k, v)) => hf_validator(*k) && hf_validator(*v),
        },
        TypeValidatorV::Typed { .. } => true,
        TypeValidatorV::Instance { .. } => true,
        TypeValidatorV::Union { members } => forall|i: int|
            0 <= i < members.len() ==> hf_validator(#[trigger] members[i]),
        TypeValidatorV::GenericAttributes { attributes, .. } => forall|i: int|
            0 <= i < attributes.len() ==> hf_validator(#[trigger] attributes[i].1),
        TypeValidatorV::ForwardValidator { cell, .. } => match cell {
            None => true,
            Some(Err(_)) => true,
            Some(Ok(b)) => hf_ty(*b),
        },
    }
}

/// Whether structural coercion toward a type validator is host-free.
/// Coercion toward a nominal target constructs a host object, and coercion
/// toward a primitive or mapping target may fall back to the host's own
/// constructor for sources the model cannot convert itself, so those
/// targets are excluded; the exactly statable conversions they do perform
/// are pinned by dedicated clauses on the coercion operations.
pub open spec fn hf_coerce(t: TypeValidatorV) -> bool
    decreases t, 1int, 0int,
{
    match t {
        TypeValidatorV::Any => true,
        TypeValidatorV::NoneType => true,
        TypeValidatorV::Bool => true,
        TypeValidatorV::Int => false,
        TypeValidatorV::Float => false,
        TypeValidatorV::Str => false,
        TypeValidatorV::Bytes => false,
        TypeValidatorV::Tuple { items } => forall|i: int|
            0 <= i < items.len() ==> hf_coerce((#[trigger] items[i]).type_validator),
        TypeValidatorV::VarTuple { item } => match item {
            None => true,
            Some(b) => hf_coerce(b.type_validator),
        },
        TypeValidatorV::FrozenSet { item } => match item {
            None => true,
            Some(b) => hf_coerce(b.type_validator),
        },
        TypeValidatorV::MutableSet { item } => match item {
            None => true,
            Some(b) => hf_coerce(b.type_validator),
        },
        TypeValidatorV::Dict { .. } => false,
        TypeValidatorV::Typed { .. } => false,
        TypeValidatorV::Instance { .. } => false,
        TypeValidatorV::Union { members } => forall|i: int|
            0 <= i < members.len() ==> hf_member_coerce(#[trigger] members[i]),
        TypeValidatorV::GenericAttributes { .. } => false,
        TypeValidatorV::ForwardValidator { cell, .. } => match cell {
            None => true,
            Some(Err(_)) => true,
            Some(Ok(b)) => hf_coerce(*b),
        },
    }
}

/// Whether one alternation member's own coercion policy is host-free.
pub open spec fn hf_member_coerce(m: ValidatorV) -> bool
    decreases m, 2int, 0int,
{
    &&& hf_opt_co(m.coercer, m.type_validator)
    &&& hf_opt_co(m.init_coercer, m.type_validator)
}

/// Whether a value validator involves no host callback.
pub open spec fn hf_vv(vv: ValueValidatorV) -> bool
    decreases vv, 1int, 0int,
{
    match vv {
        ValueValidatorV::Values { .. } => true,
        ValueValidatorV::TupleItems { items } => forall|i: int|
            0 <= i < items.len() ==> hf_vvs(#[trigger] items[i]),
        ValueValidatorV::SequenceItems { item } => hf_vvs(item),
        ValueValidatorV::CallValue { .. } => false,
        ValueValidatorV::CallMemberObjectValue { .. } => false,
        ValueValidatorV::ObjectMethod { .. } => false,
    }
}

/// Whether every validator of a list is host-free.
pub open spec fn hf_vvs(s: Seq<ValueValidatorV>) -> bool
    decreases s, 0int, 0int,
{
    forall|i: int| 0 <= i < s.len() ==> hf_vv(#[trigger] s[i])
}

// ---------------------------------------------------------------------------
// The specification evaluators.  These define what validation, the secondary
// constraints and structural coercion return, for every host-free validator
// and every value.  List evaluators take the whole sequence and a start
// index, and describe the work on the suffix from that index.
// ---------------------------------------------------------------------------

/// Full validation: strict validation first; on failure, the
/// assignment-time coercer (when configured) as fallback, its result
/// returned as-is.
pub open spec fn validate_spec(v: ValidatorV, x: ValueV, ctx: Option<ErrCtxV>) -> Result<
    ValueV,
    ErrorV,
>
    decreases v, 0int, 2int,
{
    match strict_validate_spec(v, x, ctx) {
        Ok(w) => Ok(w),
        Err(e) => match v.coercer {
            Some(c) => coerce_spec(c, v.type_validator, false, x, ctx),
            None => Err(e),
        },
    }
}

/// Strict validation: the type validator, then every value validator in
/// declared order; the first failure aborts.
pub open spec fn strict_validate_spec(v: ValidatorV, x: ValueV, ctx: Option<ErrCtxV>) -> Result<
    ValueV,
    ErrorV,
>
    decreases v, 0int, 1int,
{
    match validate_type_spec(v.type_validator, x, ctx) {
        Err(e) => Err(e),
        Ok(w) => match run_vvs_spec(v.value_validators, 0, w, ctx) {
            Err(e) => Err(e),
            Ok(u) => Ok(w),
        },
    }
}

/// Run the value validators from position `i` in order over one value; the
/// first failure aborts.
pub open spec fn run_vvs_spec(
    vvs: Seq<ValueValidatorV>,
    i: int,
    w: ValueV,
    ctx: Option<ErrCtxV>,
) -> Result<(), ErrorV>
    decreases vvs, 0int, vvs.len() - i,
{
    if i < 0 || i >= vvs.len() {
        Ok(())
    } else {
        match validate_value_spec(vvs[i], w, ctx) {
            Err(e) => Err(e),
            Ok(u) => run_vvs_spec(vvs, i + 1, w, ctx),
        }
    }
}

/// One secondary constraint over one value.  Host-callback constraints are
/// outside the host-free fragment; their specification value here is never
/// relied upon.
pub open spec fn validate_value_spec(
    vv: ValueValidatorV,
    w: ValueV,
    ctx: Option<ErrCtxV>,
) -> Result<(), ErrorV>
    decreases vv, 0int, 1int,
{
    match vv {
        ValueValidatorV::Values { values } => if contains_val(values, w) {
            Ok(())
        } else {
            Err(ErrorV::NotPermitted { value: w, ctx })
        },
        ValueValidatorV::TupleItems { items } => match w {
            ValueV::Tuple(ws) => vv_tuple_items_spec(items, ws, 0, ctx),
            _ => Err(ErrorV::Mismatch { expected: ExpectedV::Tuple, value: w, ctx }),
        },
        ValueValidatorV::SequenceItems { item } => match w {
            ValueV::Tuple(ws) => vv_seq_items_spec(item, ws, 0, ctx),
            ValueV::FrozenSet(ws) => vv_seq_items_spec(item, ws, 0, ctx),
            ValueV::MutableSet(ws) => vv_seq_items_spec(item, ws, 0, ctx),
            _ => Err(ErrorV::Mismatch { expected: ExpectedV::Tuple, value: w, ctx }),
        },
        ValueValidatorV::CallValue { .. } => Ok(()),
        ValueValidatorV::CallMemberObjectValue { .. } => Ok(()),
        ValueValidatorV::ObjectMethod { .. } => Ok(()),
    }
}

/// Positional constraint lists over tuple items from position `i`; the
/// first failing position is reported with its index.
pub open spec fn vv_tuple_items_spec(
    items: Seq<Seq<ValueValidatorV>>,
    ws: Seq<ValueV>,
    i: int,
    ctx: Option<ErrCtxV>,
) -> Result<(), ErrorV>
    decreases items, 0int, items.len() - i,
{
    if i < 0 || i >= items.len() || i >= ws.len() {
        Ok(())
    } else {
        match run_vvs_spec(items[i], 0, ws[i], ctx) {
            Err(e) => Err(ErrorV::ItemInvalid { index: i, cause: Box::new(e), ctx }),
            Ok(u) => vv_tuple_items_spec(items, ws, i + 1, ctx),
        }
    }
}

/// One constraint list over every element of a sequence from position `i`;
/// the first failing position is reported with its index.
pub open spec fn vv_seq_items_spec(
    item: Seq<ValueValidatorV>,
    ws: Seq<ValueV>,
    i: int,
    ctx: Option<ErrCtxV>,
) -> Result<(), ErrorV>
    decreases item, 1int, ws.len() - i,
{
    if i < 0 || i >= ws.len() {
        Ok(())
    } else {
        match run_vvs_spec(item, 0, ws[i], ctx) {
            Err(e) => Err(ErrorV::ItemInvalid { index: i, cause: Box::new(e), ctx }),
            Ok(u) => vv_seq_items_spec(item, ws, i + 1, ctx),
        }
    }
}

/// The type check itself.
pub open spec fn validate_type_spec(t: TypeValidatorV, x: ValueV, ctx: Option<ErrCtxV>) -> Result<
    ValueV,
    ErrorV,
>
    decreases t, 4int, 0int,
{
    match t {
        TypeValidatorV::Any => Ok(x),
        TypeValidatorV::NoneType => match x {
            ValueV::NoneValue => Ok(x),
            _ => Err(ErrorV::Mismatch { expected: ExpectedV::NoneType, value: x, ctx }),
        },
        TypeValidatorV::Bool => match x {
            ValueV::Bool(_) => Ok(x),
            _ => Err(ErrorV::Mismatch { expected: ExpectedV::Bool, value: x, ctx }),
        },
        TypeValidatorV::Int => match x {
            ValueV::Int(_) => Ok(x),
            _ => Err(ErrorV::Mismatch { expected: ExpectedV::Int, value: x, ctx }),
        },
        TypeValidatorV::Float => match x {
            ValueV::Float(_) => Ok(x),
            _ => Err(ErrorV::Mismatch { expected: ExpectedV::Float, value: x, ctx }),
        },
        TypeValidatorV::Str => match x {
            ValueV::Str(_) => Ok(x),
            _ => Err(ErrorV::Mismatch { expected: ExpectedV::Str, value: x, ctx }),
        },
        TypeValidatorV::Bytes => match x {
            ValueV::Bytes(_) => Ok(x),
            _ => Err(ErrorV::Mismatch { expected: ExpectedV::Bytes, value: x, ctx }),
        },
        TypeValidatorV::Tuple { items } => match x {
            ValueV::Tuple(xs) => if xs.len() != items.len() {
                Err(
                    ErrorV::WrongArity {
                        expected: items.len() as int,
                        actual: xs.len() as int,
                        ctx,
                    },
                )
            } else {
                match validate_items_spec(items, xs, 0, ctx) {
                    Err(e) => Err(e),
                    Ok(ws) => Ok(ValueV::Tuple(ws)),
                }
            },
            _ => Err(ErrorV::Mismatch { expected: ExpectedV::Tuple, value: x, ctx }),
        },
        TypeValidatorV::VarTuple { item } => match x {
            ValueV::Tuple(xs) => match item {
                None => Ok(x),
                Some(b) => match validate_each_spec(*b, xs, 0, ctx) {
                    Err(e) => Err(e),
                    Ok(ws) => Ok(ValueV::Tuple(ws)),
                },
            },
            _ => Err(ErrorV::Mismatch { expected: ExpectedV::Tuple, value: x, ctx }),
        },
        TypeValidatorV::FrozenSet { item } => match x {
            ValueV::FrozenSet(xs) => match item {
                None => Ok(x),
                Some(b) => match validate_each_spec(*b, xs, 0, ctx) {
                    Err(e) => Err(e),
                    Ok(ws) => Ok(ValueV::FrozenSet(ws)),
                },
            },
            _ => Err(ErrorV::Mismatch { expected: ExpectedV::FrozenSet, value: x, ctx }),
        },
        TypeValidatorV::MutableSet { item } => match x {
            ValueV::MutableSet(xs) => match item {
                None => Ok(x),
                Some(b) => match validate_each_spec(*b, xs, 0, ctx) {
                    Err(e) => Err(e),
                    Ok(ws) => Ok(ValueV::MutableSet(ws)),
                },
            },
            _ => Err(ErrorV::Mismatch { expected: ExpectedV::MutableSet, value: x, ctx }),
        },
        TypeValidatorV::Dict { items } => match x {
            ValueV::Dict(xs) => match items {
                None => Ok(x),
                Some(_) => match validate_entries_spec(t, xs, 0, ctx) {
                    Err(e) => Err(e),
                    Ok(ws) => Ok(ValueV::Dict(ws)),
                },
            },
            _ => Err(ErrorV::Mismatch { expected: ExpectedV::Dict, value: x, ctx }),
        },
        TypeValidatorV::Typed { class_id } => match x {
            ValueV::Obj { class_id: c, .. } => if c == class_id {
                Ok(x)
            } else {
                Err(ErrorV::Mismatch { expected: ExpectedV::Class(class_id), value: x, ctx })
            },
            _ => Err(ErrorV::Mismatch { expected: ExpectedV::Class(class_id), value: x, ctx }),
        },
        TypeValidatorV::Instance { class_ids } => match x {
            ValueV::Obj { class_id: c, ancestors, .. } => if instance_of_any(
                c,
                ancestors,
                class_ids,
            ) {
                Ok(x)
            } else {
                Err(
                    ErrorV::Mismatch {
                        expected: ExpectedV::OneOfClasses(class_ids),
                        value: x,
                        ctx,
                    },
                )
            },
            _ => Err(
                ErrorV::Mismatch { expected: ExpectedV::OneOfClasses(class_ids), value: x, ctx },
            ),
        },
        TypeValidatorV::Union { members } => match union_spec(members, x, 0, ctx) {
            Ok(w) => Ok(w),
            Err(es) => Err(ErrorV::UnionMismatch { causes: es, ctx }),
        },
        TypeValidatorV::GenericAttributes { class_id, attributes } => match x {
            ValueV::Obj { class_id: c, ancestors, attrs } => if c != class_id {
                Err(ErrorV::Mismatch { expected: ExpectedV::Class(class_id), value: x, ctx })
            } else {
                match gattrs_spec(attributes, attrs, 0, ctx) {
                    Err(e) => Err(e),
                    Ok(u) => Ok(x),
                }
            },
            _ => Err(ErrorV::Mismatch { expected: ExpectedV::Class(class_id), value: x, ctx }),
        },
        TypeValidatorV::ForwardValidator { name, expr, cell } => match cell {
            None => Err(ErrorV::UnresolvedForward { name: expr }),
            Some(Err(e)) => Err(*e),
            Some(Ok(b)) => validate_type_spec(*b, x, ctx),
        },
    }
}

/// Positional validation of tuple items from position `i`; the first
/// failing position is reported with its index and cause.
pub open spec fn validate_items_spec(
    items: Seq<ValidatorV>,
    xs: Seq<ValueV>,
    i: int,
    ctx: Option<ErrCtxV>,
) -> Result<Seq<ValueV>, ErrorV>
    decreases items, 0int, items.len() - i,
{
    if i < 0 || i >= items.len() || i >= xs.len() {
        Ok(Seq::empty())
    } else {
        match validate_spec(items[i], xs[i], ctx) {
            Err(e) => Err(ErrorV::ItemInvalid { index: i, cause: Box::new(e), ctx }),
            Ok(w) => match validate_items_spec(items, xs, i + 1, ctx) {
                Err(e) => Err(e),
                Ok(ws) => Ok(seq![w] + ws),
            },
        }
    }
}

/// Homogeneous validation of every element from position `i`; the first
/// failing position is reported with its index and cause.
pub open spec fn validate_each_spec(
    it: ValidatorV,
    xs: Seq<ValueV>,
    i: int,
    ctx: Option<ErrCtxV>,
) -> Result<Seq<ValueV>, ErrorV>
    decreases it, 1int, xs.len() - i,
{
    if i < 0 || i >= xs.len() {
        Ok(Seq::empty())
    } else {
        match validate_spec(it, xs[i], ctx) {
            Err(e) => Err(ErrorV::ItemInvalid { index: i, cause: Box::new(e), ctx }),
            Ok(w) => match validate_each_spec(it, xs, i + 1, ctx) {
                Err(e) => Err(e),
                Ok(ws) => Ok(seq![w] + ws),
            },
        }
    }
}

/// Validation of mapping entries from position `i`, under the key and value
/// validators of the given mapping target: each key under the key
/// validator, then its value under the value validator; the first failure
/// is reported with the key.
pub open spec fn validate_entries_spec(
    t: TypeValidatorV,
    xs: Seq<(ValueV, ValueV)>,
    i: int,
    ctx: Option<ErrCtxV>,
) -> Result<Seq<(ValueV, ValueV)>, ErrorV>
    decreases t, 3int, xs.len() - i,
{
    match t {
        TypeValidatorV::Dict { items: Some((kv, vv)) } => if i < 0 || i >= xs.len() {
            Ok(Seq::empty())
        } else {
            match validate_spec(*kv, xs[i].0, ctx) {
                Err(e) => Err(ErrorV::KeyInvalid { key: xs[i].0, cause: Box::new(e), ctx }),
                Ok(wk) => match validate_spec(*vv, xs[i].1, ctx) {
                    Err(e) => Err(
                        ErrorV::EntryInvalid { key: xs[i].0, cause: Box::new(e), ctx },
                    ),
                    Ok(wv) => match validate_entries_spec(t, xs, i + 1, ctx) {
                        Err(e) => Err(e),
                        Ok(ws) => Ok(seq![(wk, wv)] + ws),
                    },
                },
            }
        },
        _ => Ok(Seq::empty()),
    }
}

/// Ordered alternation from position `i`: the first member that accepts the
/// value wins; when none does, every remaining member's reason is returned,
/// in declaration order.
pub open spec fn union_spec(
    members: Seq<ValidatorV>,
    x: ValueV,
    i: int,
    ctx: Option<ErrCtxV>,
) -> Result<ValueV, Seq<ErrorV>>
    decreases members, 0int, members.len() - i,
{
    if i < 0 || i >= members.len() {
        Err(Seq::empty())
    } else {
        match validate_spec(members[i], x, ctx) {
            Ok(w) => Ok(w),
            Err(e) => match union_spec(members, x, i + 1, ctx) {
                Ok(w) => Ok(w),
                Err(es) => Err(seq![e] + es),
            },
        }
    }
}

/// Strict validation of named attributes of a nominal object from position
/// `i`; the validated results are checked and discarded, the object passes
/// through.
pub open spec fn gattrs_spec(
    attributes: Seq<(Seq<char>, ValidatorV)>,
    attrs: Seq<(Seq<char>, ValueV)>,
    i: int,
    ctx: Option<ErrCtxV>,
) -> Result<(), ErrorV>
    decreases attributes, 0int, attributes.len() - i,
{
    if i < 0 || i >= attributes.len() {
        Ok(())
    } else {
        let name = attributes[i].0;
        if !has_attr(attrs, name) {
            Err(ErrorV::MissingAttr { attr: name, ctx })
        } else {
            match strict_validate_spec(attributes[i].1, lookup_attr(attrs, name), ctx) {
                Err(e) => Err(ErrorV::AttrInvalid { attr: name, cause: Box::new(e), ctx }),
                Ok(w) => gattrs_spec(attributes, attrs, i + 1, ctx),
            }
        }
    }
}

// ---------------------------------------------------------------------------
// Structural coercion.
// ---------------------------------------------------------------------------

/// One coercer applied to one value for the given target.  Host-callback
/// coercers, nominal targets and the host-backed remainder of the primitive
/// targets are outside the host-free fragment; their specification value
/// here is never relied upon.
pub open spec fn coerce_spec(
    c: CoercerV,
    t: TypeValidatorV,
    is_init: bool,
    x: ValueV,
    ctx: Option<ErrCtxV>,
) -> Result<ValueV, ErrorV>
    decreases t, 2int, 0int,
{
    match c {
        CoercerV::TypeInferred => ti_coerce_spec(t, is_init, x, ctx),
        CoercerV::CallValue { .. } => Err(ErrorV::CannotCoerce { ctx }),
        CoercerV::CallNameObjectValueInit { .. } => Err(ErrorV::CannotCoerce { ctx }),
        CoercerV::ObjectMethod { .. } => Err(ErrorV::CannotCoerce { ctx }),
    }
}

/// Structural, type-driven conversion: the target's constructor on the
/// value, recursing per element for containers, trying each alternation
/// member's own coercion policy in order for a union.
pub open spec fn ti_coerce_spec(
    t: TypeValidatorV,
    is_init: bool,
    x: ValueV,
    ctx: Option<ErrCtxV>,
) -> Result<ValueV, ErrorV>
    decreases t, 1int, 0int,
{
    match t {
        TypeValidatorV::Any => Ok(x),
        TypeValidatorV::NoneType => Err(ErrorV::CannotCoerce { ctx }),
        TypeValidatorV::Bool => Ok(ValueV::Bool(truthy_spec(x))),
        TypeValidatorV::Int => match x {
            ValueV::Bool(b) => Ok(ValueV::Int(if b { 1i64 } else { 0i64 })),
            ValueV::Int(_) => Ok(x),
            ValueV::Str(s) => match int_parse_spec(s) {
                Some(n) => Ok(ValueV::Int(n)),
                None => Err(ErrorV::CannotCoerce { ctx }),
            },
            _ => Err(ErrorV::CannotCoerce { ctx }),
        },
        TypeValidatorV::Float => match x {
            ValueV::Float(_) => Ok(x),
            _ => Err(ErrorV::CannotCoerce { ctx }),
        },
        TypeValidatorV::Str => match x {
            ValueV::Str(_) => Ok(x),
            ValueV::Bool(b) => Ok(ValueV::Str(bool_text(b))),
            ValueV::Int(i) => Ok(ValueV::Str(dec_spec(i as int))),
            _ => Err(ErrorV::CannotCoerce { ctx }),
        },
        TypeValidatorV::Bytes => match x {
            ValueV::Bytes(_) => Ok(x),
            ValueV::Int(n) => if n >= 0 {
                Ok(ValueV::Bytes(zero_bytes(n as int)))
            } else {
                Err(ErrorV::CannotCoerce { ctx })
            },
            _ => Err(ErrorV::CannotCoerce { ctx }),
        },
        TypeValidatorV::Tuple { items } => match x {
            ValueV::Tuple(xs) => if xs.len() != items.len() {
                Err(
                    ErrorV::WrongArity {
                        expected: items.len() as int,
                        actual: xs.len() as int,
                        ctx,
                    },
                )
            } else {
                match coerce_items_spec(items, is_init, xs, 0, ctx) {
                    Err(e) => Err(e),
                    Ok(ws) => Ok(ValueV::Tuple(ws)),
                }
            },
            _ => Err(ErrorV::CannotCoerce { ctx }),
        },
        TypeValidatorV::VarTuple { item } => match x {
            ValueV::Tuple(xs) => match item {
                None => Ok(ValueV::Tuple(xs)),
                Some(b) => match coerce_each_spec(b.type_validator, is_init, xs, 0, ctx) {
                    Err(e) => Err(e),
                    Ok(ws) => Ok(ValueV::Tuple(ws)),
                },
            },
            _ => Err(ErrorV::CannotCoerce { ctx }),
        },
        TypeValidatorV::FrozenSet { item } => match x {
            ValueV::Tuple(xs) => match item {
                None => Ok(ValueV::FrozenSet(xs)),
                Some(b) => match coerce_each_spec(b.type_validator, is_init, xs, 0, ctx) {
                    Err(e) => Err(e),
                    Ok(ws) => Ok(ValueV::FrozenSet(ws)),
                },
            },
            _ => Err(ErrorV::CannotCoerce { ctx }),
        },
        TypeValidatorV::MutableSet { item } => match x {
            ValueV::Tuple(xs) => match item {
                None => Ok(ValueV::MutableSet(xs)),
                Some(b) => match coerce_each_spec(b.type_validator, is_init, xs, 0, ctx) {
                    Err(e) => Err(e),
                    Ok(ws) => Ok(ValueV::MutableSet(ws)),
                },
            },
            _ => Err(ErrorV::CannotCoerce { ctx }),
        },
        TypeValidatorV::Dict { items } => match x {
            ValueV::Dict(xs) => match items {
                None => Ok(ValueV::Dict(xs)),
                Some(_) => match coerce_entries_spec(t, is_init, xs, 0, ctx) {
                    Err(e) => Err(e),
                    Ok(ws) => Ok(ValueV::Dict(ws)),
                },
            },
            _ => Err(ErrorV::CannotCoerce { ctx }),
        },
        TypeValidatorV::Typed { .. } => Err(ErrorV::CannotCoerce { ctx }),
        TypeValidatorV::Instance { .. } => Err(ErrorV::CannotCoerce { ctx }),
        TypeValidatorV::Union { members } => match coerce_union_spec(members, is_init, x, 0, ctx) {
            Ok(w) => Ok(w),
            Err(es) => Err(ErrorV::UnionMismatch { causes: es, ctx }),
        },
        TypeValidatorV::GenericAttributes { .. } => Err(ErrorV::CannotCoerce { ctx }),
        TypeValidatorV::ForwardValidator { name, expr, cell } => match cell {
            None => Err(ErrorV::UnresolvedForward { name: expr }),
            Some(Err(e)) => Err(*e),
            Some(Ok(b)) => ti_coerce_spec(*b, is_init, x, ctx),
        },
    }
}

/// Positional structural coercion of tuple items from position `i`; the
/// first failure propagates unchanged.
pub open spec fn coerce_items_spec(
    items: Seq<ValidatorV>,
    is_init: bool,
    xs: Seq<ValueV>,
    i: int,
    ctx: Option<ErrCtxV>,
) -> Result<Seq<ValueV>, ErrorV>
    decreases items, 0int, items.len() - i,
{
    if i < 0 || i >= items.len() || i >= xs.len() {
        Ok(Seq::empty())
    } else {
        match ti_coerce_spec(items[i].type_validator, is_init, xs[i], ctx) {
            Err(e) => Err(e),
            Ok(w) => match coerce_items_spec(items, is_init, xs, i + 1, ctx) {
                Err(e) => Err(e),
                Ok(ws) => Ok(seq![w] + ws),
            },
        }
    }
}

/// Homogeneous structural coercion of every element from position `i`; the
/// first failure propagates unchanged.
pub open spec fn coerce_each_spec(
    it: TypeValidatorV,
    is_init: bool,
    xs: Seq<ValueV>,
    i: int,
    ctx: Option<ErrCtxV>,
) -> Result<Seq<ValueV>, ErrorV>
    decreases it, 2int, xs.len() - i,
{
    if i < 0 || i >= xs.len() {
        Ok(Seq::empty())
    } else {
        match ti_coerce_spec(it, is_init, xs[i], ctx) {
            Err(e) => Err(e),
            Ok(w) => match coerce_each_spec(it, is_init, xs, i + 1, ctx) {
                Err(e) => Err(e),
                Ok(ws) => Ok(seq![w] + ws),
            },
        }
    }
}

/// Structural coercion of mapping entries from position `i` under the key
/// and value validators of the given mapping target; the first failure
/// propagates unchanged.
pub open spec fn coerce_entries_spec(
    t: TypeValidatorV,
    is_init: bool,
    xs: Seq<(ValueV, ValueV)>,
    i: int,
    ctx: Option<ErrCtxV>,
) -> Result<Seq<(ValueV, ValueV)>, ErrorV>
    decreases t, 0int, xs.len() - i,
{
    match t {
        TypeValidatorV::Dict { items: Some((kv, vv)) } => if i < 0 || i >= xs.len() {
            Ok(Seq::empty())
        } else {
            match ti_coerce_spec(kv.type_validator, is_init, xs[i].0, ctx) {
                Err(e) => Err(e),
                Ok(wk) => match ti_coerce_spec(vv.type_validator, is_init, xs[i].1, ctx) {
                    Err(e) => Err(e),
                    Ok(wv) => match coerce_entries_spec(t, is_init, xs, i + 1, ctx) {
                        Err(e) => Err(e),
                        Ok(ws) => Ok(seq![(wk, wv)] + ws),
                    },
                },
            }
        },
        _ => Ok(Seq::empty()),
    }
}

/// One alternation member's own coercion policy: the coercer for the active
/// phase, or a no-coercer report.
pub open spec fn member_coerce_spec(
    m: ValidatorV,
    is_init: bool,
    x: ValueV,
    ctx: Option<ErrCtxV>,
) -> Result<ValueV, ErrorV>
    decreases m, 0int, 0int,
{
    let c = if is_init {
        m.init_coercer
    } else {
        m.coercer
    };
    match c {
        None => Err(ErrorV::NoCoercer { ctx }),
        Some(cc) => coerce_spec(cc, m.type_validator, is_init, x, ctx),
    }
}

/// Structural coercion through an alternation from position `i`: each
/// member's own coercion policy in declaration order; the first success
/// wins, and when none succeeds every remaining member's reason is returned
/// in order.
pub open spec fn coerce_union_spec(
    members: Seq<ValidatorV>,
    is_init: bool,
    x: ValueV,
    i: int,
    ctx: Option<ErrCtxV>,
) -> Result<ValueV, Seq<ErrorV>>
    decreases members, 0int, members.len() - i,
{
    if i < 0 || i >= members.len() {
        Err(Seq::empty())
    } else {
        match member_coerce_spec(members[i], is_init, x, ctx) {
            Ok(w) => Ok(w),
            Err(e) => match coerce_union_spec(members, is_init, x, i + 1, ctx) {
                Ok(w) => Ok(w),
                Err(es) => Err(seq![e] + es),
            },
        }
    }
}

// ---------------------------------------------------------------------------
// Executable groundwork shared by the engine.
// ---------------------------------------------------------------------------

/// View of a sequence result.
pub open spec fn seq_res_view(r: Result<Vec<Value>, Error>) -> Result<Seq<ValueV>, ErrorV> {
    match r {
        Ok(ws) => Ok(views_of(ws@)),
        Err(e) => Err(err_view(e)),
    }
}

/// View of an entry-sequence result.
pub open spec fn entry_res_view(r: Result<Vec<(Value, Value)>, Error>) -> Result<
    Seq<(ValueV, ValueV)>,
    ErrorV,
> {
    match r {
        Ok(ws) => Ok(crate::value::entry_views(ws@)),
        Err(e) => Err(err_view(e)),
    }
}

/// View of an alternation result.
pub open spec fn union_res_view(r: Result<Value, Vec<Error>>) -> Result<ValueV, Seq<ErrorV>> {
    match r {
        Ok(w) => Ok(w.deep_view()),
        Err(es) => Err(crate::errors::err_views(es@)),
    }
}

/// Whether every validator of a sequence is host-free.
pub open spec fn hf_validators(s: Seq<ValidatorV>) -> bool
    decreases s, 0int, 0int,
{
    forall|i: int| 0 <= i < s.len() ==> hf_validator(#[trigger] s[i])
}

/// Whether every named validator of a sequence is host-free.
pub open spec fn hf_named_validators(s: Seq<(Seq<char>, ValidatorV)>) -> bool
    decreases s, 0int, 0int,
{
    forall|i: int| 0 <= i < s.len() ==> hf_validator((#[trigger] s[i]).1)
}

/// Whether every constraint list of a sequence is host-free.
pub open spec fn hf_vv_groups(s: Seq<Seq<ValueValidatorV>>) -> bool
    decreases s, 0int, 0int,
{
    forall|i: int| 0 <= i < s.len() ==> hf_vvs(#[trigger] s[i])
}

/// Truthiness of a value.
pub fn truthy(x: &Value) -> (r: bool)
    ensures
        r == truthy_spec(x.deep_view()),
{
    match x {
        Value::NoneValue => false,
        Value::Bool(b) => *b,
        Value::Int(i) => *i != 0,
        Value::Float(bits) => !(*bits == 0 || *bits == 0x8000_0000_0000_0000u64),
        Value::Str(s) => s.as_str().unicode_len() > 0,
        Value::Bytes(b) => b.len() > 0,
        Value::Tuple(items) => items.len() > 0,
        Value::MutableSet(items) => items.len() > 0,
        Value::FrozenSet(items) => items.len() > 0,
        Value::Dict(entries) => entries.len() > 0,
        Value::Obj { .. } => true,
    }
}

/// The numeric value of decimal digits is never negative.
proof fn lemma_digits_val_nonneg(s: Seq<char>)
    requires
        all_digits(s),
    ensures
        digits_val(s) >= 0,
    decreases s.len(),
{
    if s.len() > 0 {
        assert(all_digits(s.drop_last())) by {
            assert(forall|i: int|
                0 <= i < s.drop_last().len() ==> s.drop_last()[i] == s[i] && is_digit(
                    #[trigger] s.drop_last()[i],
                ));
        }
        lemma_digits_val_nonneg(s.drop_last());
    }
}

/// The numeric value of a digit string dominates the value of any prefix.
proof fn lemma_digits_val_prefix(s: Seq<char>, i: int)
    requires
        all_digits(s),
        0 <= i <= s.len(),
    ensures
        digits_val(s) >= digits_val(s.take(i)),
    decreases s.len() - i,
{
    if i < s.len() {
        lemma_digits_val_prefix(s, i + 1);
        let p = s.take(i + 1);
        assert(all_digits(p)) by {
            assert(forall|j: int| 0 <= j < p.len() ==> p[j] == s[j] && is_digit(#[trigger] p[j]));
        }
        assert(p.drop_last() =~= s.take(i));
        lemma_digits_val_nonneg(p.drop_last());
        assert(digits_val(p) == digits_val(s.take(i)) * 10 + ((p.last() as u32) as int - 48));
        assert(is_digit(s[i]));
        assert(digits_val(s.take(i)) * 10 >= digits_val(s.take(i))) by {
            assert(digits_val(s.take(i)) >= 0);
        }
    } else {
        assert(s.take(i) =~= s);
    }
}

/// Parse a decimal numeral with an optional leading minus sign.
pub fn parse_int(s: &String) -> (r: Option<i64>)
    ensures
        r == int_parse_spec(s@),
{
    let st: &str = s.as_str();
    let n = st.unicode_len();
    let neg = n > 0 && st.get_char(0) == '-';
    let start: usize = if neg {
        1
    } else {
        0
    };
    if n == start {
        proof {
            if neg {
                assert(s@.drop_first().len() == 0);
            }
        }
        return None;
    }
    let ghost ds: Seq<char> = if neg {
        s@.drop_first()
    } else {
        s@
    };
    let limit: i128 = if neg {
        i64::MAX as i128 + 1
    } else {
        i64::MAX as i128
    };
    let mut acc: i128 = 0;
    let mut j: usize = start;
    while j < n
        invariant
            start <= j <= n,
            st@ == s@,
            n == s@.len(),
            start == if neg {
                1int
            } else {
                0int
            },
            neg ==> s@[0] == '-',
            !neg ==> !(s@.len() > 0 && s@[0] == '-'),
            ds == if neg {
                s@.drop_first()
            } else {
                s@
            },
            ds.len() == n - start,
            all_digits(ds.take(j - start)),
            acc == digits_val(ds.take(j - start)),
            neg ==> limit == i64::MAX + 1,
            !neg ==> limit == i64::MAX,
            0 <= acc <= limit,
        decreases n - j,
    {
        let c = st.get_char(j);
        let cu: u32 = c as u32;
        if !(48 <= cu && cu <= 57) {
            proof {
                assert(ds[j - start] == c);
                assert(!is_digit(ds[j - start]));
                assert(!all_digits(ds));
            }
            return None;
        }
        let d: i128 = (cu as i128) - 48;
        proof {
            assert(0 <= d <= 9);
        }
        let tmp: i128 = acc * 10 + d;
        proof {
            let p = ds.take(j + 1 - start);
            assert(p.drop_last() =~= ds.take(j - start));
            assert(p.last() == ds[j - start]);
            assert(ds[j - start] == c);
            assert(all_digits(p)) by {
                assert(forall|k: int|
                    0 <= k < p.len() - 1 ==> p[k] == ds.take(j - start)[k] && is_digit(
                        #[trigger] p[k],
                    ));
                assert(is_digit(p[p.len() - 1]));
            }
            assert(digits_val(p) == acc * 10 + ((c as u32) as int - 48));
        }
        if tmp > limit {
            proof {
                let taken = ds.take(j + 1 - start);
                if all_digits(ds) {
                    lemma_digits_val_prefix(ds, j + 1 - start);
                    assert(digits_val(ds) >= digits_val(taken));
                    assert(digits_val(taken) == tmp);
                }
            }
            return None;
        }
        acc = tmp;
        j = j + 1;
    }
    proof {
        assert(ds.take(j - start) =~= ds);
        assert(all_digits(ds));
        assert(acc == digits_val(ds));
        assert(ds.len() > 0);
    }
    if neg {
        let out: i64 = (-acc) as i64;
        proof {
            assert(-digits_val(ds) >= i64::MIN);
        }
        Some(out)
    } else {
        let out: i64 = acc as i64;
        Some(out)
    }
}

/// One decimal digit as text.
fn digit_str(d: u64) -> (r: &'static str)
    requires
        d < 10,
    ensures
        r@ == seq![digit_char(d as int)],
{
    proof {
        reveal_strlit("0");
        reveal_strlit("1");
        reveal_strlit("2");
        reveal_strlit("3");
        reveal_strlit("4");
        reveal_strlit("5");
        reveal_strlit("6");
        reveal_strlit("7");
        reveal_strlit("8");
        reveal_strlit("9");
    }
    if d == 0 {
        "0"
    } else if d == 1 {
        "1"
    } else if d == 2 {
        "2"
    } else if d == 3 {
        "3"
    } else if d == 4 {
        "4"
    } else if d == 5 {
        "5"
    } else if d == 6 {
        "6"
    } else if d == 7 {
        "7"
    } else if d == 8 {
        "8"
    } else {
        "9"
    }
}

/// Decimal text of a non-negative number.
fn udec(n: u64) -> (r: String)
    ensures
        r@ == udec_spec(n as int),
    decreases n,
{
    if n < 10 {
        String::from_str(digit_str(n))
    } else {
        let prefix = udec(n / 10);
        prefix.concat(digit_str(n % 10))
    }
}

/// Decimal text of an integer.
pub fn int_to_dec(n: i64) -> (r: String)
    ensures
        r@ == dec_spec(n as int),
{
    if n >= 0 {
        udec(n as u64)
    } else {
        let magnitude: u64 = if n == i64::MIN {
            0x8000_0000_0000_0000u64
        } else {
            (-n) as u64
        };
        let mut s = String::from_str("-");
        proof {
            reveal_strlit("-");
        }
        let digits = udec(magnitude);
        s.append(digits.as_str());
        proof {
            assert(s@ =~= seq!['-'] + udec_spec(magnitude as int));
        }
        s
    }
}

/// Membership of a value in a list, decided on the views.
pub fn contains_value(values: &Vec<Value>, w: &Value) -> (r: bool)
    ensures
        r == contains_val(views_of(values@), w.deep_view()),
{
    let mut i: usize = 0;
    while i < values.len()
        invariant
            i <= values.len(),
            forall|j: int| 0 <= j < i ==> views_of(values@)[j] != w.deep_view(),
        decreases values.len() - i,
    {
        if value_eq(&values[i], w) {
            proof {
                assert(views_of(values@)[i as int] == w.deep_view());
            }
            return true;
        }
        i = i + 1;
    }
    false
}

/// Instance check of one class against one named class.
pub fn is_instance_of(class_id: u64, ancestors: &Vec<u64>, t: u64) -> (r: bool)
    ensures
        r == instance_of(class_id, ancestors@, t),
{
    if class_id == t {
        return true;
    }
    let mut i: usize = 0;
    while i < ancestors.len()
        invariant
            i <= ancestors.len(),
            forall|j: int| 0 <= j < i ==> ancestors@[j] != t,
        decreases ancestors.len() - i,
    {
        if ancestors[i] == t {
            return true;
        }
        i = i + 1;
    }
    false
}

/// Instance check against any of several named classes.
pub fn is_instance_of_any(class_id: u64, ancestors: &Vec<u64>, ts: &Vec<u64>) -> (r: bool)
    ensures
        r == instance_of_any(class_id, ancestors@, ts@),
{
    let mut i: usize = 0;
    while i < ts.len()
        invariant
            i <= ts.len(),
            forall|j: int| 0 <= j < i ==> !instance_of(class_id, ancestors@, ts@[j]),
        decreases ts.len() - i,
    {
        if is_instance_of(class_id, ancestors, ts[i]) {
            return true;
        }
        i = i + 1;
    }
    false
}

/// The first value under the given name among named values, if any.
pub fn find_attr(attrs: &Vec<(String, Value)>, name: &String) -> (r: Option<Value>)
    ensures
        match r {
            Some(w) => has_attr(crate::value::attr_views(attrs@), name@) && w.deep_view()
                == lookup_attr(crate::value::attr_views(attrs@), name@),
            None => !has_attr(crate::value::attr_views(attrs@), name@),
        },
{
    let ghost av = crate::value::attr_views(attrs@);
    let mut i: usize = 0;
    while i < attrs.len()
        invariant
            i <= attrs.len(),
            av == crate::value::attr_views(attrs@),
            forall|j: int| 0 <= j < i ==> (#[trigger] av[j]).0 != name@,
        decreases attrs.len() - i,
    {
        if attrs[i].0 == *name {
            let w = attrs[i].1.clone();
            proof {
                assert(av[i as int].0 == name@);
                lemma_lookup_first_match(av, name@, i as int);
            }
            return Some(w);
        }
        proof {
            assert(av[i as int].0 == attrs@[i as int].0@);
        }
        i = i + 1;
    }
    proof {
        assert(!has_attr(av, name@));
    }
    None
}

/// When the first match in a sequence of named values sits at position `i`,
/// the lookup returns that value.
proof fn lemma_lookup_first_match(attrs: Seq<(Seq<char>, ValueV)>, name: Seq<char>, i: int)
    requires
        0 <= i < attrs.len(),
        attrs[i].0 == name,
        forall|j: int| 0 <= j < i ==> (#[trigger] attrs[j]).0 != name,
    ensures
        has_attr(attrs, name),
        lookup_attr(attrs, name) == attrs[i].1,
    decreases i,
{
    if i == 0 {
    } else {
        assert(attrs.first().0 != name);
        lemma_lookup_first_match(attrs.drop_first(), name, i - 1);
        assert(attrs.drop_first()[i - 1] == attrs[i]);
    }
}

// ---------------------------------------------------------------------------
// The executable engine.  Each operation agrees with its specification
// evaluator on every host-free validator; on validators with host callbacks
// the outcome is whatever the host returned.
// ---------------------------------------------------------------------------

/// Whether every tuple position's coercion target is host-free.
pub open spec fn hf_coerce_items(items: Seq<ValidatorV>) -> bool
    decreases items, 0int, 0int,
{
    forall|i: int| 0 <= i < items.len() ==> hf_coerce((#[trigger] items[i]).type_validator)
}

/// Whether every alternation member's own coercion policy is host-free.
pub open spec fn hf_coerce_members(members: Seq<ValidatorV>) -> bool
    decreases members, 0int, 0int,
{
    forall|i: int| 0 <= i < members.len() ==> hf_member_coerce(#[trigger] members[i])
}

impl ValueValidator {
    /// Evaluate this secondary constraint over one value.
    pub fn validate_value<H: HostCalls>(
        &self,
        ctx: &Option<ErrCtx>,
        w: &Value,
        host: &mut H,
    ) -> (r: Result<(), Error>)
        ensures
            hf_vv(vv_view(*self)) ==> unit_res_view(r) == validate_value_spec(
                vv_view(*self),
                w.deep_view(),
                ctx_view(*ctx),
            ),
        decreases self, 0int, 1int,
    {
        match self {
            ValueValidator::Values { values } => {
                if contains_value(values, w) {
                    Ok(())
                } else {
                    Err(Error::NotPermitted { value: w.clone(), ctx: clone_ctx(ctx) })
                }
            },
            ValueValidator::TupleItems { items } => match w {
                Value::Tuple(ws) => vv_tuple_items(items, ws, 0, ctx, host),
                _ => Err(
                    Error::Mismatch { expected: Expected::Tuple, value: w.clone(), ctx: clone_ctx(ctx) },
                ),
            },
            ValueValidator::SequenceItems { item } => match w {
                Value::Tuple(ws) => vv_seq_items(item, ws, 0, ctx, host),
                Value::FrozenSet(ws) => vv_seq_items(item, ws, 0, ctx, host),
                Value::MutableSet(ws) => vv_seq_items(item, ws, 0, ctx, host),
                _ => Err(
                    Error::Mismatch { expected: Expected::Tuple, value: w.clone(), ctx: clone_ctx(ctx) },
                ),
            },
            ValueValidator::CallValue { callable } => {
                let mut args: Vec<Value> = Vec::new();
                args.push(w.clone());
                match host.call_callable(callable, args) {
                    Ok(_) => Ok(()),
                    Err(e) => Err(e),
                }
            },
            ValueValidator::CallMemberObjectValue { callable } => {
                let mut args: Vec<Value> = Vec::new();
                args.push(ctx_name(ctx));
                args.push(w.clone());
                match host.call_callable(callable, args) {
                    Ok(_) => Ok(()),
                    Err(e) => Err(e),
                }
            },
            ValueValidator::ObjectMethod { meth_name } => {
                let mut args: Vec<Value> = Vec::new();
                args.push(w.clone());
                match host.call_method(meth_name, args) {
                    Ok(_) => Ok(()),
                    Err(e) => Err(e),
                }
            },
        }
    }
}

/// The owning attribute's name as a value, for host callbacks that receive
/// it; the unit value when the validator is not linked to a member.
fn ctx_name(ctx: &Option<ErrCtx>) -> Value {
    match ctx {
        Some(c) => Value::Str(c.member.clone()),
        None => Value::NoneValue,
    }
}

/// Run the value validators from position `i` in order over one value.
fn run_vvs<H: HostCalls>(
    vvs: &Vec<ValueValidator>,
    w: &Value,
    i: usize,
    ctx: &Option<ErrCtx>,
    host: &mut H,
) -> (r: Result<(), Error>)
    ensures
        hf_vvs(vv_views(vvs@)) ==> unit_res_view(r) == run_vvs_spec(
            vv_views(vvs@),
            i as int,
            w.deep_view(),
            ctx_view(*ctx),
        ),
    decreases vvs, 0int, vvs@.len() - i,
{
    if i >= vvs.len() {
        return Ok(());
    }
    match vvs[i].validate_value(ctx, w, host) {
        Err(e) => Err(e),
        Ok(u) => run_vvs(vvs, w, i + 1, ctx, host),
    }
}

/// Positional constraint lists over tuple items from position `i`.
fn vv_tuple_items<H: HostCalls>(
    items: &Vec<Vec<ValueValidator>>,
    ws: &Vec<Value>,
    i: usize,
    ctx: &Option<ErrCtx>,
    host: &mut H,
) -> (r: Result<(), Error>)
    ensures
        hf_vv_groups(vv_group_views(items@)) ==> unit_res_view(r) == vv_tuple_items_spec(
            vv_group_views(items@),
            views_of(ws@),
            i as int,
            ctx_view(*ctx),
        ),
    decreases items, 0int, items@.len() - i,
{
    if i >= items.len() || i >= ws.len() {
        return Ok(());
    }
    match run_vvs(&items[i], &ws[i], 0, ctx, host) {
        Err(e) => Err(Error::ItemInvalid { index: i, cause: Box::new(e), ctx: clone_ctx(ctx) }),
        Ok(u) => vv_tuple_items(items, ws, i + 1, ctx, host),
    }
}

/// One constraint list over every element of a sequence from position `i`.
fn vv_seq_items<H: HostCalls>(
    item: &Vec<ValueValidator>,
    ws: &Vec<Value>,
    i: usize,
    ctx: &Option<ErrCtx>,
    host: &mut H,
) -> (r: Result<(), Error>)
    ensures
        hf_vvs(vv_views(item@)) ==> unit_res_view(r) == vv_seq_items_spec(
            vv_views(item@),
            views_of(ws@),
            i as int,
            ctx_view(*ctx),
        ),
    decreases item, 1int, ws@.len() - i,
{
    if i >= ws.len() {
        return Ok(());
    }
    match run_vvs(item, &ws[i], 0, ctx, host) {
        Err(e) => Err(Error::ItemInvalid { index: i, cause: Box::new(e), ctx: clone_ctx(ctx) }),
        Ok(u) => vv_seq_items(item, ws, i + 1, ctx, host),
    }
}

impl TypeValidator {
    /// Check one value against this type contract; container results are
    /// rebuilt from their validated elements, everything else passes
    /// through.
    #[verifier::rlimit(100)]
    pub fn validate_type<H: HostCalls>(
        &self,
        ctx: &Option<ErrCtx>,
        x: &Value,
        host: &mut H,
    ) -> (r: Result<Value, Error>)
        ensures
            hf_ty(ty_view(*self)) ==> res_view(r) == validate_type_spec(
                ty_view(*self),
                x.deep_view(),
                ctx_view(*ctx),
            ),
        decreases self, 4int, 0int,
    {
        match self {
            TypeValidator::Any => Ok(x.clone()),
            TypeValidator::NoneType => match x {
                Value::NoneValue => Ok(x.clone()),
                _ => Err(
                    Error::Mismatch {
                        expected: Expected::NoneType,
                        value: x.clone(),
                        ctx: clone_ctx(ctx),
                    },
                ),
            },
            TypeValidator::Bool => match x {
                Value::Bool(_) => Ok(x.clone()),
                _ => Err(
                    Error::Mismatch {
                        expected: Expected::Bool,
                        value: x.clone(),
                        ctx: clone_ctx(ctx),
                    },
                ),
            },
            TypeValidator::Int => match x {
                Value::Int(_) => Ok(x.clone()),
                _ => Err(
                    Error::Mismatch {
                        expected: Expected::Int,
                        value: x.clone(),
                        ctx: clone_ctx(ctx),
                    },
                ),
            },
            TypeValidator::Float => match x {
                Value::Float(_) => Ok(x.clone()),
                _ => Err(
                    Error::Mismatch {
                        expected: Expected::Float,
                        value: x.clone(),
                        ctx: clone_ctx(ctx),
                    },
                ),
            },
            TypeValidator::Str => match x {
                Value::Str(_) => Ok(x.clone()),
                _ => Err(
                    Error::Mismatch {
                        expected: Expected::Str,
                        value: x.clone(),
                        ctx: clone_ctx(ctx),
                    },
                ),
            },
            TypeValidator::Bytes => match x {
                Value::Bytes(_) => Ok(x.clone()),
                _ => Err(
                    Error::Mismatch {
                        expected: Expected::Bytes,
                        value: x.clone(),
                        ctx: clone_ctx(ctx),
                    },
                ),
            },
            TypeValidator::Tuple { items } => match x {
                Value::Tuple(xs) => {
                    proof {
                        if hf_ty(ty_view(*self)) {
                            assert forall|k: int| 0 <= k < validator_views(items@).len() implies hf_validator(
                                #[trigger] validator_views(items@)[k],
                            ) by {}
                            assert(hf_validators(validator_views(items@)));
                        }
                    }
                    if xs.len() != items.len() {
                        Err(
                            Error::WrongArity {
                                expected: items.len(),
                                actual: xs.len(),
                                ctx: clone_ctx(ctx),
                            },
                        )
                    } else {
                        match validate_items(items, xs, 0, ctx, host) {
                            Err(e) => Err(e),
                            Ok(ws) => Ok(Value::Tuple(ws)),
                        }
                    }
                },
                _ => Err(
                    Error::Mismatch {
                        expected: Expected::Tuple,
                        value: x.clone(),
                        ctx: clone_ctx(ctx),
                    },
                ),
            },
            TypeValidator::VarTuple { item } => match x {
                Value::Tuple(xs) => match item {
                    None => Ok(x.clone()),
                    Some(b) => match validate_each(b, xs, 0, ctx, host) {
                        Err(e) => Err(e),
                        Ok(ws) => Ok(Value::Tuple(ws)),
                    },
                },
                _ => Err(
                    Error::Mismatch {
                        expected: Expected::Tuple,
                        value: x.clone(),
                        ctx: clone_ctx(ctx),
                    },
                ),
            },
            TypeValidator::FrozenSet { item } => match x {
                Value::FrozenSet(xs) => match item {
                    None => Ok(x.clone()),
                    Some(b) => match validate_each(b, xs, 0, ctx, host) {
                        Err(e) => Err(e),
                        Ok(ws) => Ok(Value::FrozenSet(ws)),
                    },
                },
                _ => Err(
                    Error::Mismatch {
                        expected: Expected::FrozenSet,
                        value: x.clone(),
                        ctx: clone_ctx(ctx),
                    },
                ),
            },
            TypeValidator::MutableSet { item } => match x {
                Value::MutableSet(xs) => match item {
                    None => Ok(x.clone()),
                    Some(b) => match validate_each(b, xs, 0, ctx, host) {
                        Err(e) => Err(e),
                        Ok(ws) => Ok(Value::MutableSet(ws)),
                    },
                },
                _ => Err(
                    Error::Mismatch {
                        expected: Expected::MutableSet,
                        value: x.clone(),
                        ctx: clone_ctx(ctx),
                    },
                ),
            },
            TypeValidator::Dict { items } => match x {
                Value::Dict(xs) => match items {
                    None => Ok(x.clone()),
                    Some(_) => match validate_entries(self, xs, 0, ctx, host) {
                        Err(e) => Err(e),
                        Ok(ws) => Ok(Value::Dict(ws)),
                    },
                },
                _ => Err(
                    Error::Mismatch {
                        expected: Expected::Dict,
                        value: x.clone(),
                        ctx: clone_ctx(ctx),
                    },
                ),
            },
            TypeValidator::Typed { class_id } => match x {
                Value::Obj { class_id: c, .. } => {
                    if *c == *class_id {
                        Ok(x.clone())
                    } else {
                        Err(
                            Error::Mismatch {
                                expected: Expected::Class(*class_id),
                                value: x.clone(),
                                ctx: clone_ctx(ctx),
                            },
                        )
                    }
                },
                _ => Err(
                    Error::Mismatch {
                        expected: Expected::Class(*class_id),
                        value: x.clone(),
                        ctx: clone_ctx(ctx),
                    },
                ),
            },
            TypeValidator::Instance { class_ids } => match x {
                Value::Obj { class_id: c, ancestors, .. } => {
                    if is_instance_of_any(*c, ancestors, class_ids) {
                        Ok(x.clone())
                    } else {
                        Err(
                            Error::Mismatch {
                                expected: Expected::OneOfClasses(clone_ids(class_ids)),
                                value: x.clone(),
                                ctx: clone_ctx(ctx),
                            },
                        )
                    }
                },
                _ => Err(
                    Error::Mismatch {
                        expected: Expected::OneOfClasses(clone_ids(class_ids)),
                        value: x.clone(),
                        ctx: clone_ctx(ctx),
                    },
                ),
            },
            TypeValidator::Union { members } => match union_validate(members, x, 0, ctx, host) {
                Ok(w) => Ok(w),
                Err(es) => Err(Error::UnionMismatch { causes: es, ctx: clone_ctx(ctx) }),
            },
            TypeValidator::GenericAttributes { class_id, attributes } => match x {
                Value::Obj { class_id: c, ancestors, attrs } => {
                    if *c != *class_id {
                        Err(
                            Error::Mismatch {
                                expected: Expected::Class(*class_id),
                                value: x.clone(),
                                ctx: clone_ctx(ctx),
                            },
                        )
                    } else {
                        match gattrs_check(attributes, attrs, 0, ctx, host) {
                            Err(e) => Err(e),
                            Ok(u) => Ok(x.clone()),
                        }
                    }
                },
                _ => Err(
                    Error::Mismatch {
                        expected: Expected::Class(*class_id),
                        value: x.clone(),
                        ctx: clone_ctx(ctx),
                    },
                ),
            },
            TypeValidator::ForwardValidator { late_validator } => match &late_validator.cell {
                None => Err(Error::UnresolvedForward { name: late_validator.expr.clone() }),
                Some(Err(e)) => Err((**e).clone()),
                Some(Ok(b)) => b.validate_type(ctx, x, host),
            },
        }
    }
}

/// Positional validation of tuple items from position `i`.
fn validate_items<H: HostCalls>(
    items: &Vec<Validator>,
    xs: &Vec<Value>,
    i: usize,
    ctx: &Option<ErrCtx>,
    host: &mut H,
) -> (r: Result<Vec<Value>, Error>)
    ensures
        hf_validators(validator_views(items@)) ==> seq_res_view(r) == validate_items_spec(
            validator_views(items@),
            views_of(xs@),
            i as int,
            ctx_view(*ctx),
        ),
    decreases items, 0int, items@.len() - i,
{
    if i >= items.len() || i >= xs.len() {
        let out: Vec<Value> = Vec::new();
        proof {
            assert(views_of(out@) =~= Seq::<ValueV>::empty());
        }
        return Ok(out);
    }
    match items[i].validate(ctx, &xs[i], host) {
        Err(e) => Err(Error::ItemInvalid { index: i, cause: Box::new(e), ctx: clone_ctx(ctx) }),
        Ok(w) => match validate_items(items, xs, i + 1, ctx, host) {
            Err(e) => Err(e),
            Ok(mut ws) => {
                let ghost ows = ws@;
                ws.insert(0, w);
                proof {
                    assert(views_of(ws@) =~= seq![w.deep_view()] + views_of(ows));
                }
                Ok(ws)
            },
        },
    }
}

/// Homogeneous validation of every element from position `i`.
fn validate_each<H: HostCalls>(
    it: &Validator,
    xs: &Vec<Value>,
    i: usize,
    ctx: &Option<ErrCtx>,
    host: &mut H,
) -> (r: Result<Vec<Value>, Error>)
    ensures
        hf_validator(validator_view(*it)) ==> seq_res_view(r) == validate_each_spec(
            validator_view(*it),
            views_of(xs@),
            i as int,
            ctx_view(*ctx),
        ),
    decreases it, 1int, xs@.len() - i,
{
    if i >= xs.len() {
        let out: Vec<Value> = Vec::new();
        proof {
            assert(views_of(out@) =~= Seq::<ValueV>::empty());
        }
        return Ok(out);
    }
    match it.validate(ctx, &xs[i], host) {
        Err(e) => Err(Error::ItemInvalid { index: i, cause: Box::new(e), ctx: clone_ctx(ctx) }),
        Ok(w) => match validate_each(it, xs, i + 1, ctx, host) {
            Err(e) => Err(e),
            Ok(mut ws) => {
                let ghost ows = ws@;
                ws.insert(0, w);
                proof {
                    assert(views_of(ws@) =~= seq![w.deep_view()] + views_of(ows));
                }
                Ok(ws)
            },
        },
    }
}

/// Validation of mapping entries from position `i` under the key and value
/// validators of the given mapping target.
fn validate_entries<H: HostCalls>(
    t: &TypeValidator,
    xs: &Vec<(Value, Value)>,
    i: usize,
    ctx: &Option<ErrCtx>,
    host: &mut H,
) -> (r: Result<Vec<(Value, Value)>, Error>)
    ensures
        hf_ty(ty_view(*t)) ==> entry_res_view(r) == validate_entries_spec(
            ty_view(*t),
            crate::value::entry_views(xs@),
            i as int,
            ctx_view(*ctx),
        ),
    decreases t, 3int, xs@.len() - i,
{
    match t {
        TypeValidator::Dict { items: Some((kv, vv)) } => {
            if i >= xs.len() {
                let out: Vec<(Value, Value)> = Vec::new();
                proof {
                    assert(crate::value::entry_views(out@) =~= Seq::<(ValueV, ValueV)>::empty());
                }
                return Ok(out);
            }
            match kv.validate(ctx, &xs[i].0, host) {
                Err(e) => Err(
                    Error::KeyInvalid {
                        key: xs[i].0.clone(),
                        cause: Box::new(e),
                        ctx: clone_ctx(ctx),
                    },
                ),
                Ok(wk) => match vv.validate(ctx, &xs[i].1, host) {
                    Err(e) => Err(
                        Error::EntryInvalid {
                            key: xs[i].0.clone(),
                            cause: Box::new(e),
                            ctx: clone_ctx(ctx),
                        },
                    ),
                    Ok(wv) => match validate_entries(t, xs, i + 1, ctx, host) {
                        Err(e) => Err(e),
                        Ok(mut ws) => {
                            let ghost ows = ws@;
                            ws.insert(0, (wk, wv));
                            proof {
                                assert(crate::value::entry_views(ws@) =~= seq![
                                    (ws@[0].0.deep_view(), ws@[0].1.deep_view()),
                                ] + crate::value::entry_views(ows));
                            }
                            Ok(ws)
                        },
                    },
                },
            }
        },
        _ => {
            let out: Vec<(Value, Value)> = Vec::new();
            proof {
                assert(crate::value::entry_views(out@) =~= Seq::<(ValueV, ValueV)>::empty());
            }
            Ok(out)
        },
    }
}

/// Ordered alternation from position `i`.
fn union_validate<H: HostCalls>(
    members: &Vec<Validator>,
    x: &Value,
    i: usize,
    ctx: &Option<ErrCtx>,
    host: &mut H,
) -> (r: Result<Value, Vec<Error>>)
    ensures
        hf_validators(validator_views(members@)) ==> union_res_view(r) == union_spec(
            validator_views(members@),
            x.deep_view(),
            i as int,
            ctx_view(*ctx),
        ),
    decreases members, 0int, members@.len() - i,
{
    if i >= members.len() {
        let out: Vec<Error> = Vec::new();
        proof {
            assert(crate::errors::err_views(out@) =~= Seq::<ErrorV>::empty());
        }
        return Err(out);
    }
    match members[i].validate(ctx, x, host) {
        Ok(w) => Ok(w),
        Err(e) => match union_validate(members, x, i + 1, ctx, host) {
            Ok(w) => Ok(w),
            Err(mut es) => {
                let ghost oes = es@;
                es.insert(0, e);
                proof {
                    assert(crate::errors::err_views(es@) =~= seq![err_view(es@[0])]
                        + crate::errors::err_views(oes));
                }
                Err(es)
            },
        },
    }
}

/// Strict validation of named attributes of a nominal object from position
/// `i`.
fn gattrs_check<H: HostCalls>(
    attributes: &Vec<(String, Validator)>,
    obj_attrs: &Vec<(String, Value)>,
    i: usize,
    ctx: &Option<ErrCtx>,
    host: &mut H,
) -> (r: Result<(), Error>)
    ensures
        hf_named_validators(named_validator_views(attributes@)) ==> unit_res_view(r) == gattrs_spec(
            named_validator_views(attributes@),
            crate::value::attr_views(obj_attrs@),
            i as int,
            ctx_view(*ctx),
        ),
    decreases attributes, 0int, attributes@.len() - i,
{
    if i >= attributes.len() {
        return Ok(());
    }
    match find_attr(obj_attrs, &attributes[i].0) {
        None => Err(Error::MissingAttr { attr: attributes[i].0.clone(), ctx: clone_ctx(ctx) }),
        Some(w) => match attributes[i].1.strict_validate(ctx, &w, host) {
            Err(e) => Err(
                Error::AttrInvalid {
                    attr: attributes[i].0.clone(),
                    cause: Box::new(e),
                    ctx: clone_ctx(ctx),
                },
            ),
            Ok(u) => gattrs_check(attributes, obj_attrs, i + 1, ctx, host),
        },
    }
}

impl Validator {
    /// Full validation of one value: strict validation, then the
    /// assignment-time coercer as fallback when one is configured.
    pub fn validate<H: HostCalls>(
        &self,
        ctx: &Option<ErrCtx>,
        x: &Value,
        host: &mut H,
    ) -> (r: Result<Value, Error>)
        ensures
            hf_validator(validator_view(*self)) ==> res_view(r) == validate_spec(
                validator_view(*self),
                x.deep_view(),
                ctx_view(*ctx),
            ),
        decreases self, 0int, 2int,
    {
        match self.strict_validate(ctx, x, host) {
            Ok(w) => Ok(w),
            Err(e) => match &self.coercer {
                Some(c) => c.coerce_value(false, &self.type_validator, ctx, x, host),
                None => Err(e),
            },
        }
    }

    /// Strict validation of one value: the type validator, then every value
    /// validator in declared order.
    pub fn strict_validate<H: HostCalls>(
        &self,
        ctx: &Option<ErrCtx>,
        x: &Value,
        host: &mut H,
    ) -> (r: Result<Value, Error>)
        ensures
            hf_validator(validator_view(*self)) ==> res_view(r) == strict_validate_spec(
                validator_view(*self),
                x.deep_view(),
                ctx_view(*ctx),
            ),
        decreases self, 0int, 1int,
    {
        match self.type_validator.validate_type(ctx, x, host) {
            Err(e) => Err(e),
            Ok(w) => match run_vvs(&self.value_validators, &w, 0, ctx, host) {
                Err(e) => Err(e),
                Ok(u) => Ok(w),
            },
        }
    }

    /// Apply this validator's own coercion policy for the given phase.
    pub fn coerce_value<H: HostCalls>(
        &self,
        is_init: bool,
        ctx: &Option<ErrCtx>,
        x: &Value,
        host: &mut H,
    ) -> (r: Result<Value, Error>)
        ensures
            hf_member_coerce(validator_view(*self)) ==> res_view(r) == member_coerce_spec(
                validator_view(*self),
                is_init,
                x.deep_view(),
                ctx_view(*ctx),
            ),
        decreases self, 0int, 1int,
    {
        let c = if is_init {
            &self.init_coercer
        } else {
            &self.coercer
        };
        match c {
            None => Err(Error::NoCoercer { ctx: clone_ctx(ctx) }),
            Some(cc) => cc.coerce_value(is_init, &self.type_validator, ctx, x, host),
        }
    }
}

impl Coercer {
    /// Apply this coercer to one value for the given target.
    pub fn coerce_value<H: HostCalls>(
        &self,
        is_init: bool,
        tv: &TypeValidator,
        ctx: &Option<ErrCtx>,
        x: &Value,
        host: &mut H,
    ) -> (r: Result<Value, Error>)
        ensures
            (co_view(*self) is TypeInferred && hf_coerce(ty_view(*tv))) ==> res_view(r)
                == coerce_spec(
                co_view(*self),
                ty_view(*tv),
                is_init,
                x.deep_view(),
                ctx_view(*ctx),
            ),
            (co_view(*self) is TypeInferred && ty_view(*tv) is Int) ==> (match x.deep_view() {
                ValueV::Bool(b) => res_view(r) == Ok::<ValueV, ErrorV>(
                    ValueV::Int(if b { 1i64 } else { 0i64 }),
                ),
                ValueV::Int(_) => res_view(r) == Ok::<ValueV, ErrorV>(x.deep_view()),
                ValueV::Str(s) => (match int_parse_spec(s) {
                    Some(n) => res_view(r) == Ok::<ValueV, ErrorV>(ValueV::Int(n)),
                    None => true,
                }),
                _ => true,
            }),
            (co_view(*self) is TypeInferred && ty_view(*tv) is Str) ==> (match x.deep_view() {
                ValueV::Str(_) => res_view(r) == Ok::<ValueV, ErrorV>(x.deep_view()),
                ValueV::Bool(b) => res_view(r) == Ok::<ValueV, ErrorV>(ValueV::Str(bool_text(b))),
                ValueV::Int(i) => res_view(r) == Ok::<ValueV, ErrorV>(
                    ValueV::Str(dec_spec(i as int)),
                ),
                _ => true,
            }),
            (co_view(*self) is TypeInferred && ty_view(*tv) is Bytes) ==> (match x.deep_view() {
                ValueV::Bytes(_) => res_view(r) == Ok::<ValueV, ErrorV>(x.deep_view()),
                ValueV::Int(n) => ((n >= 0 && n as int <= usize::MAX as int) ==> res_view(r)
                    == Ok::<ValueV, ErrorV>(ValueV::Bytes(zero_bytes(n as int)))),
                _ => true,
            }),
            (co_view(*self) is TypeInferred && ty_view(*tv) is Float && x.deep_view() is Float)
                ==> res_view(r) == Ok::<ValueV, ErrorV>(x.deep_view()),
        decreases tv, 2int, 0int,
    {
        match self {
            Coercer::TypeInferred => ti_coerce(tv, is_init, ctx, x, host),
            Coercer::CallValue { callable } => {
                let mut args: Vec<Value> = Vec::new();
                args.push(x.clone());
                host.call_callable(callable, args)
            },
            Coercer::CallNameObjectValueInit { callable } => {
                let mut args: Vec<Value> = Vec::new();
                args.push(ctx_name(ctx));
                args.push(x.clone());
                args.push(Value::Bool(is_init));
                host.call_callable(callable, args)
            },
            Coercer::ObjectMethod { meth_name } => {
                let mut args: Vec<Value> = Vec::new();
                args.push(ctx_name(ctx));
                args.push(x.clone());
                args.push(Value::Bool(is_init));
                host.call_method(meth_name, args)
            },
        }
    }
}

/// Structural, type-driven conversion toward the given target: the exactly
/// statable conversions (truthiness, integers from truth values and decimal
/// numerals, text from truth values and integers, zero-filled byte runs,
/// identity, containers elementwise) are performed here and pinned by the
/// clauses below; every other conversion is the host constructor's business
/// and its outcome passes through unchanged.
#[verifier::rlimit(100)]
fn ti_coerce<H: HostCalls>(
    tv: &TypeValidator,
    is_init: bool,
    ctx: &Option<ErrCtx>,
    x: &Value,
    host: &mut H,
) -> (r: Result<Value, Error>)
    ensures
        hf_coerce(ty_view(*tv)) ==> res_view(r) == ti_coerce_spec(
            ty_view(*tv),
            is_init,
            x.deep_view(),
            ctx_view(*ctx),
        ),
        ty_view(*tv) is Int ==> (match x.deep_view() {
            ValueV::Bool(b) => res_view(r) == Ok::<ValueV, ErrorV>(
                ValueV::Int(if b { 1i64 } else { 0i64 }),
            ),
            ValueV::Int(_) => res_view(r) == Ok::<ValueV, ErrorV>(x.deep_view()),
            ValueV::Str(s) => (match int_parse_spec(s) {
                Some(n) => res_view(r) == Ok::<ValueV, ErrorV>(ValueV::Int(n)),
                None => true,
            }),
            _ => true,
        }),
        ty_view(*tv) is Str ==> (match x.deep_view() {
            ValueV::Str(_) => res_view(r) == Ok::<ValueV, ErrorV>(x.deep_view()),
            ValueV::Bool(b) => res_view(r) == Ok::<ValueV, ErrorV>(ValueV::Str(bool_text(b))),
            ValueV::Int(i) => res_view(r) == Ok::<ValueV, ErrorV>(ValueV::Str(dec_spec(i as int))),
            _ => true,
        }),
        ty_view(*tv) is Bytes ==> (match x.deep_view() {
            ValueV::Bytes(_) => res_view(r) == Ok::<ValueV, ErrorV>(x.deep_view()),
            ValueV::Int(n) => ((n >= 0 && n as int <= usize::MAX as int) ==> res_view(r) == Ok::<
                ValueV,
                ErrorV,
            >(ValueV::Bytes(zero_bytes(n as int)))),
            _ => true,
        }),
        (ty_view(*tv) is Float && x.deep_view() is Float) ==> res_view(r) == Ok::<ValueV, ErrorV>(
            x.deep_view(),
        ),
    decreases tv, 1int, 0int,
{
    match tv {
        TypeValidator::Any => Ok(x.clone()),
        TypeValidator::NoneType => Err(Error::CannotCoerce { ctx: clone_ctx(ctx) }),
        TypeValidator::Bool => Ok(Value::Bool(truthy(x))),
        TypeValidator::Int => match x {
            Value::Bool(b) => Ok(Value::Int(if *b { 1i64 } else { 0i64 })),
            Value::Int(_) => Ok(x.clone()),
            Value::Str(s) => match parse_int(s) {
                Some(n) => Ok(Value::Int(n)),
                None => host.construct_primitive(PrimitiveTarget::Int, x),
            },
            Value::NoneValue => Err(Error::CannotCoerce { ctx: clone_ctx(ctx) }),
            Value::Tuple(_) => Err(Error::CannotCoerce { ctx: clone_ctx(ctx) }),
            Value::MutableSet(_) => Err(Error::CannotCoerce { ctx: clone_ctx(ctx) }),
            Value::FrozenSet(_) => Err(Error::CannotCoerce { ctx: clone_ctx(ctx) }),
            Value::Dict(_) => Err(Error::CannotCoerce { ctx: clone_ctx(ctx) }),
            _ => host.construct_primitive(PrimitiveTarget::Int, x),
        },
        TypeValidator::Float => match x {
            Value::Float(_) => Ok(x.clone()),
            _ => host.construct_primitive(PrimitiveTarget::Float, x),
        },
        TypeValidator::Str => match x {
            Value::Str(_) => Ok(x.clone()),
            Value::Bool(b) => {
                let s = String::from_str(
                    if *b {
                        "True"
                    } else {
                        "False"
                    },
                );
                proof {
                    reveal_strlit("True");
                    reveal_strlit("False");
                    assert(s@ =~= bool_text(*b));
                }
                Ok(Value::Str(s))
            },
            Value::Int(i) => Ok(Value::Str(int_to_dec(*i))),
            _ => host.construct_primitive(PrimitiveTarget::Str, x),
        },
        TypeValidator::Bytes => match x {
            Value::Bytes(_) => Ok(x.clone()),
            Value::Int(n) => {
                if *n >= 0 && (*n as u64) <= (usize::MAX as u64) {
                    let count = *n as usize;
                    let mut out: Vec<u8> = Vec::new();
                    let mut z: usize = 0;
                    while z < count
                        invariant
                            z <= count,
                            out@.len() == z,
                            forall|j: int| 0 <= j < z ==> out@[j] == 0u8,
                        decreases count - z,
                    {
                        out.push(0u8);
                        z = z + 1;
                    }
                    proof {
                        assert(out@ =~= zero_bytes(count as int));
                    }
                    Ok(Value::Bytes(out))
                } else {
                    Err(Error::CannotCoerce { ctx: clone_ctx(ctx) })
                }
            },
            Value::NoneValue => Err(Error::CannotCoerce { ctx: clone_ctx(ctx) }),
            Value::Str(_) => Err(Error::CannotCoerce { ctx: clone_ctx(ctx) }),
            Value::Float(_) => Err(Error::CannotCoerce { ctx: clone_ctx(ctx) }),
            _ => host.construct_primitive(PrimitiveTarget::Bytes, x),
        },
        TypeValidator::Tuple { items } => match x {
            Value::Tuple(xs) => {
                proof {
                    if hf_coerce(ty_view(*tv)) {
                        assert forall|k: int| 0 <= k < validator_views(items@).len() implies hf_coerce(
                            (#[trigger] validator_views(items@)[k]).type_validator,
                        ) by {}
                        assert(hf_coerce_items(validator_views(items@)));
                    }
                }
                if xs.len() != items.len() {
                    Err(
                        Error::WrongArity {
                            expected: items.len(),
                            actual: xs.len(),
                            ctx: clone_ctx(ctx),
                        },
                    )
                } else {
                    match coerce_items(items, xs, 0, is_init, ctx, host) {
                        Err(e) => Err(e),
                        Ok(ws) => Ok(Value::Tuple(ws)),
                    }
                }
            },
            _ => Err(Error::CannotCoerce { ctx: clone_ctx(ctx) }),
        },
        TypeValidator::VarTuple { item } => match x {
            Value::Tuple(xs) => match item {
                None => Ok(x.clone()),
                Some(b) => {
                    proof {
                        assert(validator_view(**b).type_validator == ty_view((**b).type_validator));
                    }
                    match coerce_each(&b.type_validator, xs, 0, is_init, ctx, host) {
                        Err(e) => Err(e),
                        Ok(ws) => Ok(Value::Tuple(ws)),
                    }
                },
            },
            _ => Err(Error::CannotCoerce { ctx: clone_ctx(ctx) }),
        },
        TypeValidator::FrozenSet { item } => match x {
            Value::Tuple(xs) => match item {
                None => Ok(Value::FrozenSet(clone_values(xs))),
                Some(b) => {
                    proof {
                        assert(validator_view(**b).type_validator == ty_view((**b).type_validator));
                    }
                    match coerce_each(&b.type_validator, xs, 0, is_init, ctx, host) {
                        Err(e) => Err(e),
                        Ok(ws) => Ok(Value::FrozenSet(ws)),
                    }
                },
            },
            _ => Err(Error::CannotCoerce { ctx: clone_ctx(ctx) }),
        },
        TypeValidator::MutableSet { item } => match x {
            Value::Tuple(xs) => match item {
                None => Ok(Value::MutableSet(clone_values(xs))),
                Some(b) => {
                    proof {
                        assert(validator_view(**b).type_validator == ty_view((**b).type_validator));
                    }
                    match coerce_each(&b.type_validator, xs, 0, is_init, ctx, host) {
                        Err(e) => Err(e),
                        Ok(ws) => Ok(Value::MutableSet(ws)),
                    }
                },
            },
            _ => Err(Error::CannotCoerce { ctx: clone_ctx(ctx) }),
        },
        TypeValidator::Dict { items } => match x {
            Value::Dict(xs) => match items {
                None => Ok(x.clone()),
                Some(_) => match coerce_entries(tv, xs, 0, is_init, ctx, host) {
                    Err(e) => Err(e),
                    Ok(ws) => Ok(Value::Dict(ws)),
                },
            },
            _ => host.construct_primitive(PrimitiveTarget::Dict, x),
        },
        TypeValidator::Typed { class_id } => {
            let mut args: Vec<Value> = Vec::new();
            args.push(x.clone());
            let kwargs: Vec<(String, Value)> = Vec::new();
            host.construct(*class_id, &args, &kwargs)
        },
        TypeValidator::Instance { class_ids } => {
            if class_ids.len() == 0 {
                Err(Error::CannotCoerce { ctx: clone_ctx(ctx) })
            } else {
                let mut args: Vec<Value> = Vec::new();
                args.push(x.clone());
                let kwargs: Vec<(String, Value)> = Vec::new();
                host.construct(class_ids[0], &args, &kwargs)
            }
        },
        TypeValidator::Union { members } => match coerce_union(members, x, 0, is_init, ctx, host) {
            Ok(w) => Ok(w),
            Err(es) => Err(Error::UnionMismatch { causes: es, ctx: clone_ctx(ctx) }),
        },
        TypeValidator::GenericAttributes { class_id, .. } => {
            let mut args: Vec<Value> = Vec::new();
            args.push(x.clone());
            let kwargs: Vec<(String, Value)> = Vec::new();
            host.construct(*class_id, &args, &kwargs)
        },
        TypeValidator::ForwardValidator { late_validator } => match &late_validator.cell {
            None => Err(Error::UnresolvedForward { name: late_validator.expr.clone() }),
            Some(Err(e)) => Err((**e).clone()),
            Some(Ok(b)) => ti_coerce(b, is_init, ctx, x, host),
        },
    }
}

/// Positional structural coercion of tuple items from position `i`.
fn coerce_items<H: HostCalls>(
    items: &Vec<Validator>,
    xs: &Vec<Value>,
    i: usize,
    is_init: bool,
    ctx: &Option<ErrCtx>,
    host: &mut H,
) -> (r: Result<Vec<Value>, Error>)
    ensures
        hf_coerce_items(validator_views(items@)) ==> seq_res_view(r) == coerce_items_spec(
            validator_views(items@),
            is_init,
            views_of(xs@),
            i as int,
            ctx_view(*ctx),
        ),
    decreases items, 0int, items@.len() - i,
{
    if i >= items.len() || i >= xs.len() {
        let out: Vec<Value> = Vec::new();
        proof {
            assert(views_of(out@) =~= Seq::<ValueV>::empty());
        }
        return Ok(out);
    }
    match ti_coerce(&items[i].type_validator, is_init, ctx, &xs[i], host) {
        Err(e) => Err(e),
        Ok(w) => match coerce_items(items, xs, i + 1, is_init, ctx, host) {
            Err(e) => Err(e),
            Ok(mut ws) => {
                let ghost ows = ws@;
                ws.insert(0, w);
                proof {
                    assert(views_of(ws@) =~= seq![w.deep_view()] + views_of(ows));
                }
                Ok(ws)
            },
        },
    }
}

/// Homogeneous structural coercion of every element from position `i`.
fn coerce_each<H: HostCalls>(
    it: &TypeValidator,
    xs: &Vec<Value>,
    i: usize,
    is_init: bool,
    ctx: &Option<ErrCtx>,
    host: &mut H,
) -> (r: Result<Vec<Value>, Error>)
    ensures
        hf_coerce(ty_view(*it)) ==> seq_res_view(r) == coerce_each_spec(
            ty_view(*it),
            is_init,
            views_of(xs@),
            i as int,
            ctx_view(*ctx),
        ),
    decreases it, 2int, xs@.len() - i,
{
    if i >= xs.len() {
        let out: Vec<Value> = Vec::new();
        proof {
            assert(views_of(out@) =~= Seq::<ValueV>::empty());
        }
        return Ok(out);
    }
    match ti_coerce(it, is_init, ctx, &xs[i], host) {
        Err(e) => Err(e),
        Ok(w) => match coerce_each(it, xs, i + 1, is_init, ctx, host) {
            Err(e) => Err(e),
            Ok(mut ws) => {
                let ghost ows = ws@;
                ws.insert(0, w);
                proof {
                    assert(views_of(ws@) =~= seq![w.deep_view()] + views_of(ows));
                }
                Ok(ws)
            },
        },
    }
}

/// Structural coercion of mapping entries from position `i` under the key
/// and value validators of the given mapping target.
#[verifier::rlimit(100)]
fn coerce_entries<H: HostCalls>(
    t: &TypeValidator,
    xs: &Vec<(Value, Value)>,
    i: usize,
    is_init: bool,
    ctx: &Option<ErrCtx>,
    host: &mut H,
) -> (r: Result<Vec<(Value, Value)>, Error>)
    ensures
        hf_coerce(ty_view(*t)) ==> entry_res_view(r) == coerce_entries_spec(
            ty_view(*t),
            is_init,
            crate::value::entry_views(xs@),
            i as int,
            ctx_view(*ctx),
        ),
    decreases t, 0int, xs@.len() - i,
{
    let ghost tvv = ty_view(*t);
    let ghost xsv = crate::value::entry_views(xs@);
    let ghost cv = ctx_view(*ctx);
    match t {
        TypeValidator::Dict { items: Some((kv, vv)) } => {
            if i >= xs.len() {
                let out: Vec<(Value, Value)> = Vec::new();
                proof {
                    assert(crate::value::entry_views(out@) =~= Seq::<(ValueV, ValueV)>::empty());
                    if hf_coerce(tvv) {
                        assert(entry_res_view(Ok::<Vec<(Value, Value)>, Error>(out))
                            == coerce_entries_spec(tvv, is_init, xsv, i as int, cv));
                    }
                }
                return Ok(out);
            }
            proof {
                assert(xsv[i as int].0 == xs@[i as int].0.deep_view());
                assert(validator_view(**kv).type_validator == ty_view((**kv).type_validator));
                assert(validator_view(**vv).type_validator == ty_view((**vv).type_validator));
                if hf_coerce(tvv) {
                    assert(hf_coerce(ty_view(kv.type_validator)));
                }
            }
            match ti_coerce(&kv.type_validator, is_init, ctx, &xs[i].0, host) {
                Err(e) => {
                    proof {
                        if hf_coerce(tvv) {
                            assert(entry_res_view(Err::<Vec<(Value, Value)>, Error>(e))
                                == coerce_entries_spec(tvv, is_init, xsv, i as int, cv));
                        }
                    }
                    Err(e)
                },
                Ok(wk) => match ti_coerce(&vv.type_validator, is_init, ctx, &xs[i].1, host) {
                    Err(e) => Err(e),
                    Ok(wv) => match coerce_entries(t, xs, i + 1, is_init, ctx, host) {
                        Err(e) => Err(e),
                        Ok(mut ws) => {
                            let ghost ows = ws@;
                            ws.insert(0, (wk, wv));
                            proof {
                                assert(crate::value::entry_views(ws@) =~= seq![
                                    (ws@[0].0.deep_view(), ws@[0].1.deep_view()),
                                ] + crate::value::entry_views(ows));
                                if hf_coerce(tvv) {
                                    assert(entry_res_view(Ok::<Vec<(Value, Value)>, Error>(ws))
                                        == coerce_entries_spec(tvv, is_init, xsv, i as int, cv));
                                }
                            }
                            Ok(ws)
                        },
                    },
                },
            }
        },
        _ => {
            let out: Vec<(Value, Value)> = Vec::new();
            proof {
                assert(crate::value::entry_views(out@) =~= Seq::<(ValueV, ValueV)>::empty());
                if hf_coerce(tvv) {
                    assert(entry_res_view(Ok::<Vec<(Value, Value)>, Error>(out))
                        == coerce_entries_spec(tvv, is_init, xsv, i as int, cv));
                }
            }
            Ok(out)
        },
    }
}

/// Structural coercion through an alternation from position `i`.
fn coerce_union<H: HostCalls>(
    members: &Vec<Validator>,
    x: &Value,
    i: usize,
    is_init: bool,
    ctx: &Option<ErrCtx>,
    host: &mut H,
) -> (r: Result<Value, Vec<Error>>)
    ensures
        hf_coerce_members(validator_views(members@)) ==> union_res_view(r) == coerce_union_spec(
            validator_views(members@),
            is_init,
            x.deep_view(),
            i as int,
            ctx_view(*ctx),
        ),
    decreases members, 0int, members@.len() - i,
{
    if i >= members.len() {
        let out: Vec<Error> = Vec::new();
        proof {
            assert(crate::errors::err_views(out@) =~= Seq::<ErrorV>::empty());
        }
        return Err(out);
    }
    match members[i].coerce_value(is_init, ctx, x, host) {
        Ok(w) => Ok(w),
        Err(e) => match coerce_union(members, x, i + 1, is_init, ctx, host) {
            Ok(w) => Ok(w),
            Err(mut es) => {
                let ghost oes = es@;
                es.insert(0, e);
                proof {
                    assert(crate::errors::err_views(es@) =~= seq![err_view(es@[0])]
                        + crate::errors::err_views(oes));
                }
                Err(es)
            },
        },
    }
}

// ---------------------------------------------------------------------------
// Construction, cloning and the deferred-resolution protocol.
// ---------------------------------------------------------------------------

/// View of a memo cell.
pub open spec fn cell_view(c: Option<Result<Box<TypeValidator>, Box<Error>>>) -> Option<
    Result<Box<TypeValidatorV>, Box<ErrorV>>,
> {
    match c {
        None => None,
        Some(Ok(b)) => Some(Ok(Box::new(ty_view(*b)))),
        Some(Err(e)) => Some(Err(Box::new(err_view(*e)))),
    }
}

impl LateResolvedValidator {
    /// A fresh deferred contract: nothing resolved yet.
    pub fn new(name: String, expr: String) -> (r: Self)
        ensures
            r.name@ == name@,
            r.expr@ == expr@,
            r.cell is None,
    {
        LateResolvedValidator { name, expr, cell: None }
    }

    /// Hand back the host's resolution outcome, exactly once: the first
    /// outcome is memoized, success and failure alike, and every later call
    /// leaves the memo untouched.
    pub fn resolve(&mut self, outcome: Result<TypeValidator, Error>)
        ensures
            final(self).name@ == old(self).name@,
            final(self).expr@ == old(self).expr@,
            old(self).cell is Some ==> cell_view(final(self).cell) == cell_view(old(self).cell),
            old(self).cell is None ==> cell_view(final(self).cell) == (match outcome {
                Ok(t) => Some(Ok(Box::new(ty_view(t)))),
                Err(e) => Some(Err(Box::new(err_view(e)))),
            }),
    {
        if self.cell.is_none() {
            self.cell = Some(
                match outcome {
                    Ok(t) => Ok(Box::new(t)),
                    Err(e) => Err(Box::new(e)),
                },
            );
        }
    }

    /// The resolved type contract, the cached failure, or a report that the
    /// host has not resolved the expression yet.
    pub fn get_validator(&self) -> (r: Result<&TypeValidator, Error>)
        ensures
            match r {
                Ok(t) => self.cell matches Some(Ok(b)) && ty_view(*t) == ty_view(*b),
                Err(e) => match self.cell {
                    None => err_view(e) == (ErrorV::UnresolvedForward { name: self.expr@ }),
                    Some(Err(c)) => err_view(e) == err_view(*c),
                    Some(Ok(_)) => false,
                },
            },
    {
        match &self.cell {
            None => Err(Error::UnresolvedForward { name: self.expr.clone() }),
            Some(Err(e)) => Err((**e).clone()),
            Some(Ok(b)) => Ok(b),
        }
    }
}

impl Clone for Coercer {
    /// A clone denotes the same coercer: the views agree.
    fn clone(&self) -> (res: Self)
        ensures
            co_view(res) == co_view(*self),
    {
        match self {
            Coercer::TypeInferred => Coercer::TypeInferred,
            Coercer::CallValue { callable } => Coercer::CallValue { callable: *callable },
            Coercer::CallNameObjectValueInit { callable } => Coercer::CallNameObjectValueInit {
                callable: *callable,
            },
            Coercer::ObjectMethod { meth_name } => Coercer::ObjectMethod {
                meth_name: meth_name.clone(),
            },
        }
    }
}

/// Clone an optional coercer.
pub fn clone_opt_coercer(c: &Option<Coercer>) -> (res: Option<Coercer>)
    ensures
        opt_co_view(res) == opt_co_view(*c),
{
    match c {
        None => None,
        Some(cc) => Some(cc.clone()),
    }
}

impl Clone for ValueValidator {
    /// A clone denotes the same constraint: the views agree.
    fn clone(&self) -> (res: Self)
        ensures
            vv_view(res) == vv_view(*self),
        decreases self, 2int,
    {
        match self {
            ValueValidator::Values { values } => ValueValidator::Values {
                values: clone_values(values),
            },
            ValueValidator::TupleItems { items } => ValueValidator::TupleItems {
                items: clone_vv_groups(items),
            },
            ValueValidator::SequenceItems { item } => ValueValidator::SequenceItems {
                item: clone_vvs(item),
            },
            ValueValidator::CallValue { callable } => ValueValidator::CallValue {
                callable: *callable,
            },
            ValueValidator::CallMemberObjectValue { callable } => ValueValidator::CallMemberObjectValue {
                callable: *callable,
            },
            ValueValidator::ObjectMethod { meth_name } => ValueValidator::ObjectMethod {
                meth_name: meth_name.clone(),
            },
        }
    }
}

/// Clone a list of value validators.
pub fn clone_vvs(vvs: &Vec<ValueValidator>) -> (res: Vec<ValueValidator>)
    ensures
        vv_views(res@) == vv_views(vvs@),
    decreases vvs, 1int,
{
    let mut out: Vec<ValueValidator> = Vec::new();
    let mut i: usize = 0;
    while i < vvs.len()
        invariant
            i <= vvs.len(),
            out@.len() == i,
            forall|j: int| 0 <= j < i ==> vv_views(out@)[j] == vv_views(vvs@)[j],
        decreases vvs@.len() - i,
    {
        out.push(vvs[i].clone());
        i = i + 1;
    }
    proof {
        assert(vv_views(out@) =~= vv_views(vvs@));
    }
    out
}

/// Clone a list of value-validator lists.
pub fn clone_vv_groups(items: &Vec<Vec<ValueValidator>>) -> (res: Vec<Vec<ValueValidator>>)
    ensures
        vv_group_views(res@) == vv_group_views(items@),
    decreases items, 1int,
{
    let mut out: Vec<Vec<ValueValidator>> = Vec::new();
    let mut i: usize = 0;
    while i < items.len()
        invariant
            i <= items.len(),
            out@.len() == i,
            forall|j: int| 0 <= j < i ==> vv_group_views(out@)[j] == vv_group_views(items@)[j],
        decreases items@.len() - i,
    {
        out.push(clone_vvs(&items[i]));
        i = i + 1;
    }
    proof {
        assert(vv_group_views(out@) =~= vv_group_views(items@));
    }
    out
}

impl Clone for TypeValidator {
    /// A clone denotes the same type contract: the views agree.
    fn clone(&self) -> (res: Self)
        ensures
            ty_view(res) == ty_view(*self),
        decreases self, 3int,
    {
        match self {
            TypeValidator::Any => TypeValidator::Any,
            TypeValidator::NoneType => TypeValidator::NoneType,
            TypeValidator::Bool => TypeValidator::Bool,
            TypeValidator::Int => TypeValidator::Int,
            TypeValidator::Float => TypeValidator::Float,
            TypeValidator::Str => TypeValidator::Str,
            TypeValidator::Bytes => TypeValidator::Bytes,
            TypeValidator::Tuple { items } => TypeValidator::Tuple {
                items: clone_validators(items),
            },
            TypeValidator::VarTuple { item } => TypeValidator::VarTuple {
                item: clone_opt_validator(item),
            },
            TypeValidator::FrozenSet { item } => TypeValidator::FrozenSet {
                item: clone_opt_validator(item),
            },
            TypeValidator::MutableSet { item } => TypeValidator::MutableSet {
                item: clone_opt_validator(item),
            },
            TypeValidator::Dict { items } => TypeValidator::Dict {
                items: match items {
                    None => None,
                    Some((k, v)) => Some(
                        (Box::new((**k).clone()), Box::new((**v).clone())),
                    ),
                },
            },
            TypeValidator::Typed { class_id } => TypeValidator::Typed { class_id: *class_id },
            TypeValidator::Instance { class_ids } => TypeValidator::Instance {
                class_ids: clone_ids(class_ids),
            },
            TypeValidator::Union { members } => TypeValidator::Union {
                members: clone_validators(members),
            },
            TypeValidator::GenericAttributes { class_id, attributes } => TypeValidator::GenericAttributes {
                class_id: *class_id,
                attributes: clone_named_validators(attributes),
            },
            TypeValidator::ForwardValidator { late_validator } => TypeValidator::ForwardValidator {
                late_validator: LateResolvedValidator {
                    name: late_validator.name.clone(),
                    expr: late_validator.expr.clone(),
                    cell: match &late_validator.cell {
                        None => None,
                        Some(Ok(b)) => Some(Ok(Box::new((**b).clone()))),
                        Some(Err(e)) => Some(Err(Box::new((**e).clone()))),
                    },
                },
            },
        }
    }
}

impl Clone for Validator {
    /// A clone denotes the same policy: the views agree.
    fn clone(&self) -> (res: Self)
        ensures
            validator_view(res) == validator_view(*self),
        decreases self, 4int,
    {
        Validator {
            type_validator: self.type_validator.clone(),
            value_validators: clone_vvs(&self.value_validators),
            coercer: clone_opt_coercer(&self.coercer),
            init_coercer: clone_opt_coercer(&self.init_coercer),
        }
    }
}

/// Clone a list of validators.
pub fn clone_validators(items: &Vec<Validator>) -> (res: Vec<Validator>)
    ensures
        validator_views(res@) == validator_views(items@),
    decreases items, 1int,
{
    let mut out: Vec<Validator> = Vec::new();
    let mut i: usize = 0;
    while i < items.len()
        invariant
            i <= items.len(),
            out@.len() == i,
            forall|j: int| 0 <= j < i ==> validator_views(out@)[j] == validator_views(items@)[j],
        decreases items@.len() - i,
    {
        out.push(items[i].clone());
        i = i + 1;
    }
    proof {
        assert(validator_views(out@) =~= validator_views(items@));
    }
    out
}

/// Clone an optional boxed validator.
pub fn clone_opt_validator(item: &Option<Box<Validator>>) -> (res: Option<Box<Validator>>)
    ensures
        match (res, item) {
            (None, None) => true,
            (Some(r), Some(o)) => validator_view(*r) == validator_view(**o),
            _ => false,
        },
    decreases item, 2int,
{
    match item {
        None => None,
        Some(b) => Some(Box::new((**b).clone())),
    }
}

/// Clone a list of named validators.
pub fn clone_named_validators(items: &Vec<(String, Validator)>) -> (res: Vec<(String, Validator)>)
    ensures
        named_validator_views(res@) == named_validator_views(items@),
    decreases items, 1int,
{
    let mut out: Vec<(String, Validator)> = Vec::new();
    let mut i: usize = 0;
    while i < items.len()
        invariant
            i <= items.len(),
            out@.len() == i,
            forall|j: int|
                0 <= j < i ==> named_validator_views(out@)[j] == named_validator_views(items@)[j],
        decreases items@.len() - i,
    {
        let k = items[i].0.clone();
        let v = items[i].1.clone();
        out.push((k, v));
        i = i + 1;
    }
    proof {
        assert(named_validator_views(out@) =~= named_validator_views(items@));
    }
    out
}

impl Validator {
    /// Assemble a policy from its parts; no value validators means an empty
    /// list.
    pub fn new(
        type_validator: TypeValidator,
        value_validators: Option<Vec<ValueValidator>>,
        coercer: Option<Coercer>,
        init_coercer: Option<Coercer>,
    ) -> (r: Self)
        ensures
            ty_view(r.type_validator) == ty_view(type_validator),
            vv_views(r.value_validators@) == (match value_validators {
                Some(vvs) => vv_views(vvs@),
                None => Seq::<ValueValidatorV>::empty(),
            }),
            opt_co_view(r.coercer) == opt_co_view(coercer),
            opt_co_view(r.init_coercer) == opt_co_view(init_coercer),
    {
        let vvs = match value_validators {
            Some(v) => v,
            None => Vec::new(),
        };
        proof {
            assert(vv_views(Seq::<ValueValidator>::empty()) =~= Seq::<ValueValidatorV>::empty());
        }
        Validator { type_validator, value_validators: vvs, coercer, init_coercer }
    }

    /// The same policy with further value validators appended after the
    /// existing ones.
    pub fn new_with_extra_value_validators(&self, extra: Vec<ValueValidator>) -> (r: Validator)
        ensures
            ty_view(r.type_validator) == ty_view(self.type_validator),
            vv_views(r.value_validators@) == vv_views(self.value_validators@) + vv_views(extra@),
            opt_co_view(r.coercer) == opt_co_view(self.coercer),
            opt_co_view(r.init_coercer) == opt_co_view(self.init_coercer),
    {
        let mut vvs = clone_vvs(&self.value_validators);
        let ghost base = vvs@;
        let mut i: usize = 0;
        while i < extra.len()
            invariant
                i <= extra.len(),
                vvs@.len() == base.len() + i,
                forall|j: int| 0 <= j < base.len() ==> vv_views(vvs@)[j] == vv_views(base)[j],
                forall|j: int|
                    0 <= j < i ==> vv_views(vvs@)[base.len() + j] == vv_views(extra@)[j],
            decreases extra@.len() - i,
        {
            vvs.push(extra[i].clone());
            i = i + 1;
        }
        proof {
            assert(vv_views(vvs@) =~= vv_views(base) + vv_views(extra@));
        }
        Validator {
            type_validator: self.type_validator.clone(),
            value_validators: vvs,
            coercer: clone_opt_coercer(&self.coercer),
            init_coercer: clone_opt_coercer(&self.init_coercer),
        }
    }

    /// The type contract of this policy.
    pub fn get_type_validator(&self) -> (r: &TypeValidator)
        ensures
            r == &self.type_validator,
    {
        &self.type_validator
    }

    /// The secondary constraints of this policy, in order.
    pub fn get_value_validators(&self) -> (r: &Vec<ValueValidator>)
        ensures
            r == &self.value_validators,
    {
        &self.value_validators
    }

    /// The assignment-time coercer, when configured.
    pub fn get_coercer(&self) -> (r: &Option<Coercer>)
        ensures
            r == &self.coercer,
    {
        &self.coercer
    }

    /// The initialization-time coercer, when configured.
    pub fn get_init_coercer(&self) -> (r: &Option<Coercer>)
        ensures
            r == &self.init_coercer,
    {
        &self.init_coercer
    }

    /// Build a default value from captured construction arguments: only a
    /// nominal target knows how to construct one, through the host.
    pub fn create_default<H: HostCalls>(
        &self,
        args: &Vec<Value>,
        kwargs: &Vec<(String, Value)>,
        ctx: &Option<ErrCtx>,
        host: &mut H,
    ) -> (r: Result<Value, Error>)
        ensures
            !(ty_view(self.type_validator) is Typed) ==> (r matches Err(e) && err_view(e)
                == (ErrorV::CannotConstructDefault { ctx: ctx_view(*ctx) })),
    {
        self.type_validator.create_default(args, kwargs, ctx, host)
    }
}

impl Default for Validator {
    /// The permissive policy: anything passes, nothing is coerced.
    fn default() -> (r: Self)
        ensures
            ty_view(r.type_validator) == TypeValidatorV::Any,
            vv_views(r.value_validators@) == Seq::<ValueValidatorV>::empty(),
            r.coercer is None,
            r.init_coercer is None,
    {
        let r = Validator {
            type_validator: TypeValidator::Any,
            value_validators: Vec::new(),
            coercer: None,
            init_coercer: None,
        };
        proof {
            assert(vv_views(r.value_validators@) =~= Seq::<ValueValidatorV>::empty());
        }
        r
    }
}

impl TypeValidator {
    /// Build a default value of this contract from captured construction
    /// arguments: a nominal target is constructed by the host; every other
    /// contract cannot build one.
    pub fn create_default<H: HostCalls>(
        &self,
        args: &Vec<Value>,
        kwargs: &Vec<(String, Value)>,
        ctx: &Option<ErrCtx>,
        host: &mut H,
    ) -> (r: Result<Value, Error>)
        ensures
            !(ty_view(*self) is Typed) ==> (r matches Err(e) && err_view(e)
                == (ErrorV::CannotConstructDefault { ctx: ctx_view(*ctx) })),
    {
        match self {
            TypeValidator::Typed { class_id } => host.construct(*class_id, args, kwargs),
            _ => Err(Error::CannotConstructDefault { ctx: clone_ctx(ctx) }),
        }
    }
}

} // verus!
