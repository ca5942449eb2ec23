//! Structured failure reports.
//!
//! Every failure of validation, coercion, the slot protocol or record-type
//! construction is a plain data value: it names the expected contract, the
//! offending value where one exists, the owning attribute and record type
//! where they are known, and chains the causes of nested failures, so that a
//! multi-level container or union failure stays diagnosable down to the
//! innermost reason.  Rendering a report as host text is the embedding's
//! concern; the library only builds and inspects the structure.

use vstd::prelude::*;

use crate::value::Value;
use crate::value::ValueV;

verus! {

/// Identity of the failing attribute: its name and the name of the record
/// type (or instance) that owns it.
#[derive(Debug)]
pub struct ErrCtx {
    pub member: String,
    pub owner: String,
}

/// Mathematical view of an [`ErrCtx`].
pub struct ErrCtxV {
    pub member: Seq<char>,
    pub owner: Seq<char>,
}

impl DeepView for ErrCtx {
    type V = ErrCtxV;

    open spec fn deep_view(&self) -> ErrCtxV {
        ErrCtxV { member: self.member@, owner: self.owner@ }
    }
}

impl Clone for ErrCtx {
    fn clone(&self) -> (res: Self)
        ensures
            res.deep_view() == self.deep_view(),
    {
        ErrCtx { member: self.member.clone(), owner: self.owner.clone() }
    }
}

/// What a type validator expected of a value, named in mismatch reports.
#[derive(Debug)]
pub enum Expected {
    NoneType,
    Bool,
    Int,
    Float,
    Str,
    Bytes,
    Tuple,
    FrozenSet,
    MutableSet,
    Dict,
    Class(u64),
    OneOfClasses(Vec<u64>),
}

/// Mathematical view of an [`Expected`].
pub enum ExpectedV {
    NoneType,
    Bool,
    Int,
    Float,
    Str,
    Bytes,
    Tuple,
    FrozenSet,
    MutableSet,
    Dict,
    Class(u64),
    OneOfClasses(Seq<u64>),
}

impl DeepView for Expected {
    type V = ExpectedV;

    open spec fn deep_view(&self) -> ExpectedV {
        match self {
            Expected::NoneType => ExpectedV::NoneType,
            Expected::Bool => ExpectedV::Bool,
            Expected::Int => ExpectedV::Int,
            Expected::Float => ExpectedV::Float,
            Expected::Str => ExpectedV::Str,
            Expected::Bytes => ExpectedV::Bytes,
            Expected::Tuple => ExpectedV::Tuple,
            Expected::FrozenSet => ExpectedV::FrozenSet,
            Expected::MutableSet => ExpectedV::MutableSet,
            Expected::Dict => ExpectedV::Dict,
            Expected::Class(id) => ExpectedV::Class(*id),
            Expected::OneOfClasses(ids) => ExpectedV::OneOfClasses(ids@),
        }
    }
}

impl Clone for Expected {
    fn clone(&self) -> (res: Self)
        ensures
            res.deep_view() == self.deep_view(),
    {
        match self {
            Expected::NoneType => Expected::NoneType,
            Expected::Bool => Expected::Bool,
            Expected::Int => Expected::Int,
            Expected::Float => Expected::Float,
            Expected::Str => Expected::Str,
            Expected::Bytes => Expected::Bytes,
            Expected::Tuple => Expected::Tuple,
            Expected::FrozenSet => Expected::FrozenSet,
            Expected::MutableSet => Expected::MutableSet,
            Expected::Dict => Expected::Dict,
            Expected::Class(id) => Expected::Class(*id),
            Expected::OneOfClasses(ids) => Expected::OneOfClasses(crate::value::clone_ids(ids)),
        }
    }
}

/// A failure, as plain data.
///
/// Contract violations, mutation-policy violations, missing-value reads and
/// construction failures each have their own variant; nested failures carry
/// their cause.
#[derive(Debug)]
pub enum Error {
    /// The value has the wrong kind for the type contract.
    Mismatch { expected: Expected, value: Value, ctx: Option<ErrCtx> },
    /// A fixed-arity tuple had the wrong length; both arities are cited.
    WrongArity { expected: usize, actual: usize, ctx: Option<ErrCtx> },
    /// A container element failed; the position and the inner reason.
    ItemInvalid { index: usize, cause: Box<Error>, ctx: Option<ErrCtx> },
    /// A mapping key failed validation.
    KeyInvalid { key: Value, cause: Box<Error>, ctx: Option<ErrCtx> },
    /// The value under a mapping key failed validation.
    EntryInvalid { key: Value, cause: Box<Error>, ctx: Option<ErrCtx> },
    /// A named attribute of a structurally checked object failed.
    AttrInvalid { attr: String, cause: Box<Error>, ctx: Option<ErrCtx> },
    /// A structurally checked object lacks a named attribute.
    MissingAttr { attr: String, ctx: Option<ErrCtx> },
    /// No member of an ordered alternation accepted the value; every
    /// member's reason is kept, in declaration order.
    UnionMismatch { causes: Vec<Error>, ctx: Option<ErrCtx> },
    /// The value is outside the enumerated permitted set.
    NotPermitted { value: Value, ctx: Option<ErrCtx> },
    /// No structural conversion exists to the target contract.
    CannotCoerce { ctx: Option<ErrCtx> },
    /// No coercer is configured for the requested phase.
    NoCoercer { ctx: Option<ErrCtx> },
    /// The default strategy cannot build a value for this contract.
    CannotConstructDefault { ctx: Option<ErrCtx> },
    /// A deferred type contract has not been resolved yet; the host must
    /// resolve the named expression and hand the outcome back.
    UnresolvedForward { name: String },
    /// Read of an unset slot with no default strategy.
    MissingValue { ctx: ErrCtx },
    /// Write to a frozen record instance.
    FrozenInstance { ctx: Option<ErrCtx> },
    /// Write to a constant member.
    ConstantMember { ctx: Option<ErrCtx> },
    /// Second write to a read-only member that already holds a value.
    ReadOnlyMember { ctx: Option<ErrCtx> },
    /// Delete of an undeletable member.
    Undeletable { ctx: ErrCtx },
    /// A host callback reported failure; the host's detail is carried along.
    HostFailure { detail: String },
    /// A callable registered for a behavior takes the wrong number of
    /// arguments.
    WrongCallableArity { expected: u8, actual: u8 },
    /// An initialization argument names no member of the record type.
    UnknownMember { name: String },
    /// The base types cannot be merged into one consistent ordering.
    InconsistentHierarchy { owner: String },
    /// More storage indexes were needed than the 8-bit slot space holds.
    SlotsExhausted { owner: String },
    /// A behavior references a method name that is not visible on the type.
    UnknownMethod { member: String, behavior: String, meth: String },
    /// A non-frozen type inherits from a frozen one.
    FrozenBase { base: String, sub: String },
    /// A member was built without an assigned name.
    MissingMemberName { owner: String },
    /// A member was built without an assigned slot index.
    MissingSlotIndex { member: String, owner: String },
    /// A member asks to inherit but no ancestor declares it.
    UnknownInheritedMember { member: String, owner: String },
}

/// Mathematical view of an [`Error`].
pub enum ErrorV {
    Mismatch { expected: ExpectedV, value: ValueV, ctx: Option<ErrCtxV> },
    WrongArity { expected: int, actual: int, ctx: Option<ErrCtxV> },
    ItemInvalid { index: int, cause: Box<ErrorV>, ctx: Option<ErrCtxV> },
    KeyInvalid { key: ValueV, cause: Box<ErrorV>, ctx: Option<ErrCtxV> },
    EntryInvalid { key: ValueV, cause: Box<ErrorV>, ctx: Option<ErrCtxV> },
    AttrInvalid { attr: Seq<char>, cause: Box<ErrorV>, ctx: Option<ErrCtxV> },
    MissingAttr { attr: Seq<char>, ctx: Option<ErrCtxV> },
    UnionMismatch { causes: Seq<ErrorV>, ctx: Option<ErrCtxV> },
    NotPermitted { value: ValueV, ctx: Option<ErrCtxV> },
    CannotCoerce { ctx: Option<ErrCtxV> },
    NoCoercer { ctx: Option<ErrCtxV> },
    CannotConstructDefault { ctx: Option<ErrCtxV> },
    UnresolvedForward { name: Seq<char> },
    MissingValue { ctx: ErrCtxV },
    FrozenInstance { ctx: Option<ErrCtxV> },
    ConstantMember { ctx: Option<ErrCtxV> },
    ReadOnlyMember { ctx: Option<ErrCtxV> },
    Undeletable { ctx: ErrCtxV },
    HostFailure { detail: Seq<char> },
    WrongCallableArity { expected: u8, actual: u8 },
    UnknownMember { name: Seq<char> },
    InconsistentHierarchy { owner: Seq<char> },
    SlotsExhausted { owner: Seq<char> },
    UnknownMethod { member: Seq<char>, behavior: Seq<char>, meth: Seq<char> },
    FrozenBase { base: Seq<char>, sub: Seq<char> },
    MissingMemberName { owner: Seq<char> },
    MissingSlotIndex { member: Seq<char>, owner: Seq<char> },
    UnknownInheritedMember { member: Seq<char>, owner: Seq<char> },
}

/// Views of a sequence of errors, elementwise.
pub open spec fn err_views(s: Seq<Error>) -> Seq<ErrorV>
    decreases s,
{
    Seq::new(
        s.len(),
        |i: int|
            if 0 <= i < s.len() {
                err_view(s[i])
            } else {
                ErrorV::WrongCallableArity { expected: 0, actual: 0 }
            },
    )
}

/// View of an optional context.
pub open spec fn ctx_view(c: Option<ErrCtx>) -> Option<ErrCtxV> {
    match c {
        Some(cc) => Some(cc.deep_view()),
        None => None,
    }
}

/// Mathematical view of an error.
pub open spec fn err_view(e: Error) -> ErrorV
    decreases e,
{
    {
        match e {
            Error::Mismatch { expected, value, ctx } => ErrorV::Mismatch {
                expected: expected.deep_view(),
                value: value.deep_view(),
                ctx: ctx_view(ctx),
            },
            Error::WrongArity { expected, actual, ctx } => ErrorV::WrongArity {
                expected: expected as int,
                actual: actual as int,
                ctx: ctx_view(ctx),
            },
            Error::ItemInvalid { index, cause, ctx } => ErrorV::ItemInvalid {
                index: index as int,
                cause: Box::new(err_view(*cause)),
                ctx: ctx_view(ctx),
            },
            Error::KeyInvalid { key, cause, ctx } => ErrorV::KeyInvalid {
                key: key.deep_view(),
                cause: Box::new(err_view(*cause)),
                ctx: ctx_view(ctx),
            },
            Error::EntryInvalid { key, cause, ctx } => ErrorV::EntryInvalid {
                key: key.deep_view(),
                cause: Box::new(err_view(*cause)),
                ctx: ctx_view(ctx),
            },
            Error::AttrInvalid { attr, cause, ctx } => ErrorV::AttrInvalid {
                attr: attr@,
                cause: Box::new(err_view(*cause)),
                ctx: ctx_view(ctx),
            },
            Error::MissingAttr { attr, ctx } => ErrorV::MissingAttr {
                attr: attr@,
                ctx: ctx_view(ctx),
            },
            Error::UnionMismatch { causes, ctx } => ErrorV::UnionMismatch {
                causes: err_views(causes@),
                ctx: ctx_view(ctx),
            },
            Error::NotPermitted { value, ctx } => ErrorV::NotPermitted {
                value: value.deep_view(),
                ctx: ctx_view(ctx),
            },
            Error::CannotCoerce { ctx } => ErrorV::CannotCoerce { ctx: ctx_view(ctx) },
            Error::NoCoercer { ctx } => ErrorV::NoCoercer { ctx: ctx_view(ctx) },
            Error::CannotConstructDefault { ctx } => ErrorV::CannotConstructDefault {
                ctx: ctx_view(ctx),
            },
            Error::UnresolvedForward { name } => ErrorV::UnresolvedForward { name: name@ },
            Error::MissingValue { ctx } => ErrorV::MissingValue { ctx: ctx.deep_view() },
            Error::FrozenInstance { ctx } => ErrorV::FrozenInstance { ctx: ctx_view(ctx) },
            Error::ConstantMember { ctx } => ErrorV::ConstantMember { ctx: ctx_view(ctx) },
            Error::ReadOnlyMember { ctx } => ErrorV::ReadOnlyMember { ctx: ctx_view(ctx) },
            Error::Undeletable { ctx } => ErrorV::Undeletable { ctx: ctx.deep_view() },
            Error::HostFailure { detail } => ErrorV::HostFailure { detail: detail@ },
            Error::WrongCallableArity { expected, actual } => ErrorV::WrongCallableArity {
                expected: expected,
                actual: actual,
            },
            Error::UnknownMember { name } => ErrorV::UnknownMember { name: name@ },
            Error::InconsistentHierarchy { owner } => ErrorV::InconsistentHierarchy {
                owner: owner@,
            },
            Error::SlotsExhausted { owner } => ErrorV::SlotsExhausted {
                owner: owner@,
            },
            Error::UnknownMethod { member, behavior, meth } => ErrorV::UnknownMethod {
                member: member@,
                behavior: behavior@,
                meth: meth@,
            },
            Error::FrozenBase { base, sub } => ErrorV::FrozenBase { base: base@, sub: sub@ },
            Error::MissingMemberName { owner } => ErrorV::MissingMemberName {
                owner: owner@,
            },
            Error::MissingSlotIndex { member, owner } => ErrorV::MissingSlotIndex {
                member: member@,
                owner: owner@,
            },
            Error::UnknownInheritedMember { member, owner } => ErrorV::UnknownInheritedMember {
                member: member@,
                owner: owner@,
            },
        }
    }
}

pub fn clone_ctx(c: &Option<ErrCtx>) -> (res: Option<ErrCtx>)
    ensures
        ctx_view(res) == ctx_view(*c),
{
    match c {
        Some(cc) => Some(cc.clone()),
        None => None,
    }
}

impl Clone for Error {
    /// A clone denotes the same failure: the views agree.
    fn clone(&self) -> (res: Self)
        ensures
            err_view(res) == err_view(*self),
        decreases self,
    {
        match self {
            Error::Mismatch { expected, value, ctx } => Error::Mismatch {
                expected: expected.clone(),
                value: value.clone(),
                ctx: clone_ctx(ctx),
            },
            Error::WrongArity { expected, actual, ctx } => Error::WrongArity {
                expected: *expected,
                actual: *actual,
                ctx: clone_ctx(ctx),
            },
            Error::ItemInvalid { index, cause, ctx } => Error::ItemInvalid {
                index: *index,
                cause: Box::new((**cause).clone()),
                ctx: clone_ctx(ctx),
            },
            Error::KeyInvalid { key, cause, ctx } => Error::KeyInvalid {
                key: key.clone(),
                cause: Box::new((**cause).clone()),
                ctx: clone_ctx(ctx),
            },
            Error::EntryInvalid { key, cause, ctx } => Error::EntryInvalid {
                key: key.clone(),
                cause: Box::new((**cause).clone()),
                ctx: clone_ctx(ctx),
            },
            Error::AttrInvalid { attr, cause, ctx } => Error::AttrInvalid {
                attr: attr.clone(),
                cause: Box::new((**cause).clone()),
                ctx: clone_ctx(ctx),
            },
            Error::MissingAttr { attr, ctx } => Error::MissingAttr {
                attr: attr.clone(),
                ctx: clone_ctx(ctx),
            },
            Error::UnionMismatch { causes, ctx } => Error::UnionMismatch {
                causes: clone_errors(causes),
                ctx: clone_ctx(ctx),
            },
            Error::NotPermitted { value, ctx } => Error::NotPermitted {
                value: value.clone(),
                ctx: clone_ctx(ctx),
            },
            Error::CannotCoerce { ctx } => Error::CannotCoerce { ctx: clone_ctx(ctx) },
            Error::NoCoercer { ctx } => Error::NoCoercer { ctx: clone_ctx(ctx) },
            Error::CannotConstructDefault { ctx } => Error::CannotConstructDefault {
                ctx: clone_ctx(ctx),
            },
            Error::UnresolvedForward { name } => Error::UnresolvedForward { name: name.clone() },
            Error::MissingValue { ctx } => Error::MissingValue { ctx: ctx.clone() },
            Error::FrozenInstance { ctx } => Error::FrozenInstance { ctx: clone_ctx(ctx) },
            Error::ConstantMember { ctx } => Error::ConstantMember { ctx: clone_ctx(ctx) },
            Error::ReadOnlyMember { ctx } => Error::ReadOnlyMember { ctx: clone_ctx(ctx) },
            Error::Undeletable { ctx } => Error::Undeletable { ctx: ctx.clone() },
            Error::HostFailure { detail } => Error::HostFailure { detail: detail.clone() },
            Error::WrongCallableArity { expected, actual } => Error::WrongCallableArity {
                expected: *expected,
                actual: *actual,
            },
            Error::UnknownMember { name } => Error::UnknownMember { name: name.clone() },
            Error::InconsistentHierarchy { owner } => Error::InconsistentHierarchy {
                owner: owner.clone(),
            },
            Error::SlotsExhausted { owner } => Error::SlotsExhausted {
                owner: owner.clone(),
            },
            Error::UnknownMethod { member, behavior, meth } => Error::UnknownMethod {
                member: member.clone(),
                behavior: behavior.clone(),
                meth: meth.clone(),
            },
            Error::FrozenBase { base, sub } => Error::FrozenBase {
                base: base.clone(),
                sub: sub.clone(),
            },
            Error::MissingMemberName { owner } => Error::MissingMemberName {
                owner: owner.clone(),
            },
            Error::MissingSlotIndex { member, owner } => Error::MissingSlotIndex {
                member: member.clone(),
                owner: owner.clone(),
            },
            Error::UnknownInheritedMember { member, owner } => Error::UnknownInheritedMember {
                member: member.clone(),
                owner: owner.clone(),
            },
        }
    }
}

pub fn clone_errors(errs: &Vec<Error>) -> (res: Vec<Error>)
    ensures
        err_views(res@) == err_views(errs@),
    decreases errs,
{
    let mut out: Vec<Error> = Vec::new();
    let mut i: usize = 0;
    while i < errs.len()
        invariant
            i <= errs.len(),
            out@.len() == i,
            forall|j: int| 0 <= j < i ==> err_views(out@)[j] == err_views(errs@)[j],
        decreases errs.len() - i,
    {
        out.push(errs[i].clone());
        i = i + 1;
    }
    proof {
        assert(err_views(out@).len() == out@.len());
        assert(err_views(errs@).len() == errs@.len());
        assert(err_views(out@) =~= err_views(errs@));
    }
    out
}

} // verus!
