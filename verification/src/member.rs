//! Attribute descriptors and the slot protocol.
//!
//! A [`Member`] is the complete behavioral contract for one field: its name,
//! its storage slot index, hooks around read, write and delete, a default
//! strategy and a validation policy.  Members are immutable once built;
//! several record types may share one member when a field is inherited
//! unchanged, and a member is cloned with a new index only when slot
//! collision resolution requires it.
//!
//! Read protocol: pre-read hook; the slot value if set, else the default
//! strategy's value run through full validation and stored; post-read hook,
//! which may observe but never replace the value.  Write protocol: pre-write
//! hook with the current value; then, before any further work, a frozen
//! instance rejects; validation of the incoming value; store; post-write
//! hook with old and new.  Delete protocol: clear the slot or reject, by the
//! delete policy.

use vstd::prelude::*;

use crate::errors::ErrCtx;
use crate::errors::ErrCtxV;
use crate::errors::Error;
use crate::errors::ErrorV;
use crate::errors::err_view;
use crate::host::HostCalls;
use crate::instance::AtorsBase;
use crate::instance::slots_view;
use crate::validators::Coercer;
use crate::validators::TypeValidator;
use crate::validators::TypeValidatorV;
use crate::validators::Validator;
use crate::validators::ValidatorV;
use crate::validators::ValueValidator;
use crate::validators::clone_opt_coercer;
use crate::validators::clone_vvs;
use crate::validators::co_view;
use crate::validators::coerce_spec;
use crate::validators::hf_validator;
use crate::validators::opt_co_view;
use crate::validators::res_view;
use crate::validators::ty_view;
use crate::validators::validate_spec;
use crate::validators::validator_view;
use crate::validators::validator_views;
use crate::validators::vv_views;
use crate::value::Value;
use crate::value::ValueV;
use crate::value::attr_views;
use crate::value::clone_attrs;
use crate::value::vview;

mod default;
mod delattr;
mod getattr;
mod setattr;

pub use default::DEFAULT_CALL_ARITY;
pub use default::DEFAULT_CALL_MEMBER_OBJECT_ARITY;
pub use default::DefaultBehavior;
pub use default::DefaultBehaviorV;
pub use default::db_view;
pub use delattr::DelattrBehavior;
pub use getattr::POST_GETATTR_ARITY;
pub use getattr::PRE_GETATTR_ARITY;
pub use getattr::PostGetattrBehavior;
pub use getattr::PostGetattrBehaviorV;
pub use getattr::PreGetattrBehavior;
pub use getattr::PreGetattrBehaviorV;
pub use getattr::pgb_view;
pub use getattr::pogb_view;
pub use setattr::POST_SETATTR_ARITY;
pub use setattr::PRE_SETATTR_ARITY;
pub use setattr::PostSetattrBehavior;
pub use setattr::PostSetattrBehaviorV;
pub use setattr::PreSetattrBehavior;
pub use setattr::PreSetattrBehaviorV;
pub use setattr::posb_view;
pub use setattr::pre_set_spec;
pub use setattr::psb_pure;
pub use setattr::psb_view;

verus! {

/// View of an optional metadata map.
pub open spec fn md_view(md: Option<Vec<(String, Value)>>) -> Option<Seq<(Seq<char>, ValueV)>> {
    match md {
        Some(m) => Some(attr_views(m@)),
        None => None,
    }
}

/// The complete behavioral contract for one field.
pub struct Member {
    pub name: String,
    pub slot_index: u8,
    pub pre_getattr: PreGetattrBehavior,
    pub post_getattr: PostGetattrBehavior,
    pub pre_setattr: PreSetattrBehavior,
    pub post_setattr: PostSetattrBehavior,
    pub delattr: DelattrBehavior,
    pub default: DefaultBehavior,
    pub validator: Validator,
    pub metadata: Option<Vec<(String, Value)>>,
}

/// Whether the read path of a member is free of host callbacks: pure hooks,
/// a pure default strategy and a host-free validation policy.
pub open spec fn read_pure(m: Member) -> bool {
    &&& pgb_view(m.pre_getattr) is NoOp
    &&& pogb_view(m.post_getattr) is NoOp
    &&& (m.default is NoDefault || m.default is Static)
    &&& hf_validator(validator_view(m.validator))
}

/// Whether the write path of a member is free of host callbacks.
pub open spec fn write_pure(m: Member) -> bool {
    &&& psb_pure(psb_view(m.pre_setattr))
    &&& posb_view(m.post_setattr) is NoOp
    &&& hf_validator(validator_view(m.validator))
}

/// What a read returns and how it changes the slots, for a member whose
/// read path is pure: the slot value if set; otherwise the default
/// strategy's value, validated and stored, or the missing-value report when
/// there is no default.
pub open spec fn read_spec(m: Member, slots: Seq<Option<ValueV>>, owner: Seq<char>) -> (Result<
    ValueV,
    ErrorV,
>, Seq<Option<ValueV>>) {
    let ctxv = ErrCtxV { member: m.name@, owner };
    match slots[m.slot_index as int] {
        Some(v) => (Ok(v), slots),
        None => match db_view(m.default) {
            DefaultBehaviorV::Static { value } => match validate_spec(
                validator_view(m.validator),
                value,
                Some(ctxv),
            ) {
                Ok(w) => (Ok(w), slots.update(m.slot_index as int, Some(w))),
                Err(e) => (Err(e), slots),
            },
            _ => (Err(ErrorV::MissingValue { ctx: ctxv }), slots),
        },
    }
}

/// What a write returns and how it changes the slots, for a member whose
/// write path is pure: a frozen instance rejects; the pre-write hook
/// decides; the value is validated and stored.
pub open spec fn write_spec(
    m: Member,
    frozen: bool,
    slots: Seq<Option<ValueV>>,
    owner: Seq<char>,
    x: ValueV,
) -> (Result<(), ErrorV>, Seq<Option<ValueV>>) {
    let ctxv = ErrCtxV { member: m.name@, owner };
    match pre_set_spec(psb_view(m.pre_setattr), slots[m.slot_index as int] is Some, Some(ctxv)) {
        Err(e) => (Err(e), slots),
        Ok(u) => if frozen {
            (Err(ErrorV::FrozenInstance { ctx: Some(ctxv) }), slots)
        } else {
            match validate_spec(validator_view(m.validator), x, Some(ctxv)) {
                Err(e) => (Err(e), slots),
                Ok(w) => (Ok(()), slots.update(m.slot_index as int, Some(w))),
            }
        },
    }
}

impl Member {
    /// The member's name.
    pub fn name(&self) -> (r: &String)
        ensures
            r@ == self.name@,
    {
        &self.name
    }

    /// The member's storage slot index.
    pub fn index(&self) -> (r: u8)
        ensures
            r == self.slot_index,
    {
        self.slot_index
    }

    /// The member's metadata tags, if any.
    pub fn metadata(&self) -> (r: &Option<Vec<(String, Value)>>)
        ensures
            r == &self.metadata,
    {
        &self.metadata
    }

    /// An otherwise identical member at a freshly allocated slot index, for
    /// collision resolution; the original keeps its index.
    pub fn clone_with_index(&self, new_index: u8) -> (r: Member)
        ensures
            r.name@ == self.name@,
            r.slot_index == new_index,
            pgb_view(r.pre_getattr) == pgb_view(self.pre_getattr),
            pogb_view(r.post_getattr) == pogb_view(self.post_getattr),
            psb_view(r.pre_setattr) == psb_view(self.pre_setattr),
            posb_view(r.post_setattr) == posb_view(self.post_setattr),
            r.delattr == self.delattr,
            db_view(r.default) == db_view(self.default),
            validator_view(r.validator) == validator_view(self.validator),
            md_view(r.metadata) == md_view(self.metadata),
    {
        Member {
            name: self.name.clone(),
            slot_index: new_index,
            pre_getattr: self.pre_getattr.clone(),
            post_getattr: self.post_getattr.clone(),
            pre_setattr: self.pre_setattr.clone(),
            post_setattr: self.post_setattr.clone(),
            delattr: self.delattr,
            default: self.default.clone(),
            validator: self.validator.clone(),
            metadata: match &self.metadata {
                Some(m) => Some(clone_attrs(m)),
                None => None,
            },
        }
    }

    /// Read the attribute on an instance: pre-read hook; the slot value if
    /// set, else the default strategy's value run through full validation
    /// and stored; post-read hook with the produced value.
    ///
    /// Whatever the host does, only this member's slot can change.
    pub fn read<H: HostCalls>(&self, obj: &mut AtorsBase, host: &mut H) -> (r: Result<Value, Error>)
        requires
            (self.slot_index as int) < old(obj).slots@.len(),
        ensures
            final(obj).frozen == old(obj).frozen,
            final(obj).owner_name@ == old(obj).owner_name@,
            final(obj).slots@.len() == old(obj).slots@.len(),
            forall|i: int|
                0 <= i < old(obj).slots@.len() && i != self.slot_index as int ==> slots_view(
                    final(obj).slots@,
                )[i] == slots_view(old(obj).slots@)[i],
            r matches Ok(w) ==> slots_view(final(obj).slots@)[self.slot_index as int] == Some(
                vview(w),
            ),
            read_pure(*self) ==> ({
                let (res, ns) = read_spec(*self, slots_view(old(obj).slots@), old(obj).owner_name@);
                res_view(r) == res && slots_view(final(obj).slots@) == ns
            }),
    {
        let ctx = ErrCtx { member: self.name.clone(), owner: obj.owner_name.clone() };
        match self.pre_getattr.pre_get(&self.name, host) {
            Err(e) => {
                return Err(e);
            },
            Ok(u) => {},
        }
        let slot = obj.get_slot(self.slot_index);
        let value = match slot {
            Some(v) => v,
            None => {
                let d = match self.default.default_value(&ctx, &self.validator, host) {
                    Ok(d) => d,
                    Err(e) => {
                        return Err(e);
                    },
                };
                let octx = Some(ctx);
                let new = match self.validator.validate(&octx, &d, host) {
                    Ok(v) => v,
                    Err(e) => {
                        return Err(e);
                    },
                };
                obj.set_slot(self.slot_index, new.clone());
                proof {
                    assert(slots_view(final(obj).slots@) =~= slots_view(old(obj).slots@).update(
                        self.slot_index as int,
                        Some(vview(new)),
                    ));
                }
                new
            },
        };
        match self.post_getattr.post_get(&self.name, &value, host) {
            Err(e) => Err(e),
            Ok(u) => Ok(value),
        }
    }

    /// Write the attribute on an instance: pre-write hook with the current
    /// value; then, before any further work, a frozen instance rejects;
    /// validation of the incoming value; store; post-write hook with old and
    /// new.
    ///
    /// Whatever the host does, only this member's slot can change.
    pub fn write<H: HostCalls>(
        &self,
        obj: &mut AtorsBase,
        value: Value,
        host: &mut H,
    ) -> (r: Result<(), Error>)
        requires
            (self.slot_index as int) < old(obj).slots@.len(),
        ensures
            final(obj).frozen == old(obj).frozen,
            final(obj).owner_name@ == old(obj).owner_name@,
            final(obj).slots@.len() == old(obj).slots@.len(),
            forall|i: int|
                0 <= i < old(obj).slots@.len() && i != self.slot_index as int ==> slots_view(
                    final(obj).slots@,
                )[i] == slots_view(old(obj).slots@)[i],
            old(obj).frozen ==> r is Err && slots_view(final(obj).slots@) == slots_view(
                old(obj).slots@,
            ),
            write_pure(*self) ==> ({
                let (res, ns) = write_spec(
                    *self,
                    old(obj).frozen,
                    slots_view(old(obj).slots@),
                    old(obj).owner_name@,
                    vview(value),
                );
                crate::validators::unit_res_view(r) == res && slots_view(final(obj).slots@) == ns
            }),
    {
        let ctx = ErrCtx { member: self.name.clone(), owner: obj.owner_name.clone() };
        let current = obj.get_slot(self.slot_index);
        match self.pre_setattr.pre_set(&ctx, &current, host) {
            Err(e) => {
                return Err(e);
            },
            Ok(u) => {},
        }
        if obj.is_frozen() {
            return Err(Error::FrozenInstance { ctx: Some(ctx) });
        }
        let octx = Some(ctx.clone());
        let new = match self.validator.validate(&octx, &value, host) {
            Ok(v) => v,
            Err(e) => {
                return Err(e);
            },
        };
        obj.set_slot(self.slot_index, new.clone());
        proof {
            assert(slots_view(final(obj).slots@) =~= slots_view(old(obj).slots@).update(
                self.slot_index as int,
                Some(vview(new)),
            ));
        }
        match self.post_setattr.post_set(&ctx, &current, &new, host) {
            Err(e) => Err(e),
            Ok(u) => Ok(()),
        }
    }

    /// Delete the attribute on an instance: clear the slot, or reject when
    /// the member is undeletable; a rejected delete changes nothing.
    pub fn delete(&self, obj: &mut AtorsBase) -> (r: Result<(), Error>)
        requires
            (self.slot_index as int) < old(obj).slots@.len(),
        ensures
            final(obj).frozen == old(obj).frozen,
            final(obj).owner_name@ == old(obj).owner_name@,
            final(obj).slots@.len() == old(obj).slots@.len(),
            forall|i: int|
                0 <= i < old(obj).slots@.len() && i != self.slot_index as int ==> slots_view(
                    final(obj).slots@,
                )[i] == slots_view(old(obj).slots@)[i],
            match self.delattr {
                DelattrBehavior::Slot => r is Ok && slots_view(final(obj).slots@)[
                    self.slot_index as int
                ] is None,
                DelattrBehavior::Undeletable => (r matches Err(e) && err_view(e)
                    == (ErrorV::Undeletable {
                    ctx: ErrCtxV { member: self.name@, owner: old(obj).owner_name@ },
                })) && slots_view(final(obj).slots@) == slots_view(old(obj).slots@),
            },
    {
        match self.delattr {
            DelattrBehavior::Slot => {
                obj.del_slot(self.slot_index);
                Ok(())
            },
            DelattrBehavior::Undeletable => {
                proof {
                    assert(slots_view(final(obj).slots@) =~= slots_view(old(obj).slots@));
                }
                Err(
                    Error::Undeletable {
                        ctx: ErrCtx {
                            member: self.name.clone(),
                            owner: obj.owner_name.clone(),
                        },
                    },
                )
            },
        }
    }
}

/// Run a member's initialization-time coercer over a value, when one is
/// configured: the fallback used when an initialization argument fails
/// ordinary assignment.
pub fn member_coerce_init<H: HostCalls>(
    member: &Member,
    owner: &String,
    value: &Value,
    host: &mut H,
) -> (r: Option<Result<Value, Error>>)
    ensures
        r is Some <==> member.validator.init_coercer is Some,
        (member.validator.init_coercer matches Some(c) && co_view(c) is TypeInferred
            && crate::validators::hf_coerce(ty_view(member.validator.type_validator))) ==> (match r {
            Some(inner) => res_view(inner) == coerce_spec(
                co_view(member.validator.init_coercer->0),
                ty_view(member.validator.type_validator),
                true,
                vview(*value),
                Some(ErrCtxV { member: member.name@, owner: owner@ }),
            ),
            None => false,
        }),
{
    match &member.validator.init_coercer {
        None => None,
        Some(c) => {
            let ctx = Some(
                ErrCtx { member: member.name.clone(), owner: owner.clone() },
            );
            Some(c.coerce_value(true, &member.validator.type_validator, &ctx, value, host))
        },
    }
}

/// Mathematical snapshot of a builder's configuration.
pub struct MemberBuilderV {
    pub name: Option<Seq<char>>,
    pub slot_index: Option<u8>,
    pub pre_getattr: Option<PreGetattrBehaviorV>,
    pub post_getattr: Option<PostGetattrBehaviorV>,
    pub pre_setattr: Option<PreSetattrBehaviorV>,
    pub post_setattr: Option<PostSetattrBehaviorV>,
    pub delattr: Option<DelattrBehavior>,
    pub default: Option<DefaultBehaviorV>,
    pub type_validator: Option<TypeValidatorV>,
    pub value_validators: Option<Seq<crate::validators::ValueValidatorV>>,
    pub coerce: Option<crate::validators::CoercerV>,
    pub coerce_init: Option<crate::validators::CoercerV>,
    pub metadata: Option<Seq<(Seq<char>, ValueV)>>,
    pub inherit: bool,
    pub multiple_settings: Seq<Seq<char>>,
}

/// A member under construction: each behavior may be set once; anything left
/// unset falls back to its neutral default when the member is built.
pub struct MemberBuilder {
    pub name: Option<String>,
    pub slot_index: Option<u8>,
    pub pre_getattr: Option<PreGetattrBehavior>,
    pub post_getattr: Option<PostGetattrBehavior>,
    pub pre_setattr: Option<PreSetattrBehavior>,
    pub post_setattr: Option<PostSetattrBehavior>,
    pub delattr: Option<DelattrBehavior>,
    pub default: Option<DefaultBehavior>,
    pub type_validator: Option<TypeValidator>,
    pub value_validators: Option<Vec<ValueValidator>>,
    pub coerce: Option<Coercer>,
    pub coerce_init: Option<Coercer>,
    pub metadata: Option<Vec<(String, Value)>>,
    pub inherit: bool,
    pub multiple_settings: Vec<String>,
}

/// View of an optional string.
pub open spec fn opt_str_view(s: Option<String>) -> Option<Seq<char>> {
    match s {
        Some(x) => Some(x@),
        None => None,
    }
}

/// Views of a sequence of strings.
pub open spec fn str_views(s: Seq<String>) -> Seq<Seq<char>> {
    Seq::new(
        s.len(),
        |i: int|
            if 0 <= i < s.len() {
                s[i]@
            } else {
                Seq::empty()
            },
    )
}

/// View of a builder.
pub open spec fn mb_view(b: MemberBuilder) -> MemberBuilderV {
    MemberBuilderV {
        name: opt_str_view(b.name),
        slot_index: b.slot_index,
        pre_getattr: match b.pre_getattr {
            Some(x) => Some(pgb_view(x)),
            None => None,
        },
        post_getattr: match b.post_getattr {
            Some(x) => Some(pogb_view(x)),
            None => None,
        },
        pre_setattr: match b.pre_setattr {
            Some(x) => Some(psb_view(x)),
            None => None,
        },
        post_setattr: match b.post_setattr {
            Some(x) => Some(posb_view(x)),
            None => None,
        },
        delattr: b.delattr,
        default: match b.default {
            Some(x) => Some(db_view(x)),
            None => None,
        },
        type_validator: match b.type_validator {
            Some(x) => Some(ty_view(x)),
            None => None,
        },
        value_validators: match b.value_validators {
            Some(x) => Some(vv_views(x@)),
            None => None,
        },
        coerce: opt_co_view(b.coerce),
        coerce_init: opt_co_view(b.coerce_init),
        metadata: md_view(b.metadata),
        inherit: b.inherit,
        multiple_settings: str_views(b.multiple_settings@),
    }
}

/// The coercion policy a built union member ends up with: a member without a
/// policy of its own inherits the structural coercer requested at member
/// level.
pub open spec fn propagate_union_spec(
    tv: TypeValidatorV,
    c: Option<crate::validators::CoercerV>,
    ic: Option<crate::validators::CoercerV>,
) -> TypeValidatorV {
    match tv {
        TypeValidatorV::Union { members } => TypeValidatorV::Union {
            members: Seq::new(
                members.len(),
                |i: int|
                    if 0 <= i < members.len() {
                        ValidatorV {
                            coercer: if c == Some(crate::validators::CoercerV::TypeInferred)
                                && members[i].coercer is None {
                                Some(crate::validators::CoercerV::TypeInferred)
                            } else {
                                members[i].coercer
                            },
                            init_coercer: if ic == Some(crate::validators::CoercerV::TypeInferred)
                                && members[i].init_coercer is None {
                                Some(crate::validators::CoercerV::TypeInferred)
                            } else {
                                members[i].init_coercer
                            },
                            type_validator: members[i].type_validator,
                            value_validators: members[i].value_validators,
                        }
                    } else {
                        members[i]
                    },
            ),
        },
        _ => tv,
    }
}

/// Whether a member carries exactly the behaviors a builder configures:
/// every set behavior as set, every unset one as its neutral default, the
/// validator assembled from the builder's type contract (with structural
/// coercion propagated into an alternation), constraints, coercers and
/// metadata.  The member's name and slot index are not constrained here;
/// they are assigned by record-type construction.
pub open spec fn built_matches(m: Member, b: MemberBuilder) -> bool {
    &&& pgb_view(m.pre_getattr) == (match b.pre_getattr {
        Some(x) => pgb_view(x),
        None => PreGetattrBehaviorV::NoOp,
    })
    &&& pogb_view(m.post_getattr) == (match b.post_getattr {
        Some(x) => pogb_view(x),
        None => PostGetattrBehaviorV::NoOp,
    })
    &&& psb_view(m.pre_setattr) == (match b.pre_setattr {
        Some(x) => psb_view(x),
        None => PreSetattrBehaviorV::NoOp,
    })
    &&& posb_view(m.post_setattr) == (match b.post_setattr {
        Some(x) => posb_view(x),
        None => PostSetattrBehaviorV::NoOp,
    })
    &&& m.delattr == (match b.delattr {
        Some(x) => x,
        None => DelattrBehavior::Slot,
    })
    &&& db_view(m.default) == (match b.default {
        Some(x) => db_view(x),
        None => DefaultBehaviorV::NoDefault,
    })
    &&& ty_view(m.validator.type_validator) == propagate_union_spec(
        match b.type_validator {
            Some(x) => ty_view(x),
            None => TypeValidatorV::Any,
        },
        opt_co_view(b.coerce),
        opt_co_view(b.coerce_init),
    )
    &&& vv_views(m.validator.value_validators@) == (match b.value_validators {
        Some(x) => vv_views(x@),
        None => Seq::<crate::validators::ValueValidatorV>::empty(),
    })
    &&& opt_co_view(m.validator.coercer) == opt_co_view(b.coerce)
    &&& opt_co_view(m.validator.init_coercer) == opt_co_view(b.coerce_init)
    &&& md_view(m.metadata) == md_view(b.metadata)
}

impl MemberBuilder {
    /// An empty builder: nothing configured.
    pub fn new() -> (r: Self)
        ensures
            mb_view(r) == (MemberBuilderV {
                name: None,
                slot_index: None,
                pre_getattr: None,
                post_getattr: None,
                pre_setattr: None,
                post_setattr: None,
                delattr: None,
                default: None,
                type_validator: None,
                value_validators: None,
                coerce: None,
                coerce_init: None,
                metadata: None,
                inherit: false,
                multiple_settings: Seq::empty(),
            }),
    {
        let r = MemberBuilder {
            name: None,
            slot_index: None,
            pre_getattr: None,
            post_getattr: None,
            pre_setattr: None,
            post_setattr: None,
            delattr: None,
            default: None,
            type_validator: None,
            value_validators: None,
            coerce: None,
            coerce_init: None,
            metadata: None,
            inherit: false,
            multiple_settings: Vec::new(),
        };
        proof {
            assert(str_views(r.multiple_settings@) =~= Seq::<Seq<char>>::empty());
        }
        r
    }

    /// Mark the builder as inheriting unset behaviors from the member the
    /// nearest ancestor declares under the same name.
    pub fn inherit(&mut self)
        ensures
            mb_view(*final(self)) == (MemberBuilderV { inherit: true, ..mb_view(*old(self)) }),
    {
        self.inherit = true;
    }

    /// Whether the builder inherits unset behaviors.
    pub fn should_inherit(&self) -> (r: bool)
        ensures
            r == self.inherit,
    {
        self.inherit
    }

    /// Attach metadata tags, extending any already present.
    pub fn tag(&mut self, tags: Vec<(String, Value)>)
        ensures
            final(self).metadata matches Some(m) && attr_views(m@) == (match old(self).metadata {
                Some(o) => attr_views(o@) + attr_views(tags@),
                None => attr_views(tags@),
            }),
            mb_view(*final(self)) == (MemberBuilderV {
                metadata: md_view(final(self).metadata),
                ..mb_view(*old(self))
            }),
    {
        let mut m = match self.metadata.take() {
            Some(m) => m,
            None => Vec::new(),
        };
        let ghost base = m@;
        proof {
            if old(self).metadata is None {
                assert(attr_views(base) =~= Seq::<(Seq<char>, ValueV)>::empty());
            }
        }
        let mut i: usize = 0;
        while i < tags.len()
            invariant
                i <= tags.len(),
                m@.len() == base.len() + i,
                forall|j: int| 0 <= j < base.len() ==> attr_views(m@)[j] == attr_views(base)[j],
                forall|j: int| 0 <= j < i ==> attr_views(m@)[base.len() + j] == attr_views(tags@)[j],
            decreases tags@.len() - i,
        {
            let k = tags[i].0.clone();
            let v = tags[i].1.clone();
            m.push((k, v));
            i = i + 1;
        }
        proof {
            assert(attr_views(m@) =~= attr_views(base) + attr_views(tags@));
        }
        self.metadata = Some(m);
    }

    /// Record that a behavior was configured more than once; the embedding
    /// may warn about these when the member is built.
    fn note_repeat(&mut self, which: String)
        ensures
            str_views(final(self).multiple_settings@) == str_views(old(self).multiple_settings@)
                + seq![which@],
            mb_view(*final(self)) == (MemberBuilderV {
                multiple_settings: str_views(final(self).multiple_settings@),
                ..mb_view(*old(self))
            }),
    {
        let ghost base = self.multiple_settings@;
        self.multiple_settings.push(which);
        proof {
            assert(str_views(final(self).multiple_settings@) =~= str_views(base) + seq![
                final(self).multiple_settings@.last()@,
            ]);
        }
    }

    /// Configure the default strategy.
    pub fn default(&mut self, default_behavior: DefaultBehavior)
        ensures
            final(self).default matches Some(d) && db_view(d) == db_view(default_behavior),
            mb_view(*final(self)) == (MemberBuilderV {
                default: Some(db_view(default_behavior)),
                multiple_settings: str_views(final(self).multiple_settings@),
                ..mb_view(*old(self))
            }),
            old(self).default is None ==> final(self).multiple_settings@ == old(
                self,
            ).multiple_settings@,
    {
        if self.default.is_some() {
            self.note_repeat(String::from_str("default"));
        }
        self.default = Some(default_behavior);
    }

    /// Configure assignment-time coercion; with no explicit coercer the
    /// structural, type-inferred one is used.
    pub fn coerce(&mut self, coercer: Option<Coercer>)
        ensures
            final(self).coerce matches Some(c) && co_view(c) == (match coercer {
                Some(cc) => co_view(cc),
                None => crate::validators::CoercerV::TypeInferred,
            }),
            mb_view(*final(self)) == (MemberBuilderV {
                coerce: opt_co_view(final(self).coerce),
                multiple_settings: str_views(final(self).multiple_settings@),
                ..mb_view(*old(self))
            }),
    {
        if self.coerce.is_some() {
            self.note_repeat(String::from_str("coerce"));
        }
        self.coerce = Some(
            match coercer {
                Some(c) => c,
                None => Coercer::TypeInferred,
            },
        );
    }

    /// Configure initialization-time coercion; with no explicit coercer the
    /// structural, type-inferred one is used.
    pub fn coerce_init(&mut self, coercer: Option<Coercer>)
        ensures
            final(self).coerce_init matches Some(c) && co_view(c) == (match coercer {
                Some(cc) => co_view(cc),
                None => crate::validators::CoercerV::TypeInferred,
            }),
            mb_view(*final(self)) == (MemberBuilderV {
                coerce_init: opt_co_view(final(self).coerce_init),
                multiple_settings: str_views(final(self).multiple_settings@),
                ..mb_view(*old(self))
            }),
    {
        if self.coerce_init.is_some() {
            self.note_repeat(String::from_str("coerce_init"));
        }
        self.coerce_init = Some(
            match coercer {
                Some(c) => c,
                None => Coercer::TypeInferred,
            },
        );
    }

    /// Append one secondary constraint after those already configured.
    pub fn append_value_validator(&mut self, value_validator: ValueValidator)
        ensures
            final(self).value_validators matches Some(v) && vv_views(v@) == (match old(
                self,
            ).value_validators {
                Some(o) => vv_views(o@) + seq![crate::validators::vv_view(value_validator)],
                None => seq![crate::validators::vv_view(value_validator)],
            }),
            mb_view(*final(self)) == (MemberBuilderV {
                value_validators: match final(self).value_validators {
                    Some(v) => Some(vv_views(v@)),
                    None => None,
                },
                ..mb_view(*old(self))
            }),
    {
        let mut v = match self.value_validators.take() {
            Some(v) => v,
            None => Vec::new(),
        };
        let ghost base = v@;
        proof {
            if old(self).value_validators is None {
                assert(vv_views(base) =~= Seq::<crate::validators::ValueValidatorV>::empty());
            }
        }
        v.push(value_validator);
        proof {
            assert(vv_views(v@) =~= vv_views(base) + seq![
                crate::validators::vv_view(v@.last()),
            ]);
        }
        self.value_validators = Some(v);
    }

    /// Configure the pre-read hook.
    pub fn preget(&mut self, pre_getattr: PreGetattrBehavior)
        ensures
            mb_view(*final(self)) == (MemberBuilderV {
                pre_getattr: Some(pgb_view(pre_getattr)),
                multiple_settings: str_views(final(self).multiple_settings@),
                ..mb_view(*old(self))
            }),
    {
        if self.pre_getattr.is_some() {
            self.note_repeat(String::from_str("preget"));
        }
        self.pre_getattr = Some(pre_getattr);
    }

    /// Configure the post-read hook.
    pub fn postget(&mut self, post_getattr: PostGetattrBehavior)
        ensures
            mb_view(*final(self)) == (MemberBuilderV {
                post_getattr: Some(pogb_view(post_getattr)),
                multiple_settings: str_views(final(self).multiple_settings@),
                ..mb_view(*old(self))
            }),
    {
        if self.post_getattr.is_some() {
            self.note_repeat(String::from_str("postget"));
        }
        self.post_getattr = Some(post_getattr);
    }

    /// Configure the pre-write hook.
    pub fn preset(&mut self, pre_setattr: PreSetattrBehavior)
        ensures
            mb_view(*final(self)) == (MemberBuilderV {
                pre_setattr: Some(psb_view(pre_setattr)),
                multiple_settings: str_views(final(self).multiple_settings@),
                ..mb_view(*old(self))
            }),
    {
        if self.pre_setattr.is_some() {
            self.note_repeat(String::from_str("preset"));
        }
        self.pre_setattr = Some(pre_setattr);
    }

    /// Configure the post-write hook.
    pub fn postset(&mut self, post_setattr: PostSetattrBehavior)
        ensures
            mb_view(*final(self)) == (MemberBuilderV {
                post_setattr: Some(posb_view(post_setattr)),
                multiple_settings: str_views(final(self).multiple_settings@),
                ..mb_view(*old(self))
            }),
    {
        if self.post_setattr.is_some() {
            self.note_repeat(String::from_str("postset"));
        }
        self.post_setattr = Some(post_setattr);
    }

    /// Make the member constant: every write is rejected and it cannot be
    /// deleted.
    pub fn constant(&mut self)
        ensures
            mb_view(*final(self)) == (MemberBuilderV {
                pre_setattr: Some(PreSetattrBehaviorV::Constant),
                delattr: Some(DelattrBehavior::Undeletable),
                ..mb_view(*old(self))
            }),
    {
        self.pre_setattr = Some(PreSetattrBehavior::Constant);
        self.delattr = Some(DelattrBehavior::Undeletable);
    }

    /// Configure the delete policy.
    pub fn del_(&mut self, delattr_behavior: DelattrBehavior)
        ensures
            mb_view(*final(self)) == (MemberBuilderV {
                delattr: Some(delattr_behavior),
                multiple_settings: str_views(final(self).multiple_settings@),
                ..mb_view(*old(self))
            }),
    {
        if self.delattr.is_some() {
            self.note_repeat(String::from_str("del_"));
        }
        self.delattr = Some(delattr_behavior);
    }

    /// The configured pre-read hook, if any.
    pub fn pre_getattr(&self) -> (r: &Option<PreGetattrBehavior>)
        ensures
            r == &self.pre_getattr,
    {
        &self.pre_getattr
    }

    /// The configured post-read hook, if any.
    pub fn post_getattr(&self) -> (r: &Option<PostGetattrBehavior>)
        ensures
            r == &self.post_getattr,
    {
        &self.post_getattr
    }

    /// The configured pre-write hook, if any.
    pub fn pre_setattr(&self) -> (r: &Option<PreSetattrBehavior>)
        ensures
            r == &self.pre_setattr,
    {
        &self.pre_setattr
    }

    /// The configured post-write hook, if any.
    pub fn post_setattr(&self) -> (r: &Option<PostSetattrBehavior>)
        ensures
            r == &self.post_setattr,
    {
        &self.post_setattr
    }

    /// The configured delete policy, if any.
    pub fn delattr(&self) -> (r: &Option<DelattrBehavior>)
        ensures
            r == &self.delattr,
    {
        &self.delattr
    }

    /// The configured default strategy, if any.
    pub fn default_behavior(&self) -> (r: &Option<DefaultBehavior>)
        ensures
            r == &self.default,
    {
        &self.default
    }

    /// The configured secondary constraints, if any.
    pub fn value_validators(&self) -> (r: &Option<Vec<ValueValidator>>)
        ensures
            r == &self.value_validators,
    {
        &self.value_validators
    }

    /// The configured assignment-time coercer, if any.
    pub fn coercer(&self) -> (r: &Option<Coercer>)
        ensures
            r == &self.coerce,
    {
        &self.coerce
    }

    /// The configured initialization-time coercer, if any.
    pub fn init_coercer(&self) -> (r: &Option<Coercer>)
        ensures
            r == &self.coerce_init,
    {
        &self.coerce_init
    }

    /// The configured metadata tags, if any.
    pub fn metadata(&self) -> (r: &Option<Vec<(String, Value)>>)
        ensures
            r == &self.metadata,
    {
        &self.metadata
    }

    /// The behaviors configured more than once, in the order noticed.
    pub fn multiple_settings(&self) -> (r: &Vec<String>)
        ensures
            r == &self.multiple_settings,
    {
        &self.multiple_settings
    }

    /// Replace the default strategy.
    pub fn set_default(&mut self, d: DefaultBehavior)
        ensures
            mb_view(*final(self)) == (MemberBuilderV {
                default: Some(db_view(d)),
                ..mb_view(*old(self))
            }),
    {
        self.default = Some(d);
    }

    /// Replace the pre-write hook.
    pub fn set_pre_setattr(&mut self, v: PreSetattrBehavior)
        ensures
            mb_view(*final(self)) == (MemberBuilderV {
                pre_setattr: Some(psb_view(v)),
                ..mb_view(*old(self))
            }),
    {
        self.pre_setattr = Some(v);
    }

    /// Replace the delete policy.
    pub fn set_delattr(&mut self, v: DelattrBehavior)
        ensures
            mb_view(*final(self)) == (MemberBuilderV { delattr: Some(v), ..mb_view(*old(self)) }),
    {
        self.delattr = Some(v);
    }

    /// Replace the type contract.
    pub fn set_type_validator(&mut self, tv: TypeValidator)
        ensures
            mb_view(*final(self)) == (MemberBuilderV {
                type_validator: Some(ty_view(tv)),
                ..mb_view(*old(self))
            }),
    {
        self.type_validator = Some(tv);
    }

    /// Take the configured secondary constraints out of the builder.
    pub fn take_value_validators(&mut self) -> (r: Option<Vec<ValueValidator>>)
        ensures
            r == old(self).value_validators,
            mb_view(*final(self)) == (MemberBuilderV {
                value_validators: None,
                ..mb_view(*old(self))
            }),
    {
        self.value_validators.take()
    }

    /// Replace the secondary constraints.
    pub fn set_value_validators(&mut self, v: Vec<ValueValidator>)
        ensures
            mb_view(*final(self)) == (MemberBuilderV {
                value_validators: Some(vv_views(v@)),
                ..mb_view(*old(self))
            }),
    {
        self.value_validators = Some(v);
    }

    /// Fill every unset behavior from an inherited member: the builder's own
    /// settings win, the member supplies the rest.
    pub fn get_inherited_behavior_from_member(&mut self, member: &Member)
        ensures
            mb_view(*final(self)) == (MemberBuilderV {
                pre_getattr: Some(
                    match old(self).pre_getattr {
                        Some(x) => pgb_view(x),
                        None => pgb_view(member.pre_getattr),
                    },
                ),
                post_getattr: Some(
                    match old(self).post_getattr {
                        Some(x) => pogb_view(x),
                        None => pogb_view(member.post_getattr),
                    },
                ),
                pre_setattr: Some(
                    match old(self).pre_setattr {
                        Some(x) => psb_view(x),
                        None => psb_view(member.pre_setattr),
                    },
                ),
                post_setattr: Some(
                    match old(self).post_setattr {
                        Some(x) => posb_view(x),
                        None => posb_view(member.post_setattr),
                    },
                ),
                delattr: Some(
                    match old(self).delattr {
                        Some(x) => x,
                        None => member.delattr,
                    },
                ),
                default: Some(
                    match old(self).default {
                        Some(x) => db_view(x),
                        None => db_view(member.default),
                    },
                ),
                type_validator: Some(
                    match old(self).type_validator {
                        Some(x) => ty_view(x),
                        None => ty_view(member.validator.type_validator),
                    },
                ),
                value_validators: Some(
                    match old(self).value_validators {
                        Some(x) => vv_views(x@),
                        None => vv_views(member.validator.value_validators@),
                    },
                ),
                coerce: match old(self).coerce {
                    Some(x) => Some(co_view(x)),
                    None => opt_co_view(member.validator.coercer),
                },
                coerce_init: match old(self).coerce_init {
                    Some(x) => Some(co_view(x)),
                    None => opt_co_view(member.validator.init_coercer),
                },
                metadata: match old(self).metadata {
                    Some(x) => Some(attr_views(x@)),
                    None => md_view(member.metadata),
                },
                ..mb_view(*old(self))
            }),
    {
        if self.pre_getattr.is_none() {
            self.pre_getattr = Some(member.pre_getattr.clone());
        }
        if self.post_getattr.is_none() {
            self.post_getattr = Some(member.post_getattr.clone());
        }
        if self.pre_setattr.is_none() {
            self.pre_setattr = Some(member.pre_setattr.clone());
        }
        if self.post_setattr.is_none() {
            self.post_setattr = Some(member.post_setattr.clone());
        }
        if self.delattr.is_none() {
            self.delattr = Some(member.delattr);
        }
        if self.default.is_none() {
            self.default = Some(member.default.clone());
        }
        if self.type_validator.is_none() {
            self.type_validator = Some(member.validator.type_validator.clone());
        }
        if self.value_validators.is_none() {
            self.value_validators = Some(clone_vvs(&member.validator.value_validators));
        }
        if self.coerce.is_none() {
            self.coerce = clone_opt_coercer(&member.validator.coercer);
        }
        if self.coerce_init.is_none() {
            self.coerce_init = clone_opt_coercer(&member.validator.init_coercer);
        }
        if self.metadata.is_none() {
            self.metadata = match &member.metadata {
                Some(m) => Some(clone_attrs(m)),
                None => None,
            };
        }
    }

    /// Finalize the member.  Construction fails without an assigned name or
    /// slot index; every unset behavior falls back to its neutral default;
    /// when structural coercion was requested on an alternation, members of
    /// the alternation without a policy of their own receive it too.
    pub fn build(self, owner: &String) -> (r: Result<Member, Error>)
        ensures
            match r {
                Ok(m) => {
                    &&& self.name is Some
                    &&& self.slot_index is Some
                    &&& m.name@ == self.name->0@
                    &&& m.slot_index == self.slot_index->0
                    &&& pgb_view(m.pre_getattr) == (match self.pre_getattr {
                        Some(x) => pgb_view(x),
                        None => PreGetattrBehaviorV::NoOp,
                    })
                    &&& pogb_view(m.post_getattr) == (match self.post_getattr {
                        Some(x) => pogb_view(x),
                        None => PostGetattrBehaviorV::NoOp,
                    })
                    &&& psb_view(m.pre_setattr) == (match self.pre_setattr {
                        Some(x) => psb_view(x),
                        None => PreSetattrBehaviorV::NoOp,
                    })
                    &&& posb_view(m.post_setattr) == (match self.post_setattr {
                        Some(x) => posb_view(x),
                        None => PostSetattrBehaviorV::NoOp,
                    })
                    &&& m.delattr == (match self.delattr {
                        Some(x) => x,
                        None => DelattrBehavior::Slot,
                    })
                    &&& db_view(m.default) == (match self.default {
                        Some(x) => db_view(x),
                        None => DefaultBehaviorV::NoDefault,
                    })
                    &&& ty_view(m.validator.type_validator) == propagate_union_spec(
                        match self.type_validator {
                            Some(x) => ty_view(x),
                            None => TypeValidatorV::Any,
                        },
                        opt_co_view(self.coerce),
                        opt_co_view(self.coerce_init),
                    )
                    &&& vv_views(m.validator.value_validators@) == (match self.value_validators {
                        Some(x) => vv_views(x@),
                        None => Seq::<crate::validators::ValueValidatorV>::empty(),
                    })
                    &&& opt_co_view(m.validator.coercer) == opt_co_view(self.coerce)
                    &&& opt_co_view(m.validator.init_coercer) == opt_co_view(self.coerce_init)
                    &&& md_view(m.metadata) == md_view(self.metadata)
                    &&& built_matches(m, self)
                },
                Err(e) => match self.name {
                    None => err_view(e) == (ErrorV::MissingMemberName { owner: owner@ }),
                    Some(n) => self.slot_index is None && err_view(e) == (ErrorV::MissingSlotIndex {
                        member: n@,
                        owner: owner@,
                    }),
                },
            },
    {
        let name = match self.name {
            Some(n) => n,
            None => {
                return Err(Error::MissingMemberName { owner: owner.clone() });
            },
        };
        let index = match self.slot_index {
            Some(i) => i,
            None => {
                return Err(
                    Error::MissingSlotIndex { member: name, owner: owner.clone() },
                );
            },
        };
        let tv = match self.type_validator {
            Some(t) => t,
            None => TypeValidator::Any,
        };
        let tv = propagate_union_coercion(tv, &self.coerce, &self.coerce_init);
        let vvs = match self.value_validators {
            Some(v) => v,
            None => Vec::new(),
        };
        proof {
            if self.value_validators is None {
                assert(vv_views(Seq::<ValueValidator>::empty()) =~= Seq::<
                    crate::validators::ValueValidatorV,
                >::empty());
            }
        }
        Ok(
            Member {
                name,
                slot_index: index,
                pre_getattr: match self.pre_getattr {
                    Some(x) => x,
                    None => PreGetattrBehavior::NoOp,
                },
                post_getattr: match self.post_getattr {
                    Some(x) => x,
                    None => PostGetattrBehavior::NoOp,
                },
                pre_setattr: match self.pre_setattr {
                    Some(x) => x,
                    None => PreSetattrBehavior::NoOp,
                },
                post_setattr: match self.post_setattr {
                    Some(x) => x,
                    None => PostSetattrBehavior::NoOp,
                },
                delattr: match self.delattr {
                    Some(x) => x,
                    None => DelattrBehavior::Slot,
                },
                default: match self.default {
                    Some(x) => x,
                    None => DefaultBehavior::NoDefault,
                },
                validator: Validator {
                    type_validator: tv,
                    value_validators: vvs,
                    coercer: self.coerce,
                    init_coercer: self.coerce_init,
                },
                metadata: self.metadata,
            },
        )
    }
}

/// Install the requested structural coercion on alternation members that
/// have no coercion policy of their own; any other target passes through
/// unchanged.
fn propagate_union_coercion(
    tv: TypeValidator,
    coerce: &Option<Coercer>,
    coerce_init: &Option<Coercer>,
) -> (r: TypeValidator)
    ensures
        ty_view(r) == propagate_union_spec(ty_view(tv), opt_co_view(*coerce), opt_co_view(*coerce_init)),
{
    match tv {
        TypeValidator::Union { members } => {
            let set_c = match coerce {
                Some(Coercer::TypeInferred) => true,
                _ => false,
            };
            let set_ic = match coerce_init {
                Some(Coercer::TypeInferred) => true,
                _ => false,
            };
            let mut out: Vec<Validator> = Vec::new();
            let mut i: usize = 0;
            let ghost target = propagate_union_spec(
                TypeValidatorV::Union { members: validator_views(members@) },
                opt_co_view(*coerce),
                opt_co_view(*coerce_init),
            );
            while i < members.len()
                invariant
                    i <= members.len(),
                    out@.len() == i,
                    set_c == (opt_co_view(*coerce) == Some::<crate::validators::CoercerV>(
                        crate::validators::CoercerV::TypeInferred,
                    )),
                    set_ic == (opt_co_view(*coerce_init) == Some::<crate::validators::CoercerV>(
                        crate::validators::CoercerV::TypeInferred,
                    )),
                    target == propagate_union_spec(
                        TypeValidatorV::Union { members: validator_views(members@) },
                        opt_co_view(*coerce),
                        opt_co_view(*coerce_init),
                    ),
                    forall|j: int|
                        0 <= j < i ==> validator_views(out@)[j] == target->Union_members[j],
                decreases members@.len() - i,
            {
                let m = &members[i];
                let new_c = if set_c && m.coercer.is_none() {
                    Some(Coercer::TypeInferred)
                } else {
                    clone_opt_coercer(&m.coercer)
                };
                let new_ic = if set_ic && m.init_coercer.is_none() {
                    Some(Coercer::TypeInferred)
                } else {
                    clone_opt_coercer(&m.init_coercer)
                };
                out.push(
                    Validator {
                        type_validator: m.type_validator.clone(),
                        value_validators: clone_vvs(&m.value_validators),
                        coercer: new_c,
                        init_coercer: new_ic,
                    },
                );
                i = i + 1;
            }
            proof {
                assert(validator_views(out@) =~= target->Union_members);
            }
            TypeValidator::Union { members: out }
        },
        _ => tv,
    }
}

} // verus!
