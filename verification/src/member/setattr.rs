//! Hooks around writing an attribute.
//!
//! The pre-write hook decides whether the write may proceed, given the
//! current slot value; the post-write hook observes the old and new values.

use vstd::prelude::*;

use crate::errors::ErrCtx;
use crate::errors::ErrCtxV;
use crate::errors::Error;
use crate::errors::ErrorV;
use crate::errors::ctx_view;
use crate::host::HostCallable;
use crate::host::HostCalls;
use crate::value::Value;

verus! {

/// Declared arity of a pre-write callable: the member, the instance and the
/// current value.
pub const PRE_SETATTR_ARITY: u8 = 3;

/// Declared arity of a post-write callable: the member, the instance, the
/// old value and the new value.
pub const POST_SETATTR_ARITY: u8 = 4;

/// Behavior before a write.
pub enum PreSetattrBehavior {
    /// The write proceeds.
    NoOp,
    /// Every write is rejected: the member only ever receives its default.
    Constant,
    /// The first write to an unset slot proceeds; any later write is
    /// rejected.
    ReadOnly,
    /// A host callable receives the member, the instance and the current
    /// value.
    CallMemberObjectValue { callable: HostCallable },
    /// A named method of the owning instance receives the member and the
    /// current value.
    ObjectMethod { meth_name: String },
}

/// Mathematical view of a pre-write hook.
pub enum PreSetattrBehaviorV {
    NoOp,
    Constant,
    ReadOnly,
    CallMemberObjectValue { callable: HostCallable },
    ObjectMethod { meth_name: Seq<char> },
}

/// View of a pre-write hook.
pub open spec fn psb_view(b: PreSetattrBehavior) -> PreSetattrBehaviorV {
    match b {
        PreSetattrBehavior::NoOp => PreSetattrBehaviorV::NoOp,
        PreSetattrBehavior::Constant => PreSetattrBehaviorV::Constant,
        PreSetattrBehavior::ReadOnly => PreSetattrBehaviorV::ReadOnly,
        PreSetattrBehavior::CallMemberObjectValue { callable } => PreSetattrBehaviorV::CallMemberObjectValue {
            callable,
        },
        PreSetattrBehavior::ObjectMethod { meth_name } => PreSetattrBehaviorV::ObjectMethod {
            meth_name: meth_name@,
        },
    }
}

/// Whether a pre-write hook involves no host callback.
pub open spec fn psb_pure(b: PreSetattrBehaviorV) -> bool {
    match b {
        PreSetattrBehaviorV::NoOp => true,
        PreSetattrBehaviorV::Constant => true,
        PreSetattrBehaviorV::ReadOnly => true,
        _ => false,
    }
}

/// What a pure pre-write hook decides, given whether the slot already holds
/// a value.
pub open spec fn pre_set_spec(b: PreSetattrBehaviorV, already_set: bool, ctx: Option<ErrCtxV>) -> Result<(), ErrorV> {
    match b {
        PreSetattrBehaviorV::NoOp => Ok(()),
        PreSetattrBehaviorV::Constant => Err(ErrorV::ConstantMember { ctx }),
        PreSetattrBehaviorV::ReadOnly => if already_set {
            Err(ErrorV::ReadOnlyMember { ctx })
        } else {
            Ok(())
        },
        _ => Ok(()),
    }
}

impl PreSetattrBehavior {
    /// Register a callable for the member/instance/value form; its declared
    /// arity must match.
    pub fn call_member_object_value(c: HostCallable) -> (r: Result<Self, Error>)
        ensures
            match r {
                Ok(b) => c.arity == PRE_SETATTR_ARITY && (b matches PreSetattrBehavior::CallMemberObjectValue { callable } && callable == c),
                Err(e) => c.arity != PRE_SETATTR_ARITY && (e matches Error::WrongCallableArity { expected, actual } && expected == PRE_SETATTR_ARITY && actual == c.arity),
            },
    {
        if c.arity == PRE_SETATTR_ARITY {
            Ok(PreSetattrBehavior::CallMemberObjectValue { callable: c })
        } else {
            Err(Error::WrongCallableArity { expected: PRE_SETATTR_ARITY, actual: c.arity })
        }
    }

    /// Decide whether the write may proceed.
    pub fn pre_set<H: HostCalls>(
        &self,
        ctx: &ErrCtx,
        current: &Option<Value>,
        host: &mut H,
    ) -> (r: Result<(), Error>)
        ensures
            psb_pure(psb_view(*self)) ==> crate::validators::unit_res_view(r) == pre_set_spec(
                psb_view(*self),
                current is Some,
                ctx_view(Some(*ctx)),
            ),
    {
        match self {
            PreSetattrBehavior::NoOp => Ok(()),
            PreSetattrBehavior::Constant => Err(
                Error::ConstantMember { ctx: Some(ctx.clone()) },
            ),
            PreSetattrBehavior::ReadOnly => {
                if current.is_some() {
                    Err(Error::ReadOnlyMember { ctx: Some(ctx.clone()) })
                } else {
                    Ok(())
                }
            },
            PreSetattrBehavior::CallMemberObjectValue { callable } => {
                let mut args: Vec<Value> = Vec::new();
                args.push(Value::Str(ctx.member.clone()));
                args.push(
                    match current {
                        Some(v) => v.clone(),
                        None => Value::NoneValue,
                    },
                );
                match host.call_callable(callable, args) {
                    Ok(_) => Ok(()),
                    Err(e) => Err(e),
                }
            },
            PreSetattrBehavior::ObjectMethod { meth_name } => {
                let mut args: Vec<Value> = Vec::new();
                args.push(Value::Str(ctx.member.clone()));
                args.push(
                    match current {
                        Some(v) => v.clone(),
                        None => Value::NoneValue,
                    },
                );
                match host.call_method(meth_name, args) {
                    Ok(_) => Ok(()),
                    Err(e) => Err(e),
                }
            },
        }
    }
}

impl Clone for PreSetattrBehavior {
    fn clone(&self) -> (res: Self)
        ensures
            psb_view(res) == psb_view(*self),
    {
        match self {
            PreSetattrBehavior::NoOp => PreSetattrBehavior::NoOp,
            PreSetattrBehavior::Constant => PreSetattrBehavior::Constant,
            PreSetattrBehavior::ReadOnly => PreSetattrBehavior::ReadOnly,
            PreSetattrBehavior::CallMemberObjectValue { callable } => PreSetattrBehavior::CallMemberObjectValue {
                callable: *callable,
            },
            PreSetattrBehavior::ObjectMethod { meth_name } => PreSetattrBehavior::ObjectMethod {
                meth_name: meth_name.clone(),
            },
        }
    }
}

/// Behavior after a write, given the old and new values.
pub enum PostSetattrBehavior {
    /// Nothing happens.
    NoOp,
    /// A host callable receives the member, the instance, the old value and
    /// the new value.
    CallMemberObjectOldNew { callable: HostCallable },
    /// A named method of the owning instance receives the member, the old
    /// value and the new value.
    ObjectMethod { meth_name: String },
}

/// Mathematical view of a post-write hook.
pub enum PostSetattrBehaviorV {
    NoOp,
    CallMemberObjectOldNew { callable: HostCallable },
    ObjectMethod { meth_name: Seq<char> },
}

/// View of a post-write hook.
pub open spec fn posb_view(b: PostSetattrBehavior) -> PostSetattrBehaviorV {
    match b {
        PostSetattrBehavior::NoOp => PostSetattrBehaviorV::NoOp,
        PostSetattrBehavior::CallMemberObjectOldNew { callable } => PostSetattrBehaviorV::CallMemberObjectOldNew {
            callable,
        },
        PostSetattrBehavior::ObjectMethod { meth_name } => PostSetattrBehaviorV::ObjectMethod {
            meth_name: meth_name@,
        },
    }
}

impl PostSetattrBehavior {
    /// Register a callable for the member/instance/old/new form; its
    /// declared arity must match.
    pub fn call_member_object_old_new(c: HostCallable) -> (r: Result<Self, Error>)
        ensures
            match r {
                Ok(b) => c.arity == POST_SETATTR_ARITY && (b matches PostSetattrBehavior::CallMemberObjectOldNew { callable } && callable == c),
                Err(e) => c.arity != POST_SETATTR_ARITY && (e matches Error::WrongCallableArity { expected, actual } && expected == POST_SETATTR_ARITY && actual == c.arity),
            },
    {
        if c.arity == POST_SETATTR_ARITY {
            Ok(PostSetattrBehavior::CallMemberObjectOldNew { callable: c })
        } else {
            Err(Error::WrongCallableArity { expected: POST_SETATTR_ARITY, actual: c.arity })
        }
    }

    /// Run the hook with the old and new values.
    pub fn post_set<H: HostCalls>(
        &self,
        ctx: &ErrCtx,
        old_value: &Option<Value>,
        new_value: &Value,
        host: &mut H,
    ) -> (r: Result<(), Error>)
        ensures
            self is NoOp ==> r is Ok,
    {
        match self {
            PostSetattrBehavior::NoOp => Ok(()),
            PostSetattrBehavior::CallMemberObjectOldNew { callable } => {
                let mut args: Vec<Value> = Vec::new();
                args.push(Value::Str(ctx.member.clone()));
                args.push(
                    match old_value {
                        Some(v) => v.clone(),
                        None => Value::NoneValue,
                    },
                );
                args.push(new_value.clone());
                match host.call_callable(callable, args) {
                    Ok(_) => Ok(()),
                    Err(e) => Err(e),
                }
            },
            PostSetattrBehavior::ObjectMethod { meth_name } => {
                let mut args: Vec<Value> = Vec::new();
                args.push(Value::Str(ctx.member.clone()));
                args.push(
                    match old_value {
                        Some(v) => v.clone(),
                        None => Value::NoneValue,
                    },
                );
                args.push(new_value.clone());
                match host.call_method(meth_name, args) {
                    Ok(_) => Ok(()),
                    Err(e) => Err(e),
                }
            },
        }
    }
}

impl Clone for PostSetattrBehavior {
    fn clone(&self) -> (res: Self)
        ensures
            posb_view(res) == posb_view(*self),
    {
        match self {
            PostSetattrBehavior::NoOp => PostSetattrBehavior::NoOp,
            PostSetattrBehavior::CallMemberObjectOldNew { callable } => PostSetattrBehavior::CallMemberObjectOldNew {
                callable: *callable,
            },
            PostSetattrBehavior::ObjectMethod { meth_name } => PostSetattrBehavior::ObjectMethod {
                meth_name: meth_name.clone(),
            },
        }
    }
}

} // verus!
