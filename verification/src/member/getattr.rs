//! Hooks around reading an attribute.
//!
//! A pre-read hook runs before the slot is consulted; a post-read hook runs
//! with the produced value and may observe but never replace it — a
//! deliberate design choice that keeps every stored value on the validation
//! path.

use vstd::prelude::*;

use crate::errors::Error;
use crate::host::HostCallable;
use crate::host::HostCalls;
use crate::value::Value;

verus! {

/// Declared arity of a pre-read callable: the member and the instance.
pub const PRE_GETATTR_ARITY: u8 = 2;

/// Declared arity of a post-read callable: the member, the instance and the
/// value.
pub const POST_GETATTR_ARITY: u8 = 3;

/// Behavior before a read.
pub enum PreGetattrBehavior {
    /// Nothing happens.
    NoOp,
    /// A host callable receives the member and the instance.
    CallMemberObject { callable: HostCallable },
    /// A named method of the owning instance receives the member.
    ObjectMethod { meth_name: String },
}

impl PreGetattrBehavior {
    /// Register a callable for the member/instance form; its declared arity
    /// must match.
    pub fn call_member_object(c: HostCallable) -> (r: Result<Self, Error>)
        ensures
            match r {
                Ok(b) => c.arity == PRE_GETATTR_ARITY && (b matches PreGetattrBehavior::CallMemberObject { callable } && callable == c),
                Err(e) => c.arity != PRE_GETATTR_ARITY && (e matches Error::WrongCallableArity { expected, actual } && expected == PRE_GETATTR_ARITY && actual == c.arity),
            },
    {
        if c.arity == PRE_GETATTR_ARITY {
            Ok(PreGetattrBehavior::CallMemberObject { callable: c })
        } else {
            Err(Error::WrongCallableArity { expected: PRE_GETATTR_ARITY, actual: c.arity })
        }
    }

    /// Run the hook.  Doing nothing always succeeds; what a host callback
    /// returns is the host's business, only its success or failure counts.
    pub fn pre_get<H: HostCalls>(&self, member_name: &String, host: &mut H) -> (r: Result<
        (),
        Error,
    >)
        ensures
            self is NoOp ==> r is Ok,
    {
        match self {
            PreGetattrBehavior::NoOp => Ok(()),
            PreGetattrBehavior::CallMemberObject { callable } => {
                let mut args: Vec<Value> = Vec::new();
                args.push(Value::Str(member_name.clone()));
                match host.call_callable(callable, args) {
                    Ok(_) => Ok(()),
                    Err(e) => Err(e),
                }
            },
            PreGetattrBehavior::ObjectMethod { meth_name } => {
                let mut args: Vec<Value> = Vec::new();
                args.push(Value::Str(member_name.clone()));
                match host.call_method(meth_name, args) {
                    Ok(_) => Ok(()),
                    Err(e) => Err(e),
                }
            },
        }
    }
}

impl Clone for PreGetattrBehavior {
    fn clone(&self) -> (res: Self)
        ensures
            res is NoOp == *self is NoOp,
            pgb_view(res) == pgb_view(*self),
    {
        match self {
            PreGetattrBehavior::NoOp => PreGetattrBehavior::NoOp,
            PreGetattrBehavior::CallMemberObject { callable } => PreGetattrBehavior::CallMemberObject {
                callable: *callable,
            },
            PreGetattrBehavior::ObjectMethod { meth_name } => PreGetattrBehavior::ObjectMethod {
                meth_name: meth_name.clone(),
            },
        }
    }
}

/// Mathematical view of a pre-read hook.
pub enum PreGetattrBehaviorV {
    NoOp,
    CallMemberObject { callable: HostCallable },
    ObjectMethod { meth_name: Seq<char> },
}

/// View of a pre-read hook.
pub open spec fn pgb_view(b: PreGetattrBehavior) -> PreGetattrBehaviorV {
    match b {
        PreGetattrBehavior::NoOp => PreGetattrBehaviorV::NoOp,
        PreGetattrBehavior::CallMemberObject { callable } => PreGetattrBehaviorV::CallMemberObject {
            callable,
        },
        PreGetattrBehavior::ObjectMethod { meth_name } => PreGetattrBehaviorV::ObjectMethod {
            meth_name: meth_name@,
        },
    }
}

/// Behavior after a read, given the produced value.
pub enum PostGetattrBehavior {
    /// Nothing happens.
    NoOp,
    /// A host callable receives the member, the instance and the value.
    CallMemberObjectValue { callable: HostCallable },
    /// A named method of the owning instance receives the member and the
    /// value.
    ObjectMethod { meth_name: String },
}

impl PostGetattrBehavior {
    /// Register a callable for the member/instance/value form; its declared
    /// arity must match.
    pub fn call_member_object_value(c: HostCallable) -> (r: Result<Self, Error>)
        ensures
            match r {
                Ok(b) => c.arity == POST_GETATTR_ARITY && (b matches PostGetattrBehavior::CallMemberObjectValue { callable } && callable == c),
                Err(e) => c.arity != POST_GETATTR_ARITY && (e matches Error::WrongCallableArity { expected, actual } && expected == POST_GETATTR_ARITY && actual == c.arity),
            },
    {
        if c.arity == POST_GETATTR_ARITY {
            Ok(PostGetattrBehavior::CallMemberObjectValue { callable: c })
        } else {
            Err(Error::WrongCallableArity { expected: POST_GETATTR_ARITY, actual: c.arity })
        }
    }

    /// Run the hook with the produced value; the value itself cannot be
    /// replaced.
    pub fn post_get<H: HostCalls>(
        &self,
        member_name: &String,
        value: &Value,
        host: &mut H,
    ) -> (r: Result<(), Error>)
        ensures
            self is NoOp ==> r is Ok,
    {
        match self {
            PostGetattrBehavior::NoOp => Ok(()),
            PostGetattrBehavior::CallMemberObjectValue { callable } => {
                let mut args: Vec<Value> = Vec::new();
                args.push(Value::Str(member_name.clone()));
                args.push(value.clone());
                match host.call_callable(callable, args) {
                    Ok(_) => Ok(()),
                    Err(e) => Err(e),
                }
            },
            PostGetattrBehavior::ObjectMethod { meth_name } => {
                let mut args: Vec<Value> = Vec::new();
                args.push(Value::Str(member_name.clone()));
                args.push(value.clone());
                match host.call_method(meth_name, args) {
                    Ok(_) => Ok(()),
                    Err(e) => Err(e),
                }
            },
        }
    }
}

impl Clone for PostGetattrBehavior {
    fn clone(&self) -> (res: Self)
        ensures
            res is NoOp == *self is NoOp,
            pogb_view(res) == pogb_view(*self),
    {
        match self {
            PostGetattrBehavior::NoOp => PostGetattrBehavior::NoOp,
            PostGetattrBehavior::CallMemberObjectValue { callable } => PostGetattrBehavior::CallMemberObjectValue {
                callable: *callable,
            },
            PostGetattrBehavior::ObjectMethod { meth_name } => PostGetattrBehavior::ObjectMethod {
                meth_name: meth_name.clone(),
            },
        }
    }
}

/// Mathematical view of a post-read hook.
pub enum PostGetattrBehaviorV {
    NoOp,
    CallMemberObjectValue { callable: HostCallable },
    ObjectMethod { meth_name: Seq<char> },
}

/// View of a post-read hook.
pub open spec fn pogb_view(b: PostGetattrBehavior) -> PostGetattrBehaviorV {
    match b {
        PostGetattrBehavior::NoOp => PostGetattrBehaviorV::NoOp,
        PostGetattrBehavior::CallMemberObjectValue { callable } => PostGetattrBehaviorV::CallMemberObjectValue {
            callable,
        },
        PostGetattrBehavior::ObjectMethod { meth_name } => PostGetattrBehaviorV::ObjectMethod {
            meth_name: meth_name@,
        },
    }
}

} // verus!
