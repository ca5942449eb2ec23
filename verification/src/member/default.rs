//! The default-value strategy of an attribute.
//!
//! A read of an unset slot consults the strategy to materialize a value,
//! which is then validated and stored.

use vstd::prelude::*;

use crate::errors::ErrCtx;
use crate::errors::Error;
use crate::errors::ErrorV;
use crate::errors::err_view;
use crate::host::HostCallable;
use crate::host::HostCalls;
use crate::validators::Validator;
use crate::value::Value;
use crate::value::ValueV;
use crate::value::clone_attrs;
use crate::value::clone_values;
use crate::value::vview;

verus! {

/// Declared arity of a zero-argument default callable.
pub const DEFAULT_CALL_ARITY: u8 = 0;

/// Declared arity of a default callable receiving the member and the
/// instance.
pub const DEFAULT_CALL_MEMBER_OBJECT_ARITY: u8 = 2;

/// How a default value is produced for an unset slot.
pub enum DefaultBehavior {
    /// There is no default: reading an unset slot fails.
    NoDefault,
    /// A fixed preconstructed value.
    Static { value: Value },
    /// Delegate to the validator's own construct-default operation, with
    /// captured construction arguments.
    ValidatorDelegate { args: Vec<Value>, kwargs: Vec<(String, Value)> },
    /// A zero-argument host callable.
    Call { callable: HostCallable },
    /// A host callable receiving the member and the instance.
    CallMemberObject { callable: HostCallable },
    /// A named method of the owning instance.
    ObjectMethod { meth_name: String },
}

/// Mathematical view of a default strategy.
pub enum DefaultBehaviorV {
    NoDefault,
    Static { value: ValueV },
    ValidatorDelegate { args: Seq<ValueV>, kwargs: Seq<(Seq<char>, ValueV)> },
    Call { callable: HostCallable },
    CallMemberObject { callable: HostCallable },
    ObjectMethod { meth_name: Seq<char> },
}

/// View of a default strategy.
pub open spec fn db_view(b: DefaultBehavior) -> DefaultBehaviorV {
    match b {
        DefaultBehavior::NoDefault => DefaultBehaviorV::NoDefault,
        DefaultBehavior::Static { value } => DefaultBehaviorV::Static { value: vview(value) },
        DefaultBehavior::ValidatorDelegate { args, kwargs } => DefaultBehaviorV::ValidatorDelegate {
            args: crate::value::views_of(args@),
            kwargs: crate::value::attr_views(kwargs@),
        },
        DefaultBehavior::Call { callable } => DefaultBehaviorV::Call { callable },
        DefaultBehavior::CallMemberObject { callable } => DefaultBehaviorV::CallMemberObject {
            callable,
        },
        DefaultBehavior::ObjectMethod { meth_name } => DefaultBehaviorV::ObjectMethod {
            meth_name: meth_name@,
        },
    }
}

impl DefaultBehavior {
    /// Register a zero-argument callable; its declared arity must match.
    pub fn call(c: HostCallable) -> (r: Result<Self, Error>)
        ensures
            match r {
                Ok(b) => c.arity == DEFAULT_CALL_ARITY && (b matches DefaultBehavior::Call { callable } && callable == c),
                Err(e) => c.arity != DEFAULT_CALL_ARITY && (e matches Error::WrongCallableArity { expected, actual } && expected == DEFAULT_CALL_ARITY && actual == c.arity),
            },
    {
        if c.arity == DEFAULT_CALL_ARITY {
            Ok(DefaultBehavior::Call { callable: c })
        } else {
            Err(Error::WrongCallableArity { expected: DEFAULT_CALL_ARITY, actual: c.arity })
        }
    }

    /// Register a callable for the member/instance form; its declared arity
    /// must match.
    pub fn call_member_object(c: HostCallable) -> (r: Result<Self, Error>)
        ensures
            match r {
                Ok(b) => c.arity == DEFAULT_CALL_MEMBER_OBJECT_ARITY && (b matches DefaultBehavior::CallMemberObject { callable } && callable == c),
                Err(e) => c.arity != DEFAULT_CALL_MEMBER_OBJECT_ARITY && (e matches Error::WrongCallableArity { expected, actual } && expected == DEFAULT_CALL_MEMBER_OBJECT_ARITY && actual == c.arity),
            },
    {
        if c.arity == DEFAULT_CALL_MEMBER_OBJECT_ARITY {
            Ok(DefaultBehavior::CallMemberObject { callable: c })
        } else {
            Err(
                Error::WrongCallableArity {
                    expected: DEFAULT_CALL_MEMBER_OBJECT_ARITY,
                    actual: c.arity,
                },
            )
        }
    }

    /// Materialize a default value for an unset slot.  With no default the
    /// read fails, naming the attribute and its owner; a static default is
    /// produced as a copy; the delegate form asks the validator, and the
    /// callable forms ask the host.
    pub fn default_value<H: HostCalls>(
        &self,
        ctx: &ErrCtx,
        validator: &Validator,
        host: &mut H,
    ) -> (r: Result<Value, Error>)
        ensures
            self is NoDefault ==> (r matches Err(e) && err_view(e) == (ErrorV::MissingValue {
                ctx: ctx.deep_view(),
            })),
            self is Static ==> (r matches Ok(v) && db_view(*self) == (DefaultBehaviorV::Static {
                value: vview(v),
            })),
    {
        match self {
            DefaultBehavior::NoDefault => Err(Error::MissingValue { ctx: ctx.clone() }),
            DefaultBehavior::Static { value } => Ok(value.clone()),
            DefaultBehavior::ValidatorDelegate { args, kwargs } => validator.create_default(
                args,
                kwargs,
                &Some(ctx.clone()),
                host,
            ),
            DefaultBehavior::Call { callable } => {
                let args: Vec<Value> = Vec::new();
                host.call_callable(callable, args)
            },
            DefaultBehavior::CallMemberObject { callable } => {
                let mut args: Vec<Value> = Vec::new();
                args.push(Value::Str(ctx.member.clone()));
                host.call_callable(callable, args)
            },
            DefaultBehavior::ObjectMethod { meth_name } => {
                let mut args: Vec<Value> = Vec::new();
                args.push(Value::Str(ctx.member.clone()));
                host.call_method(meth_name, args)
            },
        }
    }
}

impl Clone for DefaultBehavior {
    fn clone(&self) -> (res: Self)
        ensures
            db_view(res) == db_view(*self),
    {
        match self {
            DefaultBehavior::NoDefault => DefaultBehavior::NoDefault,
            DefaultBehavior::Static { value } => DefaultBehavior::Static { value: value.clone() },
            DefaultBehavior::ValidatorDelegate { args, kwargs } => DefaultBehavior::ValidatorDelegate {
                args: clone_values(args),
                kwargs: clone_attrs(kwargs),
            },
            DefaultBehavior::Call { callable } => DefaultBehavior::Call { callable: *callable },
            DefaultBehavior::CallMemberObject { callable } => DefaultBehavior::CallMemberObject {
                callable: *callable,
            },
            DefaultBehavior::ObjectMethod { meth_name } => DefaultBehavior::ObjectMethod {
                meth_name: meth_name.clone(),
            },
        }
    }
}

} // verus!
