//! The capability boundary to the embedding runtime.
//!
//! User-supplied behaviors (hooks, callback validators, callback coercers,
//! callback defaults) and host-class construction run arbitrary host code.
//! The engine reaches them only through the [`HostCalls`] trait; nothing is
//! assumed about what such a call returns, so everything proved about the
//! engine holds for every host.  A registered callable is identified by a
//! plain handle carrying its declared arity, which each behavior constructor
//! checks at registration time.

use vstd::prelude::*;

use crate::errors::Error;
use crate::value::Value;

verus! {

/// A handle to a host callable: an identifier the host understands, plus the
/// number of arguments the callable declares.
#[derive(Clone, Copy, PartialEq, Eq, Structural)]
pub struct HostCallable {
    pub id: u64,
    pub arity: u8,
}

/// A built-in constructor of the host runtime that structural coercion may
/// delegate to when no exact conversion can be stated over the model: the
/// host decides success and result.
#[derive(Clone, Copy, PartialEq, Eq, Structural)]
pub enum PrimitiveTarget {
    Int,
    Float,
    Str,
    Bytes,
    Dict,
}

/// What the engine may ask of the embedding runtime.
///
/// No contract is stated for these operations: every proof about the engine
/// holds whatever a host returns.  The host is expected to bind the owning
/// member and instance itself; the engine hands over only plain values.
pub trait HostCalls {
    /// Invoke a registered callable with the given arguments.
    fn call_callable(&mut self, target: &HostCallable, args: Vec<Value>) -> Result<Value, Error>;

    /// Invoke a named method of the owning record instance with the given
    /// arguments.
    fn call_method(&mut self, meth_name: &String, args: Vec<Value>) -> Result<Value, Error>;

    /// Construct an instance of the named host class from positional and
    /// keyword arguments.
    fn construct(
        &mut self,
        class_id: u64,
        args: &Vec<Value>,
        kwargs: &Vec<(String, Value)>,
    ) -> Result<Value, Error>;

    /// Apply a built-in constructor of the host runtime to one value.
    fn construct_primitive(
        &mut self,
        target: PrimitiveTarget,
        value: &Value,
    ) -> Result<Value, Error>;
}

} // verus!
