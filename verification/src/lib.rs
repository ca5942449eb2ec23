//! A runtime, schema-driven attribute model for composite record types.
//!
//! Each declared attribute carries a type contract, secondary value
//! constraints, a coercion policy, a default-value strategy and hooks around
//! read, write and delete. Records store their attributes in a fixed-size,
//! index-addressed slot array, so that once an attribute descriptor is
//! resolved no name lookup is needed.
//!
//! Host values (the values the embedding runtime hands in and out) are
//! modelled by the [`value::Value`] enum; work that only the host can do
//! (calling a user-registered callable or method, constructing an instance of
//! a host class) goes through the [`host::HostCalls`] capability trait.

pub mod errors;
pub mod host;
pub mod instance;
pub mod laws;
pub mod member;
pub mod meta;
pub mod validators;
pub mod value;
