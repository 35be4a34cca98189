//! Compiles structured sandbox launch intentions (network policy, device
//! policy, user-namespace policy, filesystem bindings, graphics and sync
//! tuning) into the ordered directive list understood by a namespace
//! sandboxing front-end, together with the parsing and validation that must
//! succeed before any directive is emitted.

pub mod bottles;
pub mod bwrap;
pub mod directive;
pub mod display;
pub mod invoker;
pub mod modes;
pub mod mount;
pub mod sandbox;
pub mod strings;
pub mod user;
