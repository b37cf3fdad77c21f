//! Security gateway for untrusted command execution.
//!
//! The crate holds the decision logic of the gateway: the error taxonomy and
//! its wire mapping, the access-control policy evaluator, the composition of
//! sandbox launches, and the task lifecycle store with the request service
//! built on top of it. Every function carries a contract that Verus proves.

pub mod common;
pub mod gateway;
pub mod policy;
pub mod sandbox;
