//! Access-control policy: the input and decision model, the built-in rule
//! set, and the engine that turns decisions into errors.

pub mod engine;
pub mod models;
pub mod opa;
pub mod rules;
