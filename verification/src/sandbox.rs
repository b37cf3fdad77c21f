//! Sandboxed execution: what a request asks for, how its launch is
//! composed, and what its outcome comes to.

pub mod bubblewrap;
pub mod executor;
pub mod models;
pub mod runner;
pub mod seccomp;
