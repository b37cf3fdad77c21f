//! Types and helpers shared by every component of the gateway.

pub mod error;
pub mod grpc;
pub mod json;
pub mod models;
pub mod text;
pub mod utils;
