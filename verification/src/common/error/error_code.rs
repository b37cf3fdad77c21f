//! Numeric error codes, grouped by range.

use vstd::prelude::*;

verus! {

// Authentication errors (1000-1999)
pub const AUTH_INVALID_CREDENTIALS: u32 = 1001;

pub const AUTH_EXPIRED_TOKEN: u32 = 1002;

pub const AUTH_INSUFFICIENT_PERMISSIONS: u32 = 1003;

// Input validation errors (2000-2999)
pub const INPUT_INVALID_PARAMETER: u32 = 2001;

pub const INPUT_MISSING_REQUIRED: u32 = 2002;

pub const INPUT_INVALID_FORMAT: u32 = 2003;

// Policy errors (3000-3999)
pub const POLICY_COMMAND_NOT_ALLOWED: u32 = 3001;

pub const POLICY_NETWORK_ACCESS_DENIED: u32 = 3002;

pub const POLICY_FILE_ACCESS_DENIED: u32 = 3003;

pub const POLICY_RESOURCE_LIMIT_EXCEEDED: u32 = 3004;

// Sandbox errors (4000-4999)
pub const SANDBOX_SETUP_FAILED: u32 = 4001;

pub const SANDBOX_EXECUTION_FAILED: u32 = 4002;

pub const SANDBOX_RESOURCE_LIMIT_EXCEEDED: u32 = 4003;

// Internal errors (5000-5999)
pub const INTERNAL_UNEXPECTED: u32 = 5001;

pub const INTERNAL_DATABASE_ERROR: u32 = 5002;

pub const INTERNAL_DEPENDENCY_FAILED: u32 = 5003;

// Resource errors (6000-6999)
pub const RESOURCE_NOT_FOUND: u32 = 6001;

/// `code` is one of the codes declared in this module.
pub open spec fn is_declared(code: u32) -> bool {
    ||| code == AUTH_INVALID_CREDENTIALS
    ||| code == AUTH_EXPIRED_TOKEN
    ||| code == AUTH_INSUFFICIENT_PERMISSIONS
    ||| code == INPUT_INVALID_PARAMETER
    ||| code == INPUT_MISSING_REQUIRED
    ||| code == INPUT_INVALID_FORMAT
    ||| code == POLICY_COMMAND_NOT_ALLOWED
    ||| code == POLICY_NETWORK_ACCESS_DENIED
    ||| code == POLICY_FILE_ACCESS_DENIED
    ||| code == POLICY_RESOURCE_LIMIT_EXCEEDED
    ||| code == SANDBOX_SETUP_FAILED
    ||| code == SANDBOX_EXECUTION_FAILED
    ||| code == SANDBOX_RESOURCE_LIMIT_EXCEEDED
    ||| code == INTERNAL_UNEXPECTED
    ||| code == INTERNAL_DATABASE_ERROR
    ||| code == INTERNAL_DEPENDENCY_FAILED
    ||| code == RESOURCE_NOT_FOUND
}

} // verus!
