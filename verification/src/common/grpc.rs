//! Mapping between the error taxonomy and the status codes of the RPC
//! transport.

use crate::common::error::error_code;
use crate::common::error::{ErrorKind, ErrorResponse, McpError};
use vstd::prelude::*;

verus! {

/// Status codes of the RPC transport.
#[derive(Debug, Clone, Copy, PartialEq, Eq, Hash, Structural)]
pub enum Code {
    /// The call succeeded.
    Success,
    Cancelled,
    Unknown,
    InvalidArgument,
    DeadlineExceeded,
    NotFound,
    AlreadyExists,
    PermissionDenied,
    ResourceExhausted,
    FailedPrecondition,
    Aborted,
    OutOfRange,
    Unimplemented,
    Internal,
    Unavailable,
    DataLoss,
    Unauthenticated,
}

/// Key under which the structured payload of an error travels in the
/// metadata of a response.
pub const ERROR_DETAILS_KEY: &'static str = "error-details";

/// A status as the RPC transport sends it: a code, a message for people,
/// and the structured payload where one is attached.
#[derive(Debug)]
pub struct Status {
    pub code: Code,
    pub message: String,
    /// The structured payload, where one is attached.
    pub payload: Option<ErrorResponse>,
    /// The metadata of the response, as keys with their values. A payload
    /// travels here as JSON text under `ERROR_DETAILS_KEY`.
    pub metadata: Vec<(String, String)>,
}

/// The keys and values of a list of metadata, in order.
pub open spec fn metadata_view(metadata: Seq<(String, String)>) -> Seq<(Seq<char>, Seq<char>)> {
    Seq::new(metadata.len(), |i: int| (metadata[i].0@, metadata[i].1@))
}

/// Some entry of the metadata has the key.
pub open spec fn has_key(metadata: Seq<(Seq<char>, Seq<char>)>, key: Seq<char>) -> bool {
    exists|i: int| 0 <= i < metadata.len() && (#[trigger] metadata[i]).0 == key
}

impl Status {
    /// A status with the given code and message and no payload.
    pub fn new(code: Code, message: String) -> (s: Status)
        ensures
            s.code == code,
            s.message == message,
            s.payload is None,
            s.metadata@.len() == 0,
    {
        Status { code, message, payload: None, metadata: Vec::new() }
    }

    /// The status code.
    pub fn code(&self) -> (c: Code)
        ensures
            c == self.code,
    {
        self.code
    }

    /// The message.
    pub fn message(&self) -> (m: &str)
        ensures
            m@ == self.message@,
    {
        self.message.as_str()
    }

    /// Whether a structured payload is attached.
    pub fn has_payload(&self) -> (yes: bool)
        ensures
            yes == (self.payload is Some),
    {
        self.payload.is_some()
    }

    /// Whether the metadata has an entry under `key`.
    pub fn metadata_contains_key(&self, key: &str) -> (yes: bool)
        ensures
            yes == has_key(metadata_view(self.metadata@), key@),
    {
        let mut i: usize = 0;
        while i < self.metadata.len()
            invariant
                i <= self.metadata.len(),
                forall|j: int| 0 <= j < i ==> self.metadata@[j].0@ != key@,
            decreases self.metadata.len() - i,
        {
            if crate::common::text::str_equal(self.metadata[i].0.as_str(), key) {
                assert(metadata_view(self.metadata@)[i as int].0 == key@);
                return true;
            }
            i = i + 1;
        }
        assert forall|j: int| 0 <= j < metadata_view(self.metadata@).len() implies (
        #[trigger] metadata_view(self.metadata@)[j]).0 != key@ by {
            assert(self.metadata@[j].0@ != key@);
        }
        false
    }

    /// The value of the first entry of the metadata under `key`.
    pub fn metadata_get(&self, key: &str) -> (value: Option<&str>)
        ensures
            value is Some <==> has_key(metadata_view(self.metadata@), key@),
            value is Some ==> exists|i: int|
                0 <= i < self.metadata@.len() && (#[trigger] self.metadata@[i]).0@ == key@
                    && self.metadata@[i].1@ == value->0@ && forall|j: int|
                    0 <= j < i ==> self.metadata@[j].0@ != key@,
    {
        let mut i: usize = 0;
        while i < self.metadata.len()
            invariant
                i <= self.metadata.len(),
                forall|j: int| 0 <= j < i ==> self.metadata@[j].0@ != key@,
            decreases self.metadata.len() - i,
        {
            if crate::common::text::str_equal(self.metadata[i].0.as_str(), key) {
                assert(metadata_view(self.metadata@)[i as int].0 == key@);
                return Some(self.metadata[i].1.as_str());
            }
            i = i + 1;
        }
        assert forall|j: int| 0 <= j < metadata_view(self.metadata@).len() implies (
        #[trigger] metadata_view(self.metadata@)[j]).0 != key@ by {
            assert(self.metadata@[j].0@ != key@);
        }
        None
    }
}

/// The status code under which an error of each kind is sent.
pub open spec fn status_of_kind(kind: ErrorKind) -> Code {
    match kind {
        ErrorKind::Auth => Code::Unauthenticated,
        ErrorKind::InvalidRequest => Code::InvalidArgument,
        ErrorKind::NotFound => Code::NotFound,
        ErrorKind::PolicyViolation => Code::PermissionDenied,
        ErrorKind::Sandbox => Code::FailedPrecondition,
        ErrorKind::Execution => Code::Internal,
        ErrorKind::Internal => Code::Internal,
        ErrorKind::Temporary => Code::Unavailable,
        ErrorKind::ExternalService => Code::Unavailable,
    }
}

/// The status code under which an error is sent.
pub open spec fn status_of_error(e: McpError) -> Code {
    status_of_kind(e.spec_kind())
}

/// The status code that stands for an error code; `Unknown` for a number
/// that is no declared error code.
pub open spec fn status_of_code(code: u32) -> Code {
    if code == error_code::AUTH_INVALID_CREDENTIALS {
        Code::Unauthenticated
    } else if code == error_code::AUTH_EXPIRED_TOKEN {
        Code::Unauthenticated
    } else if code == error_code::AUTH_INSUFFICIENT_PERMISSIONS {
        Code::PermissionDenied
    } else if code == error_code::INPUT_INVALID_PARAMETER {
        Code::InvalidArgument
    } else if code == error_code::INPUT_MISSING_REQUIRED {
        Code::InvalidArgument
    } else if code == error_code::INPUT_INVALID_FORMAT {
        Code::InvalidArgument
    } else if code == error_code::POLICY_COMMAND_NOT_ALLOWED {
        Code::PermissionDenied
    } else if code == error_code::POLICY_NETWORK_ACCESS_DENIED {
        Code::PermissionDenied
    } else if code == error_code::POLICY_FILE_ACCESS_DENIED {
        Code::PermissionDenied
    } else if code == error_code::POLICY_RESOURCE_LIMIT_EXCEEDED {
        Code::ResourceExhausted
    } else if code == error_code::SANDBOX_SETUP_FAILED {
        Code::Internal
    } else if code == error_code::SANDBOX_EXECUTION_FAILED {
        Code::Aborted
    } else if code == error_code::SANDBOX_RESOURCE_LIMIT_EXCEEDED {
        Code::ResourceExhausted
    } else if code == error_code::INTERNAL_UNEXPECTED {
        Code::Internal
    } else if code == error_code::INTERNAL_DATABASE_ERROR {
        Code::Internal
    } else if code == error_code::INTERNAL_DEPENDENCY_FAILED {
        Code::Internal
    } else if code == error_code::RESOURCE_NOT_FOUND {
        Code::NotFound
    } else {
        Code::Unknown
    }
}

/// The error code that comes nearest to a status code.
pub open spec fn code_of_status(status: Code) -> u32 {
    match status {
        Code::Unauthenticated => error_code::AUTH_INVALID_CREDENTIALS,
        Code::PermissionDenied => error_code::AUTH_INSUFFICIENT_PERMISSIONS,
        Code::InvalidArgument => error_code::INPUT_INVALID_PARAMETER,
        Code::ResourceExhausted => error_code::POLICY_RESOURCE_LIMIT_EXCEEDED,
        Code::Aborted => error_code::SANDBOX_EXECUTION_FAILED,
        Code::Internal => error_code::INTERNAL_UNEXPECTED,
        Code::Unavailable => error_code::INTERNAL_DEPENDENCY_FAILED,
        Code::NotFound => error_code::RESOURCE_NOT_FOUND,
        _ => error_code::INTERNAL_UNEXPECTED,
    }
}

/// Conversion of an error into a status of the RPC transport.
pub trait IntoStatus {
    /// The status under which `self` is sent.
    fn into_status(self) -> Status;
}

impl IntoStatus for McpError {
    fn into_status(self) -> (s: Status)
        ensures
            s.code == status_of_error(self),
            s.message@ == self.rendered(),
            s.payload is None,
            s.metadata@.len() == 0,
    {
        let message = self.to_string();
        let code = match self {
            McpError::Auth(_) => Code::Unauthenticated,
            McpError::InvalidRequest(_) => Code::InvalidArgument,
            McpError::NotFound(_) => Code::NotFound,
            McpError::PolicyViolation(_) => Code::PermissionDenied,
            McpError::Sandbox(_) => Code::FailedPrecondition,
            McpError::Execution(_) => Code::Internal,
            McpError::Internal(_) => Code::Internal,
            McpError::Temporary(_) => Code::Unavailable,
            McpError::ExternalService(_) => Code::Unavailable,
        };
        Status::new(code, message)
    }
}

impl From<McpError> for Status {
    fn from(error: McpError) -> (s: Status)
        ensures
            s.code == status_of_error(error),
            s.message@ == error.rendered(),
            s.payload is None,
            s.metadata@.len() == 0,
    {
        error.into_status()
    }
}

impl vstd::std_specs::convert::FromSpecImpl<McpError> for Status {
    open spec fn obeys_from_spec() -> bool {
        false
    }

    open spec fn from_spec(v: McpError) -> Status {
        arbitrary()
    }
}

/// The status code that stands for an error code.
pub fn get_status_code_from_error_code(error_code: u32) -> (status: Code)
    ensures
        status == status_of_code(error_code),
{
    if error_code == error_code::AUTH_INVALID_CREDENTIALS {
        Code::Unauthenticated
    } else if error_code == error_code::AUTH_EXPIRED_TOKEN {
        Code::Unauthenticated
    } else if error_code == error_code::AUTH_INSUFFICIENT_PERMISSIONS {
        Code::PermissionDenied
    } else if error_code == error_code::INPUT_INVALID_PARAMETER {
        Code::InvalidArgument
    } else if error_code == error_code::INPUT_MISSING_REQUIRED {
        Code::InvalidArgument
    } else if error_code == error_code::INPUT_INVALID_FORMAT {
        Code::InvalidArgument
    } else if error_code == error_code::POLICY_COMMAND_NOT_ALLOWED {
        Code::PermissionDenied
    } else if error_code == error_code::POLICY_NETWORK_ACCESS_DENIED {
        Code::PermissionDenied
    } else if error_code == error_code::POLICY_FILE_ACCESS_DENIED {
        Code::PermissionDenied
    } else if error_code == error_code::POLICY_RESOURCE_LIMIT_EXCEEDED {
        Code::ResourceExhausted
    } else if error_code == error_code::SANDBOX_SETUP_FAILED {
        Code::Internal
    } else if error_code == error_code::SANDBOX_EXECUTION_FAILED {
        Code::Aborted
    } else if error_code == error_code::SANDBOX_RESOURCE_LIMIT_EXCEEDED {
        Code::ResourceExhausted
    } else if error_code == error_code::INTERNAL_UNEXPECTED {
        Code::Internal
    } else if error_code == error_code::INTERNAL_DATABASE_ERROR {
        Code::Internal
    } else if error_code == error_code::INTERNAL_DEPENDENCY_FAILED {
        Code::Internal
    } else if error_code == error_code::RESOURCE_NOT_FOUND {
        Code::NotFound
    } else {
        Code::Unknown
    }
}

/// The error code that comes nearest to the code of a status.
pub fn get_error_code_from_status(status: &Status) -> (code: u32)
    ensures
        code == code_of_status(status.code),
        error_code::is_declared(code),
{
    match status.code {
        Code::Unauthenticated => error_code::AUTH_INVALID_CREDENTIALS,
        Code::PermissionDenied => error_code::AUTH_INSUFFICIENT_PERMISSIONS,
        Code::InvalidArgument => error_code::INPUT_INVALID_PARAMETER,
        Code::ResourceExhausted => error_code::POLICY_RESOURCE_LIMIT_EXCEEDED,
        Code::Aborted => error_code::SANDBOX_EXECUTION_FAILED,
        Code::Internal => error_code::INTERNAL_UNEXPECTED,
        Code::Unavailable => error_code::INTERNAL_DEPENDENCY_FAILED,
        Code::NotFound => error_code::RESOURCE_NOT_FOUND,
        _ => error_code::INTERNAL_UNEXPECTED,
    }
}

/// Going from a declared error code to its status code, back to the
/// nearest error code and forth again ends at the same status code: the
/// way back loses the exact code and keeps its category.
pub proof fn lemma_status_category_is_kept(code: u32)
    requires
        error_code::is_declared(code),
    ensures
        status_of_code(code_of_status(status_of_code(code))) == status_of_code(code),
{
}

/// No error is sent under the status `Success`, and none under `Unknown`.
pub proof fn lemma_error_status_is_a_failure(kind: ErrorKind)
    ensures
        status_of_kind(kind) != Code::Success,
        status_of_kind(kind) != Code::Unknown,
{
}

} // verus!
