//! The error taxonomy of the gateway: nine kinds, each with a message, a
//! numeric code for machine dispatch and a rendering for people.

pub mod conversions;
pub mod error_code;

use crate::common::json::{
    build_json_object, json_field, json_object, json_text, number_field, render_json, text_field,
    DetailValue, DetailValueView,
};
use crate::common::text::{contains_substring, str_contains};
use vstd::prelude::*;

verus! {

/// Error type shared by every component of the gateway.
#[derive(Debug)]
pub enum McpError {
    /// Authentication and authorization failures.
    Auth(String),
    /// Malformed or semantically invalid input.
    InvalidRequest(String),
    /// A referenced resource is absent.
    NotFound(String),
    /// The policy evaluator denied the request.
    PolicyViolation(String),
    /// Isolation setup or enforcement failed.
    Sandbox(String),
    /// The command could not be run or ended abnormally.
    Execution(String),
    /// An unexpected invariant violation.
    Internal(String),
    /// A transient failure that may be retried.
    Temporary(String),
    /// A downstream dependency is unavailable.
    ExternalService(String),
}

/// The nine kinds of error, without their messages.
#[derive(Debug, Clone, Copy, PartialEq, Eq, Structural)]
pub enum ErrorKind {
    Auth,
    InvalidRequest,
    NotFound,
    PolicyViolation,
    Sandbox,
    Execution,
    Internal,
    Temporary,
    ExternalService,
}

/// The text that introduces the message of each kind.
pub open spec fn label_of(kind: ErrorKind) -> Seq<char> {
    match kind {
        ErrorKind::Auth => "Authentication error: "@,
        ErrorKind::InvalidRequest => "Invalid request: "@,
        ErrorKind::NotFound => "Resource not found: "@,
        ErrorKind::PolicyViolation => "Policy violation: "@,
        ErrorKind::Sandbox => "Sandbox error: "@,
        ErrorKind::Execution => "Execution error: "@,
        ErrorKind::Internal => "Internal error: "@,
        ErrorKind::Temporary => "Temporary error: "@,
        ErrorKind::ExternalService => "External service error: "@,
    }
}

/// The rendering of an error for people: the label of its kind, then its
/// message.
pub open spec fn rendering(kind: ErrorKind, message: Seq<char>) -> Seq<char> {
    label_of(kind) + message
}

/// The numeric code of an error. The kind selects the group; within a
/// group the first hint that occurs in the message selects the code.
pub open spec fn code_for(kind: ErrorKind, m: Seq<char>) -> u32 {
    match kind {
        ErrorKind::Auth => if contains_substring(m, "invalid"@) {
            error_code::AUTH_INVALID_CREDENTIALS
        } else if contains_substring(m, "expired"@) {
            error_code::AUTH_EXPIRED_TOKEN
        } else {
            error_code::AUTH_INSUFFICIENT_PERMISSIONS
        },
        ErrorKind::InvalidRequest => if contains_substring(m, "missing"@) {
            error_code::INPUT_MISSING_REQUIRED
        } else if contains_substring(m, "format"@) {
            error_code::INPUT_INVALID_FORMAT
        } else {
            error_code::INPUT_INVALID_PARAMETER
        },
        ErrorKind::NotFound => error_code::RESOURCE_NOT_FOUND,
        ErrorKind::PolicyViolation => if contains_substring(m, "command"@) {
            error_code::POLICY_COMMAND_NOT_ALLOWED
        } else if contains_substring(m, "network"@) {
            error_code::POLICY_NETWORK_ACCESS_DENIED
        } else if contains_substring(m, "file"@) {
            error_code::POLICY_FILE_ACCESS_DENIED
        } else if contains_substring(m, "resource"@) {
            error_code::POLICY_RESOURCE_LIMIT_EXCEEDED
        } else {
            error_code::POLICY_COMMAND_NOT_ALLOWED
        },
        ErrorKind::Sandbox => if contains_substring(m, "setup"@) {
            error_code::SANDBOX_SETUP_FAILED
        } else if contains_substring(m, "resource"@) {
            error_code::SANDBOX_RESOURCE_LIMIT_EXCEEDED
        } else {
            error_code::SANDBOX_EXECUTION_FAILED
        },
        ErrorKind::Execution => error_code::SANDBOX_EXECUTION_FAILED,
        ErrorKind::Internal => if contains_substring(m, "database"@) {
            error_code::INTERNAL_DATABASE_ERROR
        } else if contains_substring(m, "dependency"@) {
            error_code::INTERNAL_DEPENDENCY_FAILED
        } else {
            error_code::INTERNAL_UNEXPECTED
        },
        ErrorKind::Temporary => error_code::INTERNAL_UNEXPECTED,
        ErrorKind::ExternalService => error_code::INTERNAL_DEPENDENCY_FAILED,
    }
}

/// Result type of the gateway.
pub type McpResult<T> = Result<T, McpError>;

/// Standard error payload sent to clients.
#[derive(Debug)]
pub struct ErrorResponse {
    pub error: ErrorDetail,
}

/// Code, rendered message and optional structured context of an error.
#[derive(Debug)]
pub struct ErrorDetail {
    pub code: u32,
    pub message: String,
    pub details: Option<serde_json::Value>,
}

/// The fields of the object that stands for an error payload: the code,
/// the message, and the details where there are any.
pub open spec fn detail_fields(
    code: u32,
    message: Seq<char>,
    details: Option<serde_json::Value>,
) -> Seq<(Seq<char>, DetailValueView)> {
    let head = seq![
        ("code"@, DetailValueView::Number(code as u64)),
        ("message"@, DetailValueView::Text(message)),
    ];
    match details {
        Some(doc) => head.push(("details"@, DetailValueView::Json(doc))),
        None => head,
    }
}

/// The document that stands for an error payload: an object with the one
/// field `error`.
pub open spec fn response_json(
    code: u32,
    message: Seq<char>,
    details: Option<serde_json::Value>,
) -> serde_json::Value {
    json_object(
        seq![("error"@, DetailValueView::Json(json_object(detail_fields(code, message, details))))],
    )
}

impl ErrorResponse {
    /// The payload as a JSON document.
    pub fn to_json_value(&self) -> (doc: serde_json::Value)
        ensures
            doc == response_json(self.error.code, self.error.message@, self.error.details),
    {
        let mut inner: Vec<(String, DetailValue)> = Vec::new();
        inner.push(number_field("code", self.error.code as u64));
        inner.push(text_field("message", self.error.message.as_str()));
        if let Some(doc) = &self.error.details {
            inner.push(json_field("details", doc.clone()));
        }
        proof {
            assert(crate::common::json::fields_view(inner@) =~= detail_fields(
                self.error.code,
                self.error.message@,
                self.error.details,
            ));
        }
        let mut outer: Vec<(String, DetailValue)> = Vec::new();
        outer.push(json_field("error", build_json_object(&inner)));
        proof {
            assert(crate::common::json::fields_view(outer@) =~= seq![
                (
                    "error"@,
                    DetailValueView::Json(
                        json_object(
                            detail_fields(
                                self.error.code,
                                self.error.message@,
                                self.error.details,
                            ),
                        ),
                    ),
                ),
            ]);
        }
        build_json_object(&outer)
    }

    /// The payload as JSON text.
    pub fn to_json(&self) -> (text: String)
        ensures
            text@ == json_text(
                response_json(self.error.code, self.error.message@, self.error.details),
            ),
    {
        render_json(&self.to_json_value())
    }
}

impl McpError {
    /// The free-form message that the error carries.
    pub open spec fn message(self) -> Seq<char> {
        match self {
            McpError::Auth(m) => m@,
            McpError::InvalidRequest(m) => m@,
            McpError::NotFound(m) => m@,
            McpError::PolicyViolation(m) => m@,
            McpError::Sandbox(m) => m@,
            McpError::Execution(m) => m@,
            McpError::Internal(m) => m@,
            McpError::Temporary(m) => m@,
            McpError::ExternalService(m) => m@,
        }
    }

    /// The kind of the error.
    pub open spec fn spec_kind(&self) -> ErrorKind {
        match self {
            McpError::Auth(_) => ErrorKind::Auth,
            McpError::InvalidRequest(_) => ErrorKind::InvalidRequest,
            McpError::NotFound(_) => ErrorKind::NotFound,
            McpError::PolicyViolation(_) => ErrorKind::PolicyViolation,
            McpError::Sandbox(_) => ErrorKind::Sandbox,
            McpError::Execution(_) => ErrorKind::Execution,
            McpError::Internal(_) => ErrorKind::Internal,
            McpError::Temporary(_) => ErrorKind::Temporary,
            McpError::ExternalService(_) => ErrorKind::ExternalService,
        }
    }

    /// The error of kind `kind` with message `message`.
    pub open spec fn is_of(self, kind: ErrorKind, message: Seq<char>) -> bool {
        self.spec_kind() == kind && self.message() == message
    }

    /// The text that introduces the message.
    pub open spec fn label(self) -> Seq<char> {
        label_of(self.spec_kind())
    }

    /// The rendering of the error: the label of its kind, then its message.
    pub open spec fn rendered(self) -> Seq<char> {
        rendering(self.spec_kind(), self.message())
    }

    /// The numeric code of the error.
    pub open spec fn spec_code(&self) -> u32 {
        code_for(self.spec_kind(), self.message())
    }

    /// The message of the error.
    pub fn text(&self) -> (m: &String)
        ensures
            m@ == self.message(),
    {
        match self {
            McpError::Auth(m) => m,
            McpError::InvalidRequest(m) => m,
            McpError::NotFound(m) => m,
            McpError::PolicyViolation(m) => m,
            McpError::Sandbox(m) => m,
            McpError::Execution(m) => m,
            McpError::Internal(m) => m,
            McpError::Temporary(m) => m,
            McpError::ExternalService(m) => m,
        }
    }

    /// The kind of the error.
    #[verifier::when_used_as_spec(spec_kind)]
    pub fn kind(&self) -> (k: ErrorKind)
        ensures
            k == self.spec_kind(),
    {
        match self {
            McpError::Auth(_) => ErrorKind::Auth,
            McpError::InvalidRequest(_) => ErrorKind::InvalidRequest,
            McpError::NotFound(_) => ErrorKind::NotFound,
            McpError::PolicyViolation(_) => ErrorKind::PolicyViolation,
            McpError::Sandbox(_) => ErrorKind::Sandbox,
            McpError::Execution(_) => ErrorKind::Execution,
            McpError::Internal(_) => ErrorKind::Internal,
            McpError::Temporary(_) => ErrorKind::Temporary,
            McpError::ExternalService(_) => ErrorKind::ExternalService,
        }
    }

    /// The error of the given kind with the given message.
    pub fn of_kind(kind: ErrorKind, message: String) -> (e: McpError)
        ensures
            e.is_of(kind, message@),
    {
        match kind {
            ErrorKind::Auth => McpError::Auth(message),
            ErrorKind::InvalidRequest => McpError::InvalidRequest(message),
            ErrorKind::NotFound => McpError::NotFound(message),
            ErrorKind::PolicyViolation => McpError::PolicyViolation(message),
            ErrorKind::Sandbox => McpError::Sandbox(message),
            ErrorKind::Execution => McpError::Execution(message),
            ErrorKind::Internal => McpError::Internal(message),
            ErrorKind::Temporary => McpError::Temporary(message),
            ErrorKind::ExternalService => McpError::ExternalService(message),
        }
    }

    /// Get error code.
    #[verifier::when_used_as_spec(spec_code)]
    pub fn code(&self) -> (c: u32)
        ensures
            c == self.spec_code(),
            error_code::is_declared(c),
    {
        match self {
            McpError::Auth(m) => {
                if str_contains(m.as_str(), "invalid") {
                    error_code::AUTH_INVALID_CREDENTIALS
                } else if str_contains(m.as_str(), "expired") {
                    error_code::AUTH_EXPIRED_TOKEN
                } else {
                    error_code::AUTH_INSUFFICIENT_PERMISSIONS
                }
            },
            McpError::InvalidRequest(m) => {
                if str_contains(m.as_str(), "missing") {
                    error_code::INPUT_MISSING_REQUIRED
                } else if str_contains(m.as_str(), "format") {
                    error_code::INPUT_INVALID_FORMAT
                } else {
                    error_code::INPUT_INVALID_PARAMETER
                }
            },
            McpError::NotFound(_) => error_code::RESOURCE_NOT_FOUND,
            McpError::PolicyViolation(m) => {
                if str_contains(m.as_str(), "command") {
                    error_code::POLICY_COMMAND_NOT_ALLOWED
                } else if str_contains(m.as_str(), "network") {
                    error_code::POLICY_NETWORK_ACCESS_DENIED
                } else if str_contains(m.as_str(), "file") {
                    error_code::POLICY_FILE_ACCESS_DENIED
                } else if str_contains(m.as_str(), "resource") {
                    error_code::POLICY_RESOURCE_LIMIT_EXCEEDED
                } else {
                    error_code::POLICY_COMMAND_NOT_ALLOWED
                }
            },
            McpError::Sandbox(m) => {
                if str_contains(m.as_str(), "setup") {
                    error_code::SANDBOX_SETUP_FAILED
                } else if str_contains(m.as_str(), "resource") {
                    error_code::SANDBOX_RESOURCE_LIMIT_EXCEEDED
                } else {
                    error_code::SANDBOX_EXECUTION_FAILED
                }
            },
            McpError::Execution(_) => error_code::SANDBOX_EXECUTION_FAILED,
            McpError::Internal(m) => {
                if str_contains(m.as_str(), "database") {
                    error_code::INTERNAL_DATABASE_ERROR
                } else if str_contains(m.as_str(), "dependency") {
                    error_code::INTERNAL_DEPENDENCY_FAILED
                } else {
                    error_code::INTERNAL_UNEXPECTED
                }
            },
            McpError::Temporary(_) => error_code::INTERNAL_UNEXPECTED,
            McpError::ExternalService(_) => error_code::INTERNAL_DEPENDENCY_FAILED,
        }
    }

    /// Renders the error for people: the label of the kind, then the message.
    pub fn to_string(&self) -> (s: String)
        ensures
            s@ == self.rendered(),
    {
        let label = match self {
            McpError::Auth(_) => "Authentication error: ",
            McpError::InvalidRequest(_) => "Invalid request: ",
            McpError::NotFound(_) => "Resource not found: ",
            McpError::PolicyViolation(_) => "Policy violation: ",
            McpError::Sandbox(_) => "Sandbox error: ",
            McpError::Execution(_) => "Execution error: ",
            McpError::Internal(_) => "Internal error: ",
            McpError::Temporary(_) => "Temporary error: ",
            McpError::ExternalService(_) => "External service error: ",
        };
        String::from_str(label).concat(self.text().as_str())
    }

    /// A copy of the error: same kind, same message.
    pub fn duplicate(&self) -> (e: McpError)
        ensures
            e == *self,
    {
        match self {
            McpError::Auth(m) => McpError::Auth(m.clone()),
            McpError::InvalidRequest(m) => McpError::InvalidRequest(m.clone()),
            McpError::NotFound(m) => McpError::NotFound(m.clone()),
            McpError::PolicyViolation(m) => McpError::PolicyViolation(m.clone()),
            McpError::Sandbox(m) => McpError::Sandbox(m.clone()),
            McpError::Execution(m) => McpError::Execution(m.clone()),
            McpError::Internal(m) => McpError::Internal(m.clone()),
            McpError::Temporary(m) => McpError::Temporary(m.clone()),
            McpError::ExternalService(m) => McpError::ExternalService(m.clone()),
        }
    }

    /// Generate error response.
    pub fn to_response(&self) -> (r: ErrorResponse)
        ensures
            r.error.code == self.spec_code(),
            r.error.message@ == self.rendered(),
            r.error.details is None,
    {
        ErrorResponse {
            error: ErrorDetail { code: self.code(), message: self.to_string(), details: None },
        }
    }

    /// Generate error response with details.
    pub fn with_details(&self, details: serde_json::Value) -> (r: ErrorResponse)
        ensures
            r.error.code == self.spec_code(),
            r.error.message@ == self.rendered(),
            r.error.details == Some(details),
    {
        ErrorResponse {
            error: ErrorDetail {
                code: self.code(),
                message: self.to_string(),
                details: Some(details),
            },
        }
    }

    /// Create a policy violation error. The code and the details are not
    /// kept: the code of an error is derived from its kind and message.
    pub fn policy_violation(message: String, _code: u32, _details: Option<serde_json::Value>) -> (e:
        McpError)
        ensures
            e == McpError::PolicyViolation(message),
    {
        McpError::PolicyViolation(message)
    }

    /// Create a sandbox error. The code and the details are not kept.
    pub fn sandbox_error(message: String, _code: u32, _details: Option<serde_json::Value>) -> (e:
        McpError)
        ensures
            e == McpError::Sandbox(message),
    {
        McpError::Sandbox(message)
    }
}

/// Every error has a code among the declared constants.
pub proof fn lemma_code_is_declared(kind: ErrorKind, message: Seq<char>)
    ensures
        error_code::is_declared(code_for(kind, message)),
{
}

} // verus!
