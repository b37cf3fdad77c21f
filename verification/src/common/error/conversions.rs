//! Conversions from host and parser errors into the error taxonomy.

use crate::common::error::{ErrorKind, McpError, McpResult};
use vstd::prelude::*;
use vstd::string::to_string_from_display_ensures;

verus! {

/// Host I/O error of std; opaque to the library.
#[verifier::external_type_specification]
#[verifier::external_body]
pub struct ExIoError(std::io::Error);

/// Parse error of `serde_json`; opaque to the library.
#[verifier::external_type_specification]
#[verifier::external_body]
pub struct ExJsonError(serde_json::Error);

/// UTF-8 decoding error of a string slice; opaque to the library.
#[verifier::external_type_specification]
#[verifier::external_body]
pub struct ExUtf8Error(std::str::Utf8Error);

/// UTF-8 decoding error of an owned string; opaque to the library.
#[verifier::external_type_specification]
#[verifier::external_body]
pub struct ExFromUtf8Error(std::string::FromUtf8Error);

/// The classes of host I/O errors that the taxonomy tells apart.
#[derive(Debug, Clone, Copy, PartialEq, Eq, Structural)]
pub enum IoErrorClass {
    NotFound,
    PermissionDenied,
    ConnectionRefused,
    ConnectionReset,
    ConnectionAborted,
    NotConnected,
    TimedOut,
    Other,
}

/// The class under which `std::io::Error::kind` files an error.
pub uninterp spec fn io_class(err: std::io::Error) -> IoErrorClass;

/// Reads `std::io::Error::kind` and files it under one of the classes that
/// the taxonomy tells apart; every kind without a class of its own is
/// `Other`.
#[verifier::external_body]
fn io_error_class(err: &std::io::Error) -> (class: IoErrorClass)
    ensures
        class == io_class(*err),
{
    match err.kind() {
        std::io::ErrorKind::NotFound => IoErrorClass::NotFound,
        std::io::ErrorKind::PermissionDenied => IoErrorClass::PermissionDenied,
        std::io::ErrorKind::ConnectionRefused => IoErrorClass::ConnectionRefused,
        std::io::ErrorKind::ConnectionReset => IoErrorClass::ConnectionReset,
        std::io::ErrorKind::ConnectionAborted => IoErrorClass::ConnectionAborted,
        std::io::ErrorKind::NotConnected => IoErrorClass::NotConnected,
        std::io::ErrorKind::TimedOut => IoErrorClass::TimedOut,
        _ => IoErrorClass::Other,
    }
}

/// The kind of error that a host I/O error of class `class` becomes.
pub open spec fn io_kind(class: IoErrorClass) -> ErrorKind {
    match class {
        IoErrorClass::NotFound => ErrorKind::NotFound,
        IoErrorClass::PermissionDenied => ErrorKind::PolicyViolation,
        IoErrorClass::ConnectionRefused => ErrorKind::ExternalService,
        IoErrorClass::ConnectionReset => ErrorKind::Temporary,
        IoErrorClass::ConnectionAborted => ErrorKind::Temporary,
        IoErrorClass::NotConnected => ErrorKind::ExternalService,
        IoErrorClass::TimedOut => ErrorKind::Execution,
        IoErrorClass::Other => ErrorKind::Internal,
    }
}

/// The text that introduces the host's own words for each class.
pub open spec fn io_label(class: IoErrorClass) -> Seq<char> {
    match class {
        IoErrorClass::NotFound => "File not found: "@,
        IoErrorClass::PermissionDenied => "Permission denied: "@,
        IoErrorClass::ConnectionRefused => "Connection refused: "@,
        IoErrorClass::ConnectionReset => "Connection reset: "@,
        IoErrorClass::ConnectionAborted => "Connection aborted: "@,
        IoErrorClass::NotConnected => "Not connected: "@,
        IoErrorClass::TimedOut => "Timed out: "@,
        IoErrorClass::Other => "I/O error: "@,
    }
}

impl McpError {
    /// The error for a host I/O error of class `class` whose own words are
    /// `text`.
    pub fn from_io(class: IoErrorClass, text: &str) -> (e: McpError)
        ensures
            e.is_of(io_kind(class), io_label(class) + text@),
    {
        match class {
            IoErrorClass::NotFound => McpError::NotFound(
                String::from_str("File not found: ").concat(text),
            ),
            IoErrorClass::PermissionDenied => McpError::PolicyViolation(
                String::from_str("Permission denied: ").concat(text),
            ),
            IoErrorClass::ConnectionRefused => McpError::ExternalService(
                String::from_str("Connection refused: ").concat(text),
            ),
            IoErrorClass::ConnectionReset => McpError::Temporary(
                String::from_str("Connection reset: ").concat(text),
            ),
            IoErrorClass::ConnectionAborted => McpError::Temporary(
                String::from_str("Connection aborted: ").concat(text),
            ),
            IoErrorClass::NotConnected => McpError::ExternalService(
                String::from_str("Not connected: ").concat(text),
            ),
            IoErrorClass::TimedOut => McpError::Execution(
                String::from_str("Timed out: ").concat(text),
            ),
            IoErrorClass::Other => McpError::Internal(
                String::from_str("I/O error: ").concat(text),
            ),
        }
    }

    /// The error for a JSON document that does not parse; `text` is the
    /// parser's own words.
    pub fn from_json_text(text: &str) -> (e: McpError)
        ensures
            e.is_of(ErrorKind::InvalidRequest, "JSON parsing error: "@ + text@),
    {
        McpError::InvalidRequest(String::from_str("JSON parsing error: ").concat(text))
    }

    /// The error for bytes that are not UTF-8; `text` is the decoder's own
    /// words.
    pub fn from_utf8_text(text: &str) -> (e: McpError)
        ensures
            e.is_of(ErrorKind::InvalidRequest, "Invalid UTF-8 sequence: "@ + text@),
    {
        McpError::InvalidRequest(String::from_str("Invalid UTF-8 sequence: ").concat(text))
    }

    /// Wraps any displayable error as an internal error with its rendering
    /// as the message. The code is not kept.
    pub fn from_error<E: std::fmt::Display>(err: E, _code: u32) -> (e: McpError)
        ensures
            e is Internal,
            to_string_from_display_ensures::<E>(&err, e->Internal_0),
    {
        McpError::Internal(err.to_string())
    }

    /// The same error with `msg` and a colon put before its message.
    pub fn with_context(self, msg: &str) -> (e: McpError)
        ensures
            e.is_of(self.spec_kind(), msg@ + ": "@ + self.message()),
    {
        let kind = self.kind();
        let text = String::from_str(msg).concat(": ").concat(self.text().as_str());
        McpError::of_kind(kind, text)
    }
}

impl From<std::io::Error> for McpError {
    fn from(err: std::io::Error) -> (e: McpError)
        ensures
            e.spec_kind() == io_kind(io_class(err)),
            exists|text: String| #[trigger]
                to_string_from_display_ensures::<std::io::Error>(&err, text) && e.message()
                    == io_label(io_class(err)) + text@,
    {
        let class = io_error_class(&err);
        let text = err.to_string();
        McpError::from_io(class, text.as_str())
    }
}

impl vstd::std_specs::convert::FromSpecImpl<std::io::Error> for McpError {
    open spec fn obeys_from_spec() -> bool {
        false
    }

    open spec fn from_spec(v: std::io::Error) -> McpError {
        arbitrary()
    }
}

impl From<serde_json::Error> for McpError {
    fn from(err: serde_json::Error) -> (e: McpError)
        ensures
            e.spec_kind() == ErrorKind::InvalidRequest,
            exists|text: String| #[trigger]
                to_string_from_display_ensures::<serde_json::Error>(&err, text) && e.message()
                    == "JSON parsing error: "@ + text@,
    {
        let text = err.to_string();
        McpError::from_json_text(text.as_str())
    }
}

impl vstd::std_specs::convert::FromSpecImpl<serde_json::Error> for McpError {
    open spec fn obeys_from_spec() -> bool {
        false
    }

    open spec fn from_spec(v: serde_json::Error) -> McpError {
        arbitrary()
    }
}

impl From<std::str::Utf8Error> for McpError {
    fn from(err: std::str::Utf8Error) -> (e: McpError)
        ensures
            e.spec_kind() == ErrorKind::InvalidRequest,
            exists|text: String| #[trigger]
                to_string_from_display_ensures::<std::str::Utf8Error>(&err, text) && e.message()
                    == "Invalid UTF-8 sequence: "@ + text@,
    {
        let text = err.to_string();
        McpError::from_utf8_text(text.as_str())
    }
}

impl vstd::std_specs::convert::FromSpecImpl<std::str::Utf8Error> for McpError {
    open spec fn obeys_from_spec() -> bool {
        false
    }

    open spec fn from_spec(v: std::str::Utf8Error) -> McpError {
        arbitrary()
    }
}

impl From<std::string::FromUtf8Error> for McpError {
    fn from(err: std::string::FromUtf8Error) -> (e: McpError)
        ensures
            e.spec_kind() == ErrorKind::InvalidRequest,
            exists|text: String| #[trigger]
                to_string_from_display_ensures::<std::string::FromUtf8Error>(&err, text)
                    && e.message() == "Invalid UTF-8 sequence: "@ + text@,
    {
        let text = err.to_string();
        McpError::from_utf8_text(text.as_str())
    }
}

impl vstd::std_specs::convert::FromSpecImpl<std::string::FromUtf8Error> for McpError {
    open spec fn obeys_from_spec() -> bool {
        false
    }

    open spec fn from_spec(v: std::string::FromUtf8Error) -> McpError {
        arbitrary()
    }
}

/// Helper to convert a generic `Result` into the gateway's result type.
pub trait IntoMcpResult<T, E> {
    /// Keeps a success; turns a failure into an internal error whose
    /// message is the rendering of the failure.
    fn into_mcp_result(self) -> McpResult<T>;

    /// As `into_mcp_result`, with `msg` and a colon before the rendering.
    fn into_mcp_result_with_msg(self, msg: &str) -> McpResult<T>;
}

impl<T, E: std::fmt::Display> IntoMcpResult<T, E> for Result<T, E> {
    fn into_mcp_result(self) -> (r: McpResult<T>)
        ensures
            self is Ok ==> r == Ok::<T, McpError>(self->Ok_0),
            self is Err ==> r is Err && r->Err_0 is Internal && to_string_from_display_ensures::<E>(
                &self->Err_0,
                r->Err_0->Internal_0,
            ),
    {
        match self {
            Ok(value) => Ok(value),
            Err(err) => Err(McpError::Internal(err.to_string())),
        }
    }

    fn into_mcp_result_with_msg(self, msg: &str) -> (r: McpResult<T>)
        ensures
            self is Ok ==> r == Ok::<T, McpError>(self->Ok_0),
            self is Err ==> r is Err && r->Err_0 is Internal && exists|text: String| #[trigger]
                to_string_from_display_ensures::<E>(&self->Err_0, text) && r->Err_0.message()
                    == msg@ + ": "@ + text@,
    {
        match self {
            Ok(value) => Ok(value),
            Err(err) => {
                let text = err.to_string();
                Err(McpError::Internal(String::from_str(msg).concat(": ").concat(text.as_str())))
            },
        }
    }
}

/// Conversion of the errors that have a place in the taxonomy.
pub trait ToMcpError {
    /// Convert to the gateway's error type.
    fn to_mcp_error(self) -> McpError;

    /// Convert, with `msg` and a colon put before the message.
    fn to_mcp_error_with_msg(self, msg: &str) -> McpError;
}

impl<E> ToMcpError for E where E: std::fmt::Display, E: Into<McpError>, E: Sized, E: 'static {
    fn to_mcp_error(self) -> (e: McpError)
        ensures
            call_ensures(<E as Into<McpError>>::into, (self,), e),
    {
        self.into()
    }

    fn to_mcp_error_with_msg(self, msg: &str) -> (e: McpError)
        ensures
            exists|inner: McpError| #[trigger]
                call_ensures(<E as Into<McpError>>::into, (self,), inner) && e.is_of(
                    inner.spec_kind(),
                    msg@ + ": "@ + inner.message(),
                ),
    {
        let inner: McpError = self.into();
        inner.with_context(msg)
    }
}

} // verus!
