//! Handling of errors on the way out of the service: counting them,
//! choosing the level at which they are logged, and rendering them as a
//! status with a structured payload.

use crate::common::error::error_code;
use crate::common::error::{
    code_for, rendering, ErrorDetail, ErrorKind, ErrorResponse, McpError, McpResult,
};
use crate::common::error::response_json;
use crate::common::grpc::{
    metadata_view, status_of_error, status_of_kind, IntoStatus, Status, ERROR_DETAILS_KEY,
};
use crate::common::json::json_text;
use crate::common::text::{decimal, decimal_string, push_text, views};
use dashmap::DashMap;
use std::collections::HashMap;
use vstd::prelude::*;

verus! {

/// What a map of counters holds: for each key, the count under it.
pub uninterp spec fn counter_entries(map: DashMap<String, u64>) -> Map<Seq<char>, u64>;

/// The map of counters that holds nothing.
pub open spec fn no_counters() -> Map<Seq<char>, u64> {
    Map::empty()
}

/// `DashMap::new`: the map that holds nothing.
#[verifier::external_body]
fn counters_new() -> (made: DashMap<String, u64>)
    ensures
        counter_entries(made) == no_counters(),
{
    DashMap::new()
}

/// `DashMap::insert`: puts the count under the key, in the place of the
/// one that was there, and hands back the one that was there.
#[verifier::external_body]
fn counters_insert(map: &mut DashMap<String, u64>, key: String, count: u64) -> (previous: Option<
    u64,
>)
    ensures
        counter_entries(*final(map)) == counter_entries(*old(map)).insert(key@, count),
        previous is Some <==> counter_entries(*old(map)).contains_key(key@),
        previous is Some ==> previous->0 == counter_entries(*old(map))[key@],
{
    map.insert(key, count)
}

/// `DashMap::get`: the count under the key, none where the map has no
/// such key.
#[verifier::external_body]
fn counters_get(map: &DashMap<String, u64>, key: &str) -> (found: Option<u64>)
    ensures
        found is Some <==> counter_entries(*map).contains_key(key@),
        found is Some ==> found->0 == counter_entries(*map)[key@],
{
    map.get(key).map(|entry| *entry.value())
}

/// `DashMap::iter`, collected into a map of std: the same keys with the
/// same counts.
#[verifier::external_body]
fn counters_snapshot(map: &DashMap<String, u64>) -> (stats: HashMap<String, u64>)
    ensures
        forall|key: String| #[trigger]
            stats@.contains_key(key) <==> counter_entries(*map).contains_key(key@),
        forall|key: String| #[trigger]
            stats@.contains_key(key) ==> stats@[key] == counter_entries(*map)[key@],
{
    map.iter().map(|entry| (entry.key().clone(), *entry.value())).collect()
}

/// The key under which the errors of a kind are counted.
pub open spec fn kind_key(kind: ErrorKind) -> Seq<char> {
    match kind {
        ErrorKind::Auth => "auth"@,
        ErrorKind::InvalidRequest => "invalid_request"@,
        ErrorKind::NotFound => "not_found"@,
        ErrorKind::PolicyViolation => "policy_violation"@,
        ErrorKind::Sandbox => "sandbox"@,
        ErrorKind::Execution => "execution"@,
        ErrorKind::Internal => "internal"@,
        ErrorKind::Temporary => "temporary"@,
        ErrorKind::ExternalService => "external_service"@,
    }
}

/// The key under which the errors with a code are counted.
pub open spec fn code_key(code: u32) -> Seq<char> {
    "error_code_"@ + decimal(code as nat)
}

/// The count under `key`; zero where nothing was counted there.
pub open spec fn count_at(entries: Map<Seq<char>, u64>, key: Seq<char>) -> u64 {
    if entries.contains_key(key) {
        entries[key]
    } else {
        0
    }
}

/// The counters with one more under `key`. A counter at its greatest
/// value starts over at zero.
pub open spec fn bumped(entries: Map<Seq<char>, u64>, key: Seq<char>) -> Map<Seq<char>, u64> {
    entries.insert(key, count_at(entries, key).wrapping_add(1))
}

/// The counters after one more error of the given kind and code.
pub open spec fn counted(entries: Map<Seq<char>, u64>, kind: ErrorKind, code: u32) -> Map<
    Seq<char>,
    u64,
> {
    bumped(bumped(entries, kind_key(kind)), code_key(code))
}

/// The keys of all counters there can be: one for each kind, then one for
/// each declared code.
pub open spec fn counter_keys() -> Seq<Seq<char>> {
    seq![
        kind_key(ErrorKind::Auth),
        kind_key(ErrorKind::InvalidRequest),
        kind_key(ErrorKind::NotFound),
        kind_key(ErrorKind::PolicyViolation),
        kind_key(ErrorKind::Sandbox),
        kind_key(ErrorKind::Execution),
        kind_key(ErrorKind::Internal),
        kind_key(ErrorKind::Temporary),
        kind_key(ErrorKind::ExternalService),
        code_key(error_code::AUTH_INVALID_CREDENTIALS),
        code_key(error_code::AUTH_EXPIRED_TOKEN),
        code_key(error_code::AUTH_INSUFFICIENT_PERMISSIONS),
        code_key(error_code::INPUT_INVALID_PARAMETER),
        code_key(error_code::INPUT_MISSING_REQUIRED),
        code_key(error_code::INPUT_INVALID_FORMAT),
        code_key(error_code::POLICY_COMMAND_NOT_ALLOWED),
        code_key(error_code::POLICY_NETWORK_ACCESS_DENIED),
        code_key(error_code::POLICY_FILE_ACCESS_DENIED),
        code_key(error_code::POLICY_RESOURCE_LIMIT_EXCEEDED),
        code_key(error_code::SANDBOX_SETUP_FAILED),
        code_key(error_code::SANDBOX_EXECUTION_FAILED),
        code_key(error_code::SANDBOX_RESOURCE_LIMIT_EXCEEDED),
        code_key(error_code::INTERNAL_UNEXPECTED),
        code_key(error_code::INTERNAL_DATABASE_ERROR),
        code_key(error_code::INTERNAL_DEPENDENCY_FAILED),
        code_key(error_code::RESOURCE_NOT_FOUND),
    ]
}

/// The counts under the given keys added up. The sum starts over at zero
/// when it passes the greatest value.
pub open spec fn sum_counts(entries: Map<Seq<char>, u64>, keys: Seq<Seq<char>>) -> u64
    decreases keys.len(),
{
    if keys.len() == 0 {
        0
    } else {
        sum_counts(entries, keys.drop_last()).wrapping_add(count_at(entries, keys.last()))
    }
}

/// All counters added up.
pub open spec fn total_count(entries: Map<Seq<char>, u64>) -> u64 {
    sum_counts(entries, counter_keys())
}

/// The level at which an error is logged.
#[derive(Debug, Clone, Copy, PartialEq, Eq, Structural)]
pub enum LogLevel {
    Debug,
    Warn,
    Error,
}

/// Denials are logged as warnings, invalid requests for debugging,
/// everything else as errors.
pub open spec fn level_of(kind: ErrorKind) -> LogLevel {
    match kind {
        ErrorKind::Auth => LogLevel::Warn,
        ErrorKind::PolicyViolation => LogLevel::Warn,
        ErrorKind::InvalidRequest => LogLevel::Debug,
        _ => LogLevel::Error,
    }
}

/// A successful answer of the service.
#[derive(Debug)]
pub struct Response<T> {
    pub message: T,
}

impl<T> Response<T> {
    /// The answer that carries `message`.
    pub fn new(message: T) -> (response: Response<T>)
        ensures
            response.message == message,
    {
        Response { message }
    }

    /// The message of the answer.
    pub fn get_ref(&self) -> (message: &T)
        ensures
            *message == self.message,
    {
        &self.message
    }

    /// Takes the message out of the answer.
    pub fn into_inner(self) -> (message: T)
        ensures
            message == self.message,
    {
        self.message
    }
}

/// The status under which an error leaves the service, with the payload
/// attached: the code of the error, its rendering, and the details given.
pub open spec fn sent_as(
    status: Status,
    kind: ErrorKind,
    message: Seq<char>,
    details: Option<serde_json::Value>,
) -> bool {
    &&& status.code == status_of_kind(kind)
    &&& status.message@ == rendering(kind, message)
    &&& status.payload is Some
    &&& status.payload->0.error.code == code_for(kind, message)
    &&& status.payload->0.error.message@ == rendering(kind, message)
    &&& status.payload->0.error.details == details
    &&& metadata_view(status.metadata@) == seq![
        (
            ERROR_DETAILS_KEY@,
            json_text(response_json(code_for(kind, message), rendering(kind, message), details)),
        ),
    ]
}

/// `status` is what the service sends for `err`.
pub open spec fn reported(status: Status, err: McpError, details: Option<serde_json::Value>) -> bool {
    sent_as(status, err.spec_kind(), err.message(), details)
}

/// `answer` is what the handler makes of `result`, and the counters have
/// gone from `before` to `after` in doing so: a success is wrapped and
/// counts nothing, an error is counted and sent as its status.
pub open spec fn handled<T>(
    answer: Result<Response<T>, Status>,
    result: McpResult<T>,
    before: Map<Seq<char>, u64>,
    after: Map<Seq<char>, u64>,
) -> bool {
    match result {
        Ok(value) => answer is Ok && answer->Ok_0.message == value && after == before,
        Err(err) => answer is Err && reported(answer->Err_0, err, None) && after == counted(
            before,
            err.spec_kind(),
            err.spec_code(),
        ),
    }
}

fn kind_key_text(kind: ErrorKind) -> (key: &'static str)
    ensures
        key@ == kind_key(kind),
{
    match kind {
        ErrorKind::Auth => "auth",
        ErrorKind::InvalidRequest => "invalid_request",
        ErrorKind::NotFound => "not_found",
        ErrorKind::PolicyViolation => "policy_violation",
        ErrorKind::Sandbox => "sandbox",
        ErrorKind::Execution => "execution",
        ErrorKind::Internal => "internal",
        ErrorKind::Temporary => "temporary",
        ErrorKind::ExternalService => "external_service",
    }
}

fn code_key_text(code: u32) -> (key: String)
    ensures
        key@ == code_key(code),
{
    let number = decimal_string(code as u64);
    String::from_str("error_code_").concat(number.as_str())
}

fn all_counter_keys() -> (keys: Vec<String>)
    ensures
        views(keys@) == counter_keys(),
{
    let mut keys: Vec<String> = Vec::new();
    push_text(&mut keys, kind_key_text(ErrorKind::Auth));
    push_text(&mut keys, kind_key_text(ErrorKind::InvalidRequest));
    push_text(&mut keys, kind_key_text(ErrorKind::NotFound));
    push_text(&mut keys, kind_key_text(ErrorKind::PolicyViolation));
    push_text(&mut keys, kind_key_text(ErrorKind::Sandbox));
    push_text(&mut keys, kind_key_text(ErrorKind::Execution));
    push_text(&mut keys, kind_key_text(ErrorKind::Internal));
    push_text(&mut keys, kind_key_text(ErrorKind::Temporary));
    push_text(&mut keys, kind_key_text(ErrorKind::ExternalService));
    push_text(&mut keys, code_key_text(error_code::AUTH_INVALID_CREDENTIALS).as_str());
    push_text(&mut keys, code_key_text(error_code::AUTH_EXPIRED_TOKEN).as_str());
    push_text(&mut keys, code_key_text(error_code::AUTH_INSUFFICIENT_PERMISSIONS).as_str());
    push_text(&mut keys, code_key_text(error_code::INPUT_INVALID_PARAMETER).as_str());
    push_text(&mut keys, code_key_text(error_code::INPUT_MISSING_REQUIRED).as_str());
    push_text(&mut keys, code_key_text(error_code::INPUT_INVALID_FORMAT).as_str());
    push_text(&mut keys, code_key_text(error_code::POLICY_COMMAND_NOT_ALLOWED).as_str());
    push_text(&mut keys, code_key_text(error_code::POLICY_NETWORK_ACCESS_DENIED).as_str());
    push_text(&mut keys, code_key_text(error_code::POLICY_FILE_ACCESS_DENIED).as_str());
    push_text(&mut keys, code_key_text(error_code::POLICY_RESOURCE_LIMIT_EXCEEDED).as_str());
    push_text(&mut keys, code_key_text(error_code::SANDBOX_SETUP_FAILED).as_str());
    push_text(&mut keys, code_key_text(error_code::SANDBOX_EXECUTION_FAILED).as_str());
    push_text(&mut keys, code_key_text(error_code::SANDBOX_RESOURCE_LIMIT_EXCEEDED).as_str());
    push_text(&mut keys, code_key_text(error_code::INTERNAL_UNEXPECTED).as_str());
    push_text(&mut keys, code_key_text(error_code::INTERNAL_DATABASE_ERROR).as_str());
    push_text(&mut keys, code_key_text(error_code::INTERNAL_DEPENDENCY_FAILED).as_str());
    push_text(&mut keys, code_key_text(error_code::RESOURCE_NOT_FOUND).as_str());
    assert(views(keys@) =~= counter_keys());
    keys
}

/// Error handler of the service, with the counters of the errors it has
/// seen.
pub struct ErrorHandler {
    counters: DashMap<String, u64>,
}

impl View for ErrorHandler {
    type V = Map<Seq<char>, u64>;

    closed spec fn view(&self) -> Map<Seq<char>, u64> {
        counter_entries(self.counters)
    }
}

impl ErrorHandler {
    /// The handler that has seen no error.
    pub fn new() -> (handler: ErrorHandler)
        ensures
            handler@ == no_counters(),
    {
        ErrorHandler { counters: counters_new() }
    }

    fn bump(&mut self, key: &str)
        ensures
            final(self)@ == bumped(old(self)@, key@),
    {
        let current: u64 = match counters_get(&self.counters, key) {
            Some(count) => count,
            None => 0,
        };
        let _ = counters_insert(&mut self.counters, String::from_str(key), current.wrapping_add(1));
    }

    /// Increment the counter of the error's kind and the counter of its
    /// code.
    pub fn increment_error_counter(&mut self, err: &McpError)
        ensures
            final(self)@ == counted(old(self)@, err.spec_kind(), err.spec_code()),
    {
        let kind = kind_key_text(err.kind());
        let code = code_key_text(err.code());
        self.bump(kind);
        self.bump(code.as_str());
    }

    /// Get error statistics: every counter with its count.
    pub fn get_error_stats(&self) -> (stats: HashMap<String, u64>)
        ensures
            forall|key: String| #[trigger] stats@.contains_key(key) <==> self@.contains_key(key@),
            forall|key: String| #[trigger] stats@.contains_key(key) ==> stats@[key] == self@[key@],
    {
        counters_snapshot(&self.counters)
    }

    /// Get count for a specific counter; zero where nothing was counted
    /// under the key.
    pub fn get_error_count(&self, error_type: &str) -> (count: u64)
        ensures
            count == count_at(self@, error_type@),
    {
        match counters_get(&self.counters, error_type) {
            Some(count) => count,
            None => 0,
        }
    }

    /// All counters added up.
    pub fn total_errors(&self) -> (total: u64)
        ensures
            total == total_count(self@),
    {
        let keys = all_counter_keys();
        let mut total: u64 = 0;
        let mut i: usize = 0;
        proof {
            assert(views(keys@).take(0) =~= Seq::<Seq<char>>::empty());
        }
        while i < keys.len()
            invariant
                i <= keys.len(),
                views(keys@) == counter_keys(),
                total == sum_counts(self@, views(keys@).take(i as int)),
            decreases keys.len() - i,
        {
            let count = self.get_error_count(keys[i].as_str());
            proof {
                let next = views(keys@).take(i + 1);
                assert(next.drop_last() =~= views(keys@).take(i as int));
                assert(next.last() == keys@[i as int]@);
            }
            total = total.wrapping_add(count);
            i = i + 1;
        }
        proof {
            assert(views(keys@).take(keys.len() as int) =~= views(keys@));
        }
        total
    }

    /// The level at which an error is logged.
    pub fn log_level(err: &McpError) -> (level: LogLevel)
        ensures
            level == level_of(err.spec_kind()),
    {
        match err {
            McpError::Auth(_) => LogLevel::Warn,
            McpError::PolicyViolation(_) => LogLevel::Warn,
            McpError::InvalidRequest(_) => LogLevel::Debug,
            _ => LogLevel::Error,
        }
    }

    /// Convert a result into an answer or a status. A success is wrapped
    /// and leaves the counters alone. An error is counted and becomes the
    /// status of its kind with its code and rendering as the payload.
    pub fn handle<T>(&mut self, result: McpResult<T>) -> (answer: Result<Response<T>, Status>)
        ensures
            handled(answer, result, old(self)@, final(self)@),
    {
        self.handle_with_details(result, None)
    }

    /// Catch an error and convert it to a status without a payload; the
    /// error is counted.
    pub fn catch(&mut self, err: McpError) -> (status: Status)
        ensures
            status.code == status_of_error(err),
            status.message@ == err.rendered(),
            status.payload is None,
            status.metadata@.len() == 0,
            final(self)@ == counted(old(self)@, err.spec_kind(), err.spec_code()),
    {
        self.increment_error_counter(&err);
        err.into_status()
    }

    /// As `handle`, with structured details in the payload.
    pub fn handle_with_details<T>(
        &mut self,
        result: McpResult<T>,
        details: Option<serde_json::Value>,
    ) -> (answer: Result<Response<T>, Status>)
        ensures
            result is Ok ==> answer is Ok && answer->Ok_0.message == result->Ok_0 && final(self)@
                == old(self)@,
            result is Err ==> answer is Err && reported(answer->Err_0, result->Err_0, details)
                && final(self)@ == counted(
                old(self)@,
                result->Err_0.spec_kind(),
                result->Err_0.spec_code(),
            ),
    {
        match result {
            Ok(value) => Ok(Response::new(value)),
            Err(err) => {
                self.increment_error_counter(&err);
                let error_response = ErrorResponse {
                    error: ErrorDetail { code: err.code(), message: err.to_string(), details },
                };
                let json = error_response.to_json();
                let mut status = err.into_status();
                status.payload = Some(error_response);
                status.metadata.push((String::from_str(ERROR_DETAILS_KEY), json));
                proof {
                    assert(metadata_view(status.metadata@) =~= seq![
                        (
                            ERROR_DETAILS_KEY@,
                            json_text(
                                response_json(
                                    code_for(err.spec_kind(), err.message()),
                                    rendering(err.spec_kind(), err.message()),
                                    details,
                                ),
                            ),
                        ),
                    ]);
                }
                Err(status)
            },
        }
    }
}

/// Conversion of a result into an answer or a status of the service.
pub trait IntoResponse<T> {
    /// Convert, counting an error with `handler`; the status carries no
    /// payload.
    fn into_response(self, handler: &mut ErrorHandler) -> Result<Response<T>, Status>;

    /// Convert, counting an error with `handler`; the status carries the
    /// payload with `details`.
    fn into_response_with_details(
        self,
        handler: &mut ErrorHandler,
        details: serde_json::Value,
    ) -> Result<Response<T>, Status>;
}

impl<T> IntoResponse<T> for Result<T, McpError> {
    fn into_response(self, handler: &mut ErrorHandler) -> (answer: Result<Response<T>, Status>)
        ensures
            self is Ok ==> answer is Ok && answer->Ok_0.message == self->Ok_0 && final(handler)@
                == old(handler)@,
            self is Err ==> answer is Err && answer->Err_0.code == status_of_error(self->Err_0)
                && answer->Err_0.message@ == self->Err_0.rendered() && answer->Err_0.payload is None
                && answer->Err_0.metadata@.len() == 0 && final(handler)@ == counted(
                old(handler)@,
                self->Err_0.spec_kind(),
                self->Err_0.spec_code(),
            ),
    {
        match self {
            Ok(value) => Ok(Response::new(value)),
            Err(err) => Err(handler.catch(err)),
        }
    }

    fn into_response_with_details(
        self,
        handler: &mut ErrorHandler,
        details: serde_json::Value,
    ) -> (answer: Result<Response<T>, Status>)
        ensures
            self is Ok ==> answer is Ok && answer->Ok_0.message == self->Ok_0 && final(handler)@
                == old(handler)@,
            self is Err ==> answer is Err && reported(answer->Err_0, self->Err_0, Some(details))
                && final(handler)@ == counted(
                old(handler)@,
                self->Err_0.spec_kind(),
                self->Err_0.spec_code(),
            ),
    {
        handler.handle_with_details(self, Some(details))
    }
}

/// No kind is counted under the key of a code.
pub proof fn lemma_keys_are_apart(kind: ErrorKind, code: u32)
    ensures
        kind_key(kind) != code_key(code),
{
    reveal_strlit("error_code_");
    reveal_strlit("auth");
    reveal_strlit("invalid_request");
    reveal_strlit("not_found");
    reveal_strlit("policy_violation");
    reveal_strlit("sandbox");
    reveal_strlit("execution");
    reveal_strlit("internal");
    reveal_strlit("temporary");
    reveal_strlit("external_service");
    let key = code_key(code);
    assert(key[0] == 'e');
    assert(key[1] == 'r');
    assert(kind_key(kind)[0] != 'e' || kind_key(kind)[1] != 'r');
}

/// Counting an error adds one to the counter of its kind and one to the
/// counter of its code.
pub proof fn lemma_counting_adds_to_kind(entries: Map<Seq<char>, u64>, kind: ErrorKind, code: u32)
    ensures
        count_at(counted(entries, kind, code), kind_key(kind)) == count_at(
            entries,
            kind_key(kind),
        ).wrapping_add(1),
        count_at(counted(entries, kind, code), code_key(code)) == count_at(
            entries,
            code_key(code),
        ).wrapping_add(1),
{
    lemma_keys_are_apart(kind, code);
}

/// Counting an error leaves every other counter as it was.
pub proof fn lemma_counting_keeps_the_rest(
    entries: Map<Seq<char>, u64>,
    kind: ErrorKind,
    code: u32,
    key: Seq<char>,
)
    requires
        key != kind_key(kind),
        key != code_key(code),
    ensures
        count_at(counted(entries, kind, code), key) == count_at(entries, key),
{
}

} // verus!
