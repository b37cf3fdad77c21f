//! Policy evaluators and the engine that wraps one.

use crate::common::error::error_code;
use crate::common::error::{ErrorKind, McpError, McpResult};
use crate::common::json::{
    build_json_object, json_object, list_field, number_field, text_field, DetailValue,
    DetailValueView,
};
use crate::common::text::{
    concat3, concat5, copy_strings, decimal, decimal_string, join_strings, joined, one_string,
    push_texts, str_equal, str_starts_with, two_strings, views,
};
use crate::policy::models::{
    FileInfo, FileView, NetworkInfo, NetworkView, PolicyDecision, PolicyDecisionView, PolicyInput,
    PolicyInputView,
};
use crate::policy::rules::{
    builtin_decision, command_decision, command_part, file_decision, file_part, is_admin,
    is_allowed_command, is_dangerous_command, is_denied_path, mode_admits, network_decision,
    network_reasons, warnings_of,
};
use vstd::prelude::*;

verus! {

/// What an evaluation comes to: a decision, or a failure with its message.
pub enum EvalOutcome {
    Decided(PolicyDecisionView),
    Failed(Seq<char>),
}

/// `result` is what an evaluator returns when its evaluation comes to
/// `outcome`: the decision, or an internal error with the message.
pub open spec fn reports(result: McpResult<PolicyDecision>, outcome: EvalOutcome) -> bool {
    match outcome {
        EvalOutcome::Decided(decision) => result is Ok && result->Ok_0@ == decision,
        EvalOutcome::Failed(message) => result is Err && result->Err_0.is_of(
            ErrorKind::Internal,
            message,
        ),
    }
}

/// Policy evaluation interface. An evaluator is a function of the input:
/// `outcome` says what it comes to, and `evaluate` computes that.
pub trait PolicyEvaluator {
    /// What the evaluation of an input that says `input` comes to.
    spec fn outcome(&self, input: PolicyInputView) -> EvalOutcome;

    /// Evaluate policy and return decision result.
    fn evaluate(&self, input: &PolicyInput) -> (result: McpResult<PolicyDecision>)
        ensures
            reports(result, self.outcome(input@)),
    ;
}

/// The built-in rule-based evaluator.
#[derive(Debug, Clone, Copy)]
pub struct StubPolicyEvaluator {}

impl Default for StubPolicyEvaluator {
    fn default() -> (e: StubPolicyEvaluator) {
        StubPolicyEvaluator {  }
    }
}

fn builtin_warning_text() -> (w: String)
    ensures
        w@ == crate::policy::rules::builtin_warning(),
{
    String::from_str("Using stub policy engine, do not use in production environment")
}

fn allowed_command(name: &str) -> (yes: bool)
    ensures
        yes == is_allowed_command(name@),
{
    str_equal(name, "ls") || str_equal(name, "echo") || str_equal(name, "cat") || str_equal(
        name,
        "grep",
    ) || str_equal(name, "find") || str_equal(name, "python") || str_equal(name, "python3")
        || str_equal(name, "node") || str_equal(name, "npm")
}

fn dangerous_command(name: &str) -> (yes: bool)
    ensures
        yes == is_dangerous_command(name@),
{
    str_equal(name, "rm") || str_equal(name, "dd") || str_equal(name, "wget") || str_equal(
        name,
        "curl",
    ) || str_equal(name, "chmod") || str_equal(name, "chown") || str_equal(name, "sudo")
        || str_equal(name, "su")
}

fn holds_admin_role(roles: &Vec<String>) -> (yes: bool)
    ensures
        yes == is_admin(views(roles@)),
{
    let mut i: usize = 0;
    while i < roles.len()
        invariant
            i <= roles.len(),
            forall|j: int| 0 <= j < i ==> roles@[j]@ != "admin"@,
        decreases roles.len() - i,
    {
        if str_equal(roles[i].as_str(), "admin") {
            assert(views(roles@)[i as int] == "admin"@);
            return true;
        }
        i = i + 1;
    }
    assert forall|j: int| 0 <= j < views(roles@).len() implies views(roles@)[j] != "admin"@ by {
        assert(views(roles@)[j] == roles@[j]@);
    }
    false
}

fn denied_path(path: &str) -> (yes: bool)
    ensures
        yes == is_denied_path(path@),
{
    str_starts_with(path, "/etc/") || str_starts_with(path, "/var/") || str_starts_with(
        path,
        "/root/",
    ) || str_starts_with(path, "/home/")
}

fn mode_admits_path(mode: &str, path: &str) -> (yes: bool)
    ensures
        yes == mode_admits(mode@, path@),
{
    if str_equal(mode, "read") {
        str_starts_with(path, "/workspace/") || str_starts_with(path, "/tmp/") || str_starts_with(
            path,
            "/data/public/",
        )
    } else if str_equal(mode, "write") {
        str_starts_with(path, "/workspace/") || str_starts_with(path, "/tmp/")
    } else if str_equal(mode, "execute") {
        str_starts_with(path, "/workspace/bin/") || str_starts_with(path, "/usr/bin/")
            || str_starts_with(path, "/bin/")
    } else {
        false
    }
}

impl StubPolicyEvaluator {
    /// Command execution policy evaluation.
    pub fn evaluate_command(&self, input: &PolicyInput) -> (result: McpResult<PolicyDecision>)
        ensures
            result is Ok,
            result->Ok_0@ == command_decision(input@.command.name, input@.user.roles),
    {
        let cmd = input.command.name.as_str();
        let admin = holds_admin_role(&input.user.roles);
        if dangerous_command(cmd) {
            return Ok(
                PolicyDecision::denied(
                    one_string(concat3("Command '", cmd, "' is forbidden as it is dangerous")),
                ),
            );
        }
        if allowed_command(cmd) || admin {
            let warnings = if admin {
                two_strings(
                    String::from_str("Executing as administrator. All operations are audited."),
                    builtin_warning_text(),
                )
            } else {
                one_string(builtin_warning_text())
            };
            return Ok(PolicyDecision::allowed(warnings));
        }
        Ok(
            PolicyDecision::denied(
                one_string(concat3("Command '", cmd, "' is not in the allowed list")),
            ),
        )
    }

    /// File access policy evaluation.
    pub fn evaluate_file_access(&self, _input: &PolicyInput, file_info: &FileInfo) -> (result:
        McpResult<PolicyDecision>)
        ensures
            result is Ok,
            result->Ok_0@ == file_decision(file_info@),
    {
        let path = file_info.path.as_str();
        let mode = file_info.mode.as_str();
        if denied_path(path) {
            return Ok(
                PolicyDecision::denied(
                    one_string(concat3("Access to path '", path, "' is forbidden")),
                ),
            );
        }
        if mode_admits_path(mode, path) {
            let warnings = if str_equal(mode, "write") {
                two_strings(
                    String::from_str("File write operations are audited"),
                    builtin_warning_text(),
                )
            } else {
                one_string(builtin_warning_text())
            };
            Ok(PolicyDecision::allowed(warnings))
        } else {
            Ok(
                PolicyDecision::denied(
                    one_string(
                        concat5("'", mode, "' access to path '", path, "' is not allowed"),
                    ),
                ),
            )
        }
    }

    /// Network access policy evaluation.
    pub fn evaluate_network_access(
        &self,
        _input: &PolicyInput,
        network_info: &NetworkInfo,
    ) -> (result: McpResult<PolicyDecision>)
        ensures
            result is Ok,
            result->Ok_0@ == network_decision(network_info@),
    {
        let host = network_info.host.as_str();
        let protocol = network_info.protocol.as_str();
        let port: u16 = network_info.port;
        let host_allowed = str_equal(host, "api.example.com") || str_equal(host, "cdn.example.com")
            || str_equal(host, "data.example.com");
        let port_allowed = port == 80 || port == 443 || port == 8080;
        let protocol_allowed = str_equal(protocol, "tcp") || str_equal(protocol, "https");
        if host_allowed && port_allowed && protocol_allowed {
            Ok(
                PolicyDecision::allowed(
                    two_strings(
                        String::from_str("Network requests are audited"),
                        builtin_warning_text(),
                    ),
                ),
            )
        } else {
            let mut reasons: Vec<String> = Vec::new();
            if !host_allowed {
                reasons.push(concat3("Access to host '", host, "' is not allowed"));
            }
            if !port_allowed {
                let number = decimal_string(port as u64);
                reasons.push(concat3("Access to port ", number.as_str(), " is not allowed"));
            }
            if !protocol_allowed {
                reasons.push(concat3("Use of protocol '", protocol, "' is not allowed"));
            }
            assert(views(reasons@) =~= network_reasons(network_info@));
            Ok(PolicyDecision::denied(reasons))
        }
    }
}

impl PolicyEvaluator for StubPolicyEvaluator {
    open spec fn outcome(&self, input: PolicyInputView) -> EvalOutcome {
        EvalOutcome::Decided(builtin_decision(input))
    }

    fn evaluate(&self, input: &PolicyInput) -> (result: McpResult<PolicyDecision>) {
        let mut warnings: Vec<String> = Vec::new();
        let mut named = false;
        proof {
            assert(views(warnings@) =~= Seq::<Seq<char>>::empty());
        }
        if !input.command.name.as_str().is_empty() {
            let decision = match self.evaluate_command(input) {
                Ok(decision) => decision,
                Err(e) => {
                    return Err(e);
                },
            };
            if !decision.allow {
                return Ok(decision);
            }
            push_texts(&mut warnings, &decision.warnings);
            named = true;
        }
        proof {
            assert(views(warnings@) =~= warnings_of(command_part(input@)));
        }
        if let Some(file_info) = &input.file {
            let decision = match self.evaluate_file_access(input, file_info) {
                Ok(decision) => decision,
                Err(e) => {
                    return Err(e);
                },
            };
            if !decision.allow {
                return Ok(decision);
            }
            push_texts(&mut warnings, &decision.warnings);
            named = true;
        }
        proof {
            assert(views(warnings@) =~= warnings_of(command_part(input@)) + warnings_of(
                file_part(input@),
            ));
        }
        if let Some(network_info) = &input.network {
            let decision = match self.evaluate_network_access(input, network_info) {
                Ok(decision) => decision,
                Err(e) => {
                    return Err(e);
                },
            };
            if !decision.allow {
                return Ok(decision);
            }
            push_texts(&mut warnings, &decision.warnings);
            named = true;
        }
        if !named {
            return Ok(
                PolicyDecision::allowed(
                    one_string(
                        String::from_str(
                            "Unknown request type. Would be denied in production environment.",
                        ),
                    ),
                ),
            );
        }
        Ok(PolicyDecision::allowed(warnings))
    }
}

/// Evaluator slot for an external declarative-policy engine. Until such an
/// engine is embedded it allows every request, with a warning.
#[derive(Debug, Clone)]
pub struct OpaEvaluator {
    pub query_path: String,
}

impl OpaEvaluator {
    /// Create a new evaluator for the policy module and query path given.
    /// The module's bytes are not read.
    pub fn new(_wasm_policy_bytes: &[u8], query_path: &str) -> (result: McpResult<OpaEvaluator>)
        ensures
            result is Ok,
            result->Ok_0.query_path@ == query_path@,
    {
        Ok(OpaEvaluator { query_path: String::from_str(query_path) })
    }
}

impl PolicyEvaluator for OpaEvaluator {
    open spec fn outcome(&self, input: PolicyInputView) -> EvalOutcome {
        EvalOutcome::Decided(
            PolicyDecisionView::allowed(seq!["OPA WASM evaluation is a stub implementation."@]),
        )
    }

    fn evaluate(&self, input: &PolicyInput) -> (result: McpResult<PolicyDecision>) {
        Ok(
            PolicyDecision::allowed(
                one_string(String::from_str("OPA WASM evaluation is a stub implementation.")),
            ),
        )
    }
}

/// `head`, followed by a colon and the reasons joined by commas where there
/// are any.
pub open spec fn with_reasons(head: Seq<char>, reasons: Seq<Seq<char>>) -> Seq<char> {
    if joined(reasons, ", "@).len() == 0 {
        head
    } else {
        head + ": "@ + joined(reasons, ", "@)
    }
}

/// The sentence that says a command was denied.
pub open spec fn command_denial_head(input: PolicyInputView) -> Seq<char> {
    "Command '"@ + input.command.name + "' execution was denied by policy"@
}

/// The sentence that says a file access was denied.
pub open spec fn file_denial_head(file: FileView) -> Seq<char> {
    file.mode + " access to file '"@ + file.path + "' was denied by policy"@
}

/// The sentence that says a network access was denied.
pub open spec fn network_denial_head(net: NetworkView) -> Seq<char> {
    net.protocol + " access to host '"@ + net.host + ":"@ + decimal(net.port as nat)
        + "' was denied by policy"@
}

/// The fields of the details of a denied command.
pub open spec fn command_denial_fields(input: PolicyInputView, reasons: Seq<Seq<char>>) -> Seq<
    (Seq<char>, DetailValueView),
> {
    seq![
        ("command"@, DetailValueView::Text(input.command.name)),
        ("reasons"@, DetailValueView::List(reasons)),
        ("user_id"@, DetailValueView::Text(input.user.id)),
        ("tenant_id"@, DetailValueView::Text(input.user.tenant_id)),
    ]
}

/// The fields of the details of a denied file access.
pub open spec fn file_denial_fields(
    input: PolicyInputView,
    file: FileView,
    reasons: Seq<Seq<char>>,
) -> Seq<(Seq<char>, DetailValueView)> {
    seq![
        ("path"@, DetailValueView::Text(file.path)),
        ("mode"@, DetailValueView::Text(file.mode)),
        ("reasons"@, DetailValueView::List(reasons)),
        ("user_id"@, DetailValueView::Text(input.user.id)),
        ("tenant_id"@, DetailValueView::Text(input.user.tenant_id)),
    ]
}

/// The fields of the details of a denied network access.
pub open spec fn network_denial_fields(
    input: PolicyInputView,
    net: NetworkView,
    reasons: Seq<Seq<char>>,
) -> Seq<(Seq<char>, DetailValueView)> {
    seq![
        ("host"@, DetailValueView::Text(net.host)),
        ("port"@, DetailValueView::Number(net.port as u64)),
        ("protocol"@, DetailValueView::Text(net.protocol)),
        ("reasons"@, DetailValueView::List(reasons)),
        ("user_id"@, DetailValueView::Text(input.user.id)),
        ("tenant_id"@, DetailValueView::Text(input.user.tenant_id)),
    ]
}

/// A denial as it is reported: the code of its dimension, the message, and
/// the structured details.
#[derive(Debug)]
pub struct PolicyDenial {
    pub code: u32,
    pub message: String,
    pub details: serde_json::Value,
}

/// `denial` reports a denied command with the given reasons.
pub open spec fn is_command_denial(
    denial: PolicyDenial,
    input: PolicyInputView,
    reasons: Seq<Seq<char>>,
) -> bool {
    &&& denial.code == error_code::POLICY_COMMAND_NOT_ALLOWED
    &&& denial.message@ == with_reasons(command_denial_head(input), reasons)
    &&& denial.details == json_object(command_denial_fields(input, reasons))
}

/// `denial` reports a denied file access with the given reasons.
pub open spec fn is_file_denial(
    denial: PolicyDenial,
    input: PolicyInputView,
    file: FileView,
    reasons: Seq<Seq<char>>,
) -> bool {
    &&& denial.code == error_code::POLICY_FILE_ACCESS_DENIED
    &&& denial.message@ == with_reasons(file_denial_head(file), reasons)
    &&& denial.details == json_object(file_denial_fields(input, file, reasons))
}

/// `denial` reports a denied network access with the given reasons.
pub open spec fn is_network_denial(
    denial: PolicyDenial,
    input: PolicyInputView,
    net: NetworkView,
    reasons: Seq<Seq<char>>,
) -> bool {
    &&& denial.code == error_code::POLICY_NETWORK_ACCESS_DENIED
    &&& denial.message@ == with_reasons(network_denial_head(net), reasons)
    &&& denial.details == json_object(network_denial_fields(input, net, reasons))
}

/// What a review comes to, given what the evaluation comes to: the
/// evaluator's failure is handed on; a decision that allows gives no
/// denial; one that denies gives the denial that `describes` admits.
pub open spec fn review_reports(
    result: McpResult<Option<PolicyDenial>>,
    outcome: EvalOutcome,
    describes: spec_fn(PolicyDenial, Seq<Seq<char>>) -> bool,
) -> bool {
    match outcome {
        EvalOutcome::Failed(message) => result is Err && result->Err_0.is_of(
            ErrorKind::Internal,
            message,
        ),
        EvalOutcome::Decided(decision) => if decision.allow {
            result is Ok && result->Ok_0 is None
        } else {
            result is Ok && result->Ok_0 is Some && describes(result->Ok_0->0, decision.reasons)
        },
    }
}

fn add_reasons(head: String, reasons: &Vec<String>) -> (message: String)
    ensures
        message@ == with_reasons(head@, views(reasons@)),
{
    let reason = join_strings(reasons, ", ");
    if reason.as_str().is_empty() {
        head
    } else {
        head.concat(": ").concat(reason.as_str())
    }
}

/// The report of a denied command.
pub fn command_denial(input: &PolicyInput, decision: &PolicyDecision) -> (denial: PolicyDenial)
    ensures
        is_command_denial(denial, input@, decision@.reasons),
{
    let head = concat3("Command '", input.command.name.as_str(), "' execution was denied by policy");
    let message = add_reasons(head, &decision.reasons);
    let mut fields: Vec<(String, DetailValue)> = Vec::new();
    fields.push(text_field("command", input.command.name.as_str()));
    fields.push(list_field("reasons", copy_strings(&decision.reasons)));
    fields.push(text_field("user_id", input.user.id.as_str()));
    fields.push(text_field("tenant_id", input.user.tenant_id.as_str()));
    assert(crate::common::json::fields_view(fields@) =~= command_denial_fields(
        input@,
        decision@.reasons,
    ));
    PolicyDenial {
        code: error_code::POLICY_COMMAND_NOT_ALLOWED,
        message,
        details: build_json_object(&fields),
    }
}

/// The report of a denied file access.
pub fn file_denial(input: &PolicyInput, file_info: &FileInfo, decision: &PolicyDecision) -> (denial:
    PolicyDenial)
    ensures
        is_file_denial(denial, input@, file_info@, decision@.reasons),
{
    let head = String::from_str(file_info.mode.as_str()).concat(" access to file '").concat(
        file_info.path.as_str(),
    ).concat("' was denied by policy");
    let message = add_reasons(head, &decision.reasons);
    let mut fields: Vec<(String, DetailValue)> = Vec::new();
    fields.push(text_field("path", file_info.path.as_str()));
    fields.push(text_field("mode", file_info.mode.as_str()));
    fields.push(list_field("reasons", copy_strings(&decision.reasons)));
    fields.push(text_field("user_id", input.user.id.as_str()));
    fields.push(text_field("tenant_id", input.user.tenant_id.as_str()));
    assert(crate::common::json::fields_view(fields@) =~= file_denial_fields(
        input@,
        file_info@,
        decision@.reasons,
    ));
    PolicyDenial {
        code: error_code::POLICY_FILE_ACCESS_DENIED,
        message,
        details: build_json_object(&fields),
    }
}

/// The report of a denied network access.
pub fn network_denial(
    input: &PolicyInput,
    network_info: &NetworkInfo,
    decision: &PolicyDecision,
) -> (denial: PolicyDenial)
    ensures
        is_network_denial(denial, input@, network_info@, decision@.reasons),
{
    let number = decimal_string(network_info.port as u64);
    let head = String::from_str(network_info.protocol.as_str()).concat(" access to host '").concat(
        network_info.host.as_str(),
    ).concat(":").concat(number.as_str()).concat("' was denied by policy");
    let message = add_reasons(head, &decision.reasons);
    let mut fields: Vec<(String, DetailValue)> = Vec::new();
    fields.push(text_field("host", network_info.host.as_str()));
    fields.push(number_field("port", network_info.port as u64));
    fields.push(text_field("protocol", network_info.protocol.as_str()));
    fields.push(list_field("reasons", copy_strings(&decision.reasons)));
    fields.push(text_field("user_id", input.user.id.as_str()));
    fields.push(text_field("tenant_id", input.user.tenant_id.as_str()));
    assert(crate::common::json::fields_view(fields@) =~= network_denial_fields(
        input@,
        network_info@,
        decision@.reasons,
    ));
    PolicyDenial {
        code: error_code::POLICY_NETWORK_ACCESS_DENIED,
        message,
        details: build_json_object(&fields),
    }
}

/// Helper function: generate policy violation error. The code and the
/// details are not part of the error value.
pub fn policy_violation(_code: u32, message: String, _details: Option<serde_json::Value>) -> (e:
    McpError)
    ensures
        e == McpError::PolicyViolation(message),
{
    McpError::PolicyViolation(message)
}

/// `result` is what a check returns when the evaluation comes to `outcome`
/// and a denial is worded with `head`: the evaluator's failure is handed
/// on, a denial becomes a policy violation whose message names the reasons,
/// and anything else passes.
pub open spec fn check_reports(result: McpResult<()>, outcome: EvalOutcome, head: Seq<char>) -> bool {
    match outcome {
        EvalOutcome::Failed(message) => result is Err && result->Err_0.is_of(
            ErrorKind::Internal,
            message,
        ),
        EvalOutcome::Decided(decision) => if decision.allow {
            result is Ok
        } else {
            result is Err && result->Err_0.is_of(
                ErrorKind::PolicyViolation,
                with_reasons(head, decision.reasons),
            )
        },
    }
}

/// Policy engine: one evaluator, chosen when the engine is built.
#[derive(Debug, Clone)]
pub struct PolicyEngine<E: PolicyEvaluator> {
    pub evaluator: E,
}

impl PolicyEngine<StubPolicyEvaluator> {
    /// Create a new policy engine with the built-in rule set.
    pub fn new() -> (engine: PolicyEngine<StubPolicyEvaluator>) {
        PolicyEngine { evaluator: StubPolicyEvaluator {  } }
    }
}

impl<E: PolicyEvaluator> PolicyEngine<E> {
    /// Create a new policy engine with the evaluator given.
    pub fn with_evaluator(evaluator: E) -> (engine: PolicyEngine<E>)
        ensures
            engine.evaluator == evaluator,
    {
        PolicyEngine { evaluator }
    }

    /// Reviews a command: the denial where the policy denies it, none
    /// where the policy allows it.
    pub fn review_command_execution(&self, input: &PolicyInput) -> (result: McpResult<
        Option<PolicyDenial>,
    >)
        ensures
            review_reports(
                result,
                self.evaluator.outcome(input@),
                |denial: PolicyDenial, reasons: Seq<Seq<char>>|
                    is_command_denial(denial, input@, reasons),
            ),
    {
        match self.evaluator.evaluate(input) {
            Err(e) => Err(e),
            Ok(decision) => {
                if !decision.allow {
                    Ok(Some(command_denial(input, &decision)))
                } else {
                    Ok(None)
                }
            },
        }
    }

    /// Reviews a file access. A request that names no file is allowed
    /// without an evaluation.
    pub fn review_file_access(&self, input: &PolicyInput) -> (result: McpResult<
        Option<PolicyDenial>,
    >)
        ensures
            input.file is None ==> result is Ok && result->Ok_0 is None,
            input.file is Some ==> review_reports(
                result,
                self.evaluator.outcome(input@),
                |denial: PolicyDenial, reasons: Seq<Seq<char>>|
                    is_file_denial(denial, input@, input.file->0@, reasons),
            ),
    {
        if let Some(file_info) = &input.file {
            match self.evaluator.evaluate(input) {
                Err(e) => Err(e),
                Ok(decision) => {
                    if !decision.allow {
                        Ok(Some(file_denial(input, file_info, &decision)))
                    } else {
                        Ok(None)
                    }
                },
            }
        } else {
            Ok(None)
        }
    }

    /// Reviews a network access. A request that names no destination is
    /// allowed without an evaluation.
    pub fn review_network_access(&self, input: &PolicyInput) -> (result: McpResult<
        Option<PolicyDenial>,
    >)
        ensures
            input.network is None ==> result is Ok && result->Ok_0 is None,
            input.network is Some ==> review_reports(
                result,
                self.evaluator.outcome(input@),
                |denial: PolicyDenial, reasons: Seq<Seq<char>>|
                    is_network_denial(denial, input@, input.network->0@, reasons),
            ),
    {
        if let Some(network_info) = &input.network {
            match self.evaluator.evaluate(input) {
                Err(e) => Err(e),
                Ok(decision) => {
                    if !decision.allow {
                        Ok(Some(network_denial(input, network_info, &decision)))
                    } else {
                        Ok(None)
                    }
                },
            }
        } else {
            Ok(None)
        }
    }

    /// Evaluate whether to allow command execution.
    pub fn check_command_execution(&self, input: &PolicyInput) -> (result: McpResult<()>)
        ensures
            check_reports(result, self.evaluator.outcome(input@), command_denial_head(input@)),
    {
        match self.review_command_execution(input) {
            Err(e) => Err(e),
            Ok(Some(denial)) => Err(
                policy_violation(denial.code, denial.message, Some(denial.details)),
            ),
            Ok(None) => Ok(()),
        }
    }

    /// Evaluate whether to allow file access. A request that names no file
    /// passes without an evaluation.
    pub fn check_file_access(&self, input: &PolicyInput) -> (result: McpResult<()>)
        ensures
            input.file is None ==> result is Ok,
            input.file is Some ==> check_reports(
                result,
                self.evaluator.outcome(input@),
                file_denial_head(input.file->0@),
            ),
    {
        match self.review_file_access(input) {
            Err(e) => Err(e),
            Ok(Some(denial)) => Err(
                policy_violation(denial.code, denial.message, Some(denial.details)),
            ),
            Ok(None) => Ok(()),
        }
    }

    /// Evaluate whether to allow network access. A request that names no
    /// destination passes without an evaluation.
    pub fn check_network_access(&self, input: &PolicyInput) -> (result: McpResult<()>)
        ensures
            input.network is None ==> result is Ok,
            input.network is Some ==> check_reports(
                result,
                self.evaluator.outcome(input@),
                network_denial_head(input.network->0@),
            ),
    {
        match self.review_network_access(input) {
            Err(e) => Err(e),
            Ok(Some(denial)) => Err(
                policy_violation(denial.code, denial.message, Some(denial.details)),
            ),
            Ok(None) => Ok(()),
        }
    }
}

} // verus!



