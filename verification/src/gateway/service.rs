//! The request service: it checks a command against the policy, registers
//! the task, and keeps the task's record in step with what the worker and
//! the clients do. Running the command and moving bytes are the caller's
//! part; every decision is taken here.

use crate::common::error::{ErrorKind, McpError, McpResult};
use crate::common::grpc::Status;
use crate::common::json::json_object;
use crate::common::models::{
    copy_option, option_view, CommandRequest, CommandRequestView, HealthResponse, ResourceUsage,
    TaskInfo, TaskInfoView, TaskStatus, TaskType,
};
use crate::common::text::{
    contains_substring, copy_strings, decimal, decimal_string, later_of, lemma_lex_le_transitive,
    lex_le, str_contains, views,
};
use crate::common::utils::{
    current_iso8601, current_timestamp_ms, generate_task_id, is_task_id, is_timestamp, task_id_of,
};
use crate::gateway::error::{counted, handled, reported, ErrorHandler, Response};
use crate::gateway::messages::{
    OutputChunkType, TaskCreatedResponse, TaskOutputChunk, TaskRecord, TaskRecordView, TaskResult,
    TaskResultView, TaskStatusResponse,
};
use crate::gateway::store::{admits, evolves, record_wf, TaskStore};
use crate::policy::engine::{
    command_denial_fields, command_denial_head, policy_violation, with_reasons, EvalOutcome,
    PolicyEngine, PolicyEvaluator,
};
use crate::policy::models::{
    CommandInfo, CommandView, PolicyInput, PolicyInputView, ResourceLimits, UserInfo, UserView,
};
use crate::sandbox::executor::CommandExecutor;
use crate::sandbox::models::ExecutionResult;
use std::collections::HashMap;
use vstd::prelude::*;
use vstd::utf8::encode_utf8;

verus! {

/// Version of the service.
pub const VERSION: &'static str = "0.1.0";

/// Capacity of the channel between the worker that produces a task's
/// output and the handler that streams it; a full channel holds the
/// worker back.
pub const OUTPUT_CHANNEL_CAPACITY: usize = 128;

/// What the worker of a task has to run.
#[derive(Debug, Clone)]
pub struct WorkerJob {
    pub task_id: String,
    pub command: String,
    pub args: Vec<String>,
    pub env: HashMap<String, String>,
    pub cwd: Option<String>,
    /// The timeout asked for, in seconds.
    pub timeout: Option<u32>,
}

/// What a job says.
pub struct WorkerJobView {
    pub task_id: Seq<char>,
    pub command: Seq<char>,
    pub args: Seq<Seq<char>>,
    pub env: Map<String, String>,
    pub cwd: Option<Seq<char>>,
    pub timeout: Option<u32>,
}

impl View for WorkerJob {
    type V = WorkerJobView;

    open spec fn view(&self) -> WorkerJobView {
        WorkerJobView {
            task_id: self.task_id@,
            command: self.command@,
            args: views(self.args@),
            env: self.env@,
            cwd: option_view(self.cwd),
            timeout: self.timeout,
        }
    }
}

/// A command that was accepted: the answer for the client, and the job
/// for the worker that the caller has to start.
#[derive(Debug, Clone)]
pub struct TaskAccepted {
    pub response: TaskCreatedResponse,
    pub job: WorkerJob,
}

/// A command that was not accepted: the error, and for a denial by the
/// policy the structured details of the denial.
#[derive(Debug)]
pub struct Rejection {
    pub error: McpError,
    pub details: Option<serde_json::Value>,
}

/// The answer to a cancellation: the state of the task, and whether the
/// caller has to stop the task's worker.
#[derive(Debug, Clone)]
pub struct CancelAnswer {
    pub response: TaskStatusResponse,
    pub stop_worker: bool,
}

/// What there is to stream of a task's output at one moment.
#[derive(Debug, Clone)]
pub struct StreamPoll {
    /// The chunks, standard output before standard error.
    pub chunks: Vec<TaskOutputChunk>,
    /// Whether the task has ended, and with it the stream.
    pub finished: bool,
}

/// Answer to a request to read a file.
#[derive(Debug, Clone)]
pub struct ReadFileResponse {
    pub content: Vec<u8>,
}

/// Answer to a request to write a file.
#[derive(Debug, Clone)]
pub struct WriteFileResponse {
    pub bytes_written: u64,
}

/// Answer to a request to delete a file.
#[derive(Debug, Clone)]
pub struct DeleteFileResponse {
    pub deleted: bool,
}

/// The policy input for a command request of a caller.
pub open spec fn policy_view(req: CommandRequestView, caller: UserView) -> PolicyInputView {
    PolicyInputView {
        user: caller,
        command: CommandView {
            name: req.command,
            args: req.args,
            cwd: match req.cwd {
                Some(dir) => dir,
                None => Seq::empty(),
            },
            env: req.env,
        },
        file: None,
        network: None,
        resources: ResourceLimits {
            cpu_time_ms: None,
            memory_kb: None,
            max_files: None,
            max_processes: None,
        },
        context: Map::empty(),
    }
}

/// The record of a task that has just been created.
pub open spec fn created_record(
    id: Seq<char>,
    now: Seq<char>,
    metadata: Map<String, String>,
) -> TaskRecordView {
    TaskRecordView {
        info: TaskInfoView {
            task_id: id,
            task_type: TaskType::Command,
            status: TaskStatus::Created,
            created_at: now,
            started_at: None,
            completed_at: None,
            metadata,
        },
        result: None,
    }
}

/// The job for a command request that was registered under `id`.
pub open spec fn job_for(id: Seq<char>, req: CommandRequestView) -> WorkerJobView {
    WorkerJobView {
        task_id: id,
        command: req.command,
        args: req.args,
        env: req.env,
        cwd: req.cwd,
        timeout: Some(req.timeout),
    }
}

/// The later of a reading of the clock and a time already recorded.
pub open spec fn later(now: Seq<char>, floor: Seq<char>) -> Seq<char> {
    if lex_le(floor, now) {
        now
    } else {
        floor
    }
}

/// The record of a task whose worker has just begun.
pub open spec fn started_record(current: TaskRecordView, now: Seq<char>) -> TaskRecordView {
    TaskRecordView {
        info: TaskInfoView {
            status: TaskStatus::Running,
            started_at: Some(later(now, current.info.created_at)),
            ..current.info
        },
        result: current.result,
    }
}

/// An error says that the command ran into its timeout.
pub open spec fn is_timeout(kind: ErrorKind, message: Seq<char>) -> bool {
    (kind == ErrorKind::Execution || kind == ErrorKind::Temporary) && contains_substring(
        message,
        "timed out"@,
    )
}

/// The status that the outcome of an execution leads to.
pub open spec fn final_status(outcome: McpResult<ExecutionResult>) -> TaskStatus {
    match outcome {
        Ok(_) => TaskStatus::Completed,
        Err(e) => if is_timeout(e.spec_kind(), e.message()) {
            TaskStatus::TimedOut
        } else {
            TaskStatus::Failed
        },
    }
}

/// The result payload that the outcome of an execution leads to: what the
/// command gave, or, for an error, exit code -1 and the error on the error
/// stream.
pub open spec fn final_result(outcome: McpResult<ExecutionResult>) -> TaskResultView {
    match outcome {
        Ok(output) => TaskResultView {
            exit_code: match output.exit_code {
                Some(code) => code,
                None => -1i32,
            },
            stdout: output.stdout@,
            stderr: output.stderr@,
            resource_usage: Some(
                ResourceUsage {
                    cpu_time_ms: output.resource_usage.cpu_time_ms,
                    max_memory_kb: output.resource_usage.max_memory_kb,
                    io_read_bytes: output.resource_usage.io_read_bytes,
                    io_write_bytes: output.resource_usage.io_write_bytes,
                },
            ),
            execution_time_ms: output.execution_time_ms,
        },
        Err(e) => TaskResultView {
            exit_code: -1i32,
            stdout: Seq::empty(),
            stderr: "Error: "@ + e.rendered(),
            resource_usage: None,
            execution_time_ms: 0,
        },
    }
}

/// The time from which the completion of a task is counted: its start,
/// or its creation where it never started.
pub open spec fn last_time(info: TaskInfoView) -> Seq<char> {
    match info.started_at {
        Some(started) => started,
        None => info.created_at,
    }
}

/// The record of a task whose worker has just ended with `outcome`.
pub open spec fn finished_record(
    current: TaskRecordView,
    outcome: McpResult<ExecutionResult>,
    now: Seq<char>,
) -> TaskRecordView {
    TaskRecordView {
        info: TaskInfoView {
            status: final_status(outcome),
            completed_at: Some(later(now, last_time(current.info))),
            ..current.info
        },
        result: Some(final_result(outcome)),
    }
}

/// The record of a task that has just been cancelled.
pub open spec fn cancelled_record(current: TaskRecordView, now: Seq<char>) -> TaskRecordView {
    TaskRecordView {
        info: TaskInfoView {
            status: TaskStatus::Cancelled,
            completed_at: Some(later(now, last_time(current.info))),
            ..current.info
        },
        result: current.result,
    }
}

/// The chunks of output that a record has to show: one for standard
/// output and one for standard error, each only where there is
/// something in it.
pub open spec fn chunk_views(record: TaskRecordView) -> Seq<(OutputChunkType, Seq<u8>)> {
    match record.result {
        None => Seq::empty(),
        Some(result) => {
            let out = if result.stdout.len() > 0 {
                seq![(OutputChunkType::ChunkStdout, encode_utf8(result.stdout))]
            } else {
                Seq::empty()
            };
            let err = if result.stderr.len() > 0 {
                seq![(OutputChunkType::ChunkStderr, encode_utf8(result.stderr))]
            } else {
                Seq::empty()
            };
            out + err
        },
    }
}

/// The seconds that the service has been up.
pub open spec fn uptime_seconds(start_time_ms: u64, now_ms: u64) -> u64 {
    if now_ms >= start_time_ms {
        ((now_ms - start_time_ms) / 1000) as u64
    } else {
        0
    }
}

/// The status line of a health answer.
pub open spec fn health_status(include_stats: bool, uptime: u64, errors: u64) -> Seq<char> {
    if include_stats {
        "ok [uptime="@ + decimal(uptime as nat) + "s, errors="@ + decimal(errors as nat) + "]"@
    } else {
        "ok"@
    }
}

/// What the registration of a command comes to, given what the policy
/// evaluation comes to. The request is looked at first: an empty command
/// is an invalid request, and so is a timeout of zero; neither reaches the
/// policy. Then: a failure of the evaluator is handed on, a denial
/// becomes a policy violation with the details of the denial, and in both
/// cases nothing is stored; an id that is taken is an internal error;
/// otherwise the task is stored as created and the job is handed out.
pub open spec fn registers(
    policy: EvalOutcome,
    before: Map<Seq<char>, TaskRecordView>,
    req: CommandRequestView,
    caller: UserView,
    id: Seq<char>,
    now: Seq<char>,
    result: Result<TaskAccepted, Rejection>,
    after: Map<Seq<char>, TaskRecordView>,
) -> bool {
    if req.command.len() == 0 {
        result is Err && result->Err_0.error.is_of(
            ErrorKind::InvalidRequest,
            "Command is not specified"@,
        ) && result->Err_0.details is None && after == before
    } else if req.timeout == 0 {
        result is Err && result->Err_0.error.is_of(
            ErrorKind::InvalidRequest,
            "Timeout must be at least 1 second"@,
        ) && result->Err_0.details is None && after == before
    } else {
        registers_checked(policy, before, req, caller, id, now, result, after)
    }
}

/// What the registration of a valid command comes to, given what the
/// policy evaluation comes to.
pub open spec fn registers_checked(
    policy: EvalOutcome,
    before: Map<Seq<char>, TaskRecordView>,
    req: CommandRequestView,
    caller: UserView,
    id: Seq<char>,
    now: Seq<char>,
    result: Result<TaskAccepted, Rejection>,
    after: Map<Seq<char>, TaskRecordView>,
) -> bool {
    match policy {
        EvalOutcome::Failed(message) => result is Err && result->Err_0.error.is_of(
            ErrorKind::Internal,
            message,
        ) && result->Err_0.details is None && after == before,
        EvalOutcome::Decided(decision) => if !decision.allow {
            result is Err && result->Err_0.error.is_of(
                ErrorKind::PolicyViolation,
                with_reasons(command_denial_head(policy_view(req, caller)), decision.reasons),
            ) && result->Err_0.details == Some(
                json_object(command_denial_fields(policy_view(req, caller), decision.reasons)),
            ) && after == before
        } else if before.contains_key(id) {
            result is Err && result->Err_0.error.is_of(
                ErrorKind::Internal,
                "Task id is already registered: "@ + id,
            ) && result->Err_0.details is None && after == before
        } else {
            &&& result is Ok
            &&& result->Ok_0.response.task_id@ == id
            &&& result->Ok_0.response.status == TaskStatus::Created
            &&& result->Ok_0.response.created_at@ == now
            &&& result->Ok_0.job@ == job_for(id, req)
            &&& after == before.insert(id, created_record(id, now, req.metadata))
        },
    }
}

/// `answer` is what the service sends for the registration that came to
/// `result`, and the counters have gone from `before` to `after` in doing
/// so: an accepted command is wrapped and counts nothing; a rejection is
/// counted and sent as the status of its error, with its details in the
/// payload.
pub open spec fn answers(
    answer: Result<Response<TaskAccepted>, Status>,
    result: Result<TaskAccepted, Rejection>,
    before: Map<Seq<char>, u64>,
    after: Map<Seq<char>, u64>,
) -> bool {
    match result {
        Ok(accepted) => answer is Ok && answer->Ok_0.message == accepted && after == before,
        Err(rejection) => answer is Err && reported(
            answer->Err_0,
            rejection.error,
            rejection.details,
        ) && after == counted(before, rejection.error.spec_kind(), rejection.error.spec_code()),
    }
}

/// What the beginning of a task's work comes to: a task that waits is set
/// running; any other is left as it is.
pub open spec fn begins(
    before: Map<Seq<char>, TaskRecordView>,
    id: Seq<char>,
    now: Seq<char>,
    result: McpResult<bool>,
    after: Map<Seq<char>, TaskRecordView>,
) -> bool {
    if !before.contains_key(id) {
        result is Err && result->Err_0.is_of(ErrorKind::NotFound, "タスクが見つかりません: "@ + id)
            && after == before
    } else if before[id].info.status.spec_rank() < 2 {
        result == Ok::<bool, McpError>(true) && after == before.insert(
            id,
            started_record(before[id], now),
        )
    } else {
        result == Ok::<bool, McpError>(false) && after == before
    }
}

/// What the end of a task's work comes to: a running task takes the final
/// status, the completion time and the result; any other is left as it is.
pub open spec fn ends(
    before: Map<Seq<char>, TaskRecordView>,
    id: Seq<char>,
    outcome: McpResult<ExecutionResult>,
    now: Seq<char>,
    result: McpResult<bool>,
    after: Map<Seq<char>, TaskRecordView>,
) -> bool {
    if !before.contains_key(id) {
        result is Err && result->Err_0.is_of(ErrorKind::NotFound, "タスクが見つかりません: "@ + id)
            && after == before
    } else if before[id].info.status == TaskStatus::Running {
        result == Ok::<bool, McpError>(true) && after == before.insert(
            id,
            finished_record(before[id], outcome, now),
        )
    } else {
        result == Ok::<bool, McpError>(false) && after == before
    }
}

/// What a request for the state of a task comes to.
pub open spec fn shows(
    tasks: Map<Seq<char>, TaskRecordView>,
    id: Seq<char>,
    result: McpResult<TaskStatusResponse>,
) -> bool {
    if !tasks.contains_key(id) {
        result is Err && result->Err_0.is_of(ErrorKind::NotFound, "タスクが見つかりません: "@ + id)
    } else {
        &&& result is Ok
        &&& result->Ok_0.task_info is Some
        &&& result->Ok_0.task_info->0@ == tasks[id].info
        &&& crate::gateway::messages::result_view(result->Ok_0.result) == tasks[id].result
    }
}

/// What a cancellation comes to: a task that has not ended is cancelled
/// and its worker is to be stopped; a task that has ended is left as it
/// is, without an error.
pub open spec fn cancels(
    before: Map<Seq<char>, TaskRecordView>,
    id: Seq<char>,
    now: Seq<char>,
    result: McpResult<CancelAnswer>,
    after: Map<Seq<char>, TaskRecordView>,
) -> bool {
    if !before.contains_key(id) {
        result is Err && result->Err_0.is_of(ErrorKind::NotFound, "タスクが見つかりません: "@ + id)
            && after == before
    } else if before[id].info.status.spec_is_terminal() {
        &&& result is Ok
        &&& result->Ok_0.response.task_info is Some
        &&& result->Ok_0.response.task_info->0@ == before[id].info
        &&& result->Ok_0.response.result is None
        &&& !result->Ok_0.stop_worker
        &&& after == before
    } else {
        &&& result is Ok
        &&& result->Ok_0.response.task_info is Some
        &&& result->Ok_0.response.task_info->0@ == cancelled_record(before[id], now).info
        &&& result->Ok_0.response.result is None
        &&& result->Ok_0.stop_worker
        &&& after == before.insert(id, cancelled_record(before[id], now))
    }
}

/// What the chunks of a poll say.
pub open spec fn poll_chunks(chunks: Seq<TaskOutputChunk>) -> Seq<(OutputChunkType, Seq<u8>)> {
    Seq::new(chunks.len(), |i: int| (chunks[i].chunk_type, chunks[i].data@))
}

/// What a poll of a task's output comes to.
pub open spec fn streams(
    tasks: Map<Seq<char>, TaskRecordView>,
    id: Seq<char>,
    now_ms: u64,
    result: McpResult<StreamPoll>,
) -> bool {
    if !tasks.contains_key(id) {
        result is Err && result->Err_0.is_of(ErrorKind::NotFound, "タスクが見つかりません: "@ + id)
    } else {
        &&& result is Ok
        &&& result->Ok_0.finished == tasks[id].info.status.spec_is_terminal()
        &&& poll_chunks(result->Ok_0.chunks@) == chunk_views(tasks[id])
        &&& forall|i: int|
            0 <= i < result->Ok_0.chunks@.len() ==> (#[trigger] result->Ok_0.chunks@[i]).task_id@
                == id && result->Ok_0.chunks@[i].timestamp_ms == now_ms
    }
}

/// What a health request comes to.
pub open spec fn reports_health(
    start_time_ms: u64,
    now_ms: u64,
    include_stats: bool,
    errors: u64,
    response: HealthResponse,
) -> bool {
    &&& response.status@ == health_status(
        include_stats,
        uptime_seconds(start_time_ms, now_ms),
        errors,
    )
    &&& response.version@ == VERSION@
    &&& response.uptime_seconds == uptime_seconds(start_time_ms, now_ms)
}

/// The request service.
pub struct McpServiceImpl<E: PolicyEvaluator> {
    pub policy_engine: PolicyEngine<E>,
    pub command_executor: CommandExecutor,
    /// When the service started, in milliseconds since the Unix epoch.
    pub start_time_ms: u64,
    pub tasks: TaskStore,
    pub errors: ErrorHandler,
}

fn error_is_timeout(e: &McpError) -> (yes: bool)
    ensures
        yes == is_timeout(e.spec_kind(), e.message()),
{
    match e {
        McpError::Execution(m) => str_contains(m.as_str(), "timed out"),
        McpError::Temporary(m) => str_contains(m.as_str(), "timed out"),
        _ => false,
    }
}

/// The label under which a failed execution is counted in the metrics.
pub fn failure_label(e: &McpError) -> (label: &'static str)
    ensures
        label@ == (match e.spec_kind() {
            ErrorKind::Execution => "command_failed"@,
            ErrorKind::Temporary => "timeout"@,
            ErrorKind::Sandbox => "sandbox_error"@,
            _ => "other"@,
        }),
{
    match e {
        McpError::Execution(_) => "command_failed",
        McpError::Temporary(_) => "timeout",
        McpError::Sandbox(_) => "sandbox_error",
        _ => "other",
    }
}

fn outcome_result(outcome: &McpResult<ExecutionResult>) -> (result: TaskResult)
    ensures
        result@ == final_result(*outcome),
{
    match outcome {
        Ok(output) => TaskResult {
            exit_code: match output.exit_code {
                Some(code) => code,
                None => -1,
            },
            stdout: output.stdout.clone(),
            stderr: output.stderr.clone(),
            resource_usage: Some(
                ResourceUsage {
                    cpu_time_ms: output.resource_usage.cpu_time_ms,
                    max_memory_kb: output.resource_usage.max_memory_kb,
                    io_read_bytes: output.resource_usage.io_read_bytes,
                    io_write_bytes: output.resource_usage.io_write_bytes,
                },
            ),
            execution_time_ms: output.execution_time_ms,
        },
        Err(e) => {
            let rendered = e.to_string();
            TaskResult {
                exit_code: -1,
                stdout: String::new(),
                stderr: String::from_str("Error: ").concat(rendered.as_str()),
                resource_usage: None,
                execution_time_ms: 0,
            }
        },
    }
}

fn outcome_status(outcome: &McpResult<ExecutionResult>) -> (status: TaskStatus)
    ensures
        status == final_status(*outcome),
{
    match outcome {
        Ok(_) => TaskStatus::Completed,
        Err(e) => if error_is_timeout(e) {
            TaskStatus::TimedOut
        } else {
            TaskStatus::Failed
        },
    }
}

fn last_time_of(info: &TaskInfo) -> (time: &str)
    ensures
        time@ == last_time(info@),
{
    match &info.started_at {
        Some(started) => started.as_str(),
        None => info.created_at.as_str(),
    }
}

impl<E: PolicyEvaluator> McpServiceImpl<E> {
    /// The service is well-formed: its store is.
    pub open spec fn wf(&self) -> bool {
        self.tasks.wf()
    }

    /// Create a service with no tasks and no errors counted.
    pub fn new(
        policy_engine: PolicyEngine<E>,
        command_executor: CommandExecutor,
        start_time_ms: u64,
    ) -> (service: McpServiceImpl<E>)
        ensures
            service.wf(),
            service.policy_engine == policy_engine,
            service.command_executor == command_executor,
            service.start_time_ms == start_time_ms,
            service.tasks@ == crate::gateway::store::no_tasks(),
            service.errors@ == crate::gateway::error::no_counters(),
    {
        McpServiceImpl {
            policy_engine,
            command_executor,
            start_time_ms,
            tasks: TaskStore::new(),
            errors: ErrorHandler::new(),
        }
    }

    /// Checks a command against the policy and registers it as a task
    /// under `task_id`, created at `now`.
    pub fn register_command(
        &mut self,
        req: &CommandRequest,
        caller: UserInfo,
        task_id: String,
        now: String,
    ) -> (result: Result<TaskAccepted, Rejection>)
        requires
            old(self).wf(),
        ensures
            final(self).wf(),
            final(self).errors@ == old(self).errors@,
            evolves(old(self).tasks@, final(self).tasks@),
            registers(
                old(self).policy_engine.evaluator.outcome(policy_view(req@, caller@)),
                old(self).tasks@,
                req@,
                caller@,
                task_id@,
                now@,
                result,
                final(self).tasks@,
            ),
    {
        if req.command.as_str().is_empty() {
            return Err(
                Rejection {
                    error: McpError::InvalidRequest(String::from_str("Command is not specified")),
                    details: None,
                },
            );
        }
        if req.timeout == 0 {
            return Err(
                Rejection {
                    error: McpError::InvalidRequest(
                        String::from_str("Timeout must be at least 1 second"),
                    ),
                    details: None,
                },
            );
        }
        let cwd = match &req.cwd {
            Some(dir) => dir.clone(),
            None => String::new(),
        };
        let policy_input = PolicyInput {
            user: caller,
            command: CommandInfo {
                name: req.command.clone(),
                args: copy_strings(&req.args),
                cwd,
                env: req.env.clone(),
            },
            file: None,
            network: None,
            resources: ResourceLimits::default(),
            context: HashMap::new(),
        };
        proof {
            assert(policy_input@.command.cwd =~= policy_view(req@, caller@).command.cwd);
            assert(policy_input@ == policy_view(req@, caller@));
        }
        match self.policy_engine.review_command_execution(&policy_input) {
            Err(error) => {
                return Err(Rejection { error, details: None });
            },
            Ok(Some(denial)) => {
                return Err(
                    Rejection {
                        error: policy_violation(denial.code, denial.message, None),
                        details: Some(denial.details),
                    },
                );
            },
            Ok(None) => {},
        }
        let task_info = TaskInfo {
            task_id: task_id.clone(),
            task_type: TaskType::Command,
            status: TaskStatus::Created,
            created_at: now.clone(),
            started_at: None,
            completed_at: None,
            metadata: req.metadata.clone(),
        };
        let record = TaskRecord { info: task_info, result: None };
        match self.tasks.insert(task_id.clone(), record) {
            Err(error) => {
                return Err(Rejection { error, details: None });
            },
            Ok(_) => {},
        }
        let timeout = Some(req.timeout);
        Ok(
            TaskAccepted {
                response: TaskCreatedResponse {
                    task_id: task_id.clone(),
                    status: TaskStatus::Created,
                    created_at: now,
                },
                job: WorkerJob {
                    task_id,
                    command: req.command.clone(),
                    args: copy_strings(&req.args),
                    env: req.env.clone(),
                    cwd: copy_option(&req.cwd),
                    timeout,
                },
            },
        )
    }

    /// Checks a command against the policy and registers it as a task
    /// under the id made of `entropy`, 16 random bytes, created at the time
    /// the clock shows.
    pub fn try_execute_command(
        &mut self,
        req: &CommandRequest,
        caller: UserInfo,
        entropy: &[u8; 16],
    ) -> (result: Result<TaskAccepted, Rejection>)
        requires
            old(self).wf(),
        ensures
            final(self).wf(),
            final(self).errors@ == old(self).errors@,
            evolves(old(self).tasks@, final(self).tasks@),
            is_task_id(task_id_of(entropy@)),
            exists|now: Seq<char>|
                is_timestamp(now) && #[trigger] registers(
                    old(self).policy_engine.evaluator.outcome(policy_view(req@, caller@)),
                    old(self).tasks@,
                    req@,
                    caller@,
                    task_id_of(entropy@),
                    now,
                    result,
                    final(self).tasks@,
                ),
    {
        let task_id = generate_task_id(entropy);
        let now = current_iso8601();
        self.register_command(req, caller, task_id, now)
    }

    /// Records that the worker of a task begins its work at `now`. Says
    /// whether the task was set running; where it was not, the worker has
    /// nothing to do.
    pub fn begin_task(&mut self, task_id: &str, now: String) -> (result: McpResult<bool>)
        requires
            old(self).wf(),
        ensures
            final(self).wf(),
            final(self).errors@ == old(self).errors@,
            evolves(old(self).tasks@, final(self).tasks@),
            begins(old(self).tasks@, task_id@, now@, result, final(self).tasks@),
    {
        let current = match self.tasks.get(task_id) {
            Ok(record) => record,
            Err(e) => {
                return Err(e);
            },
        };
        if current.info.status.rank() >= 2 {
            return Ok(false);
        }
        let started = later_of(now, current.info.created_at.as_str());
        let next = TaskRecord {
            info: TaskInfo {
                task_id: current.info.task_id,
                task_type: current.info.task_type,
                status: TaskStatus::Running,
                created_at: current.info.created_at,
                started_at: Some(started),
                completed_at: current.info.completed_at,
                metadata: current.info.metadata,
            },
            result: current.result,
        };
        proof {
            assert(next@ == started_record(old(self).tasks@[task_id@], now@));
            assert(admits(old(self).tasks@[task_id@], next@));
        }
        self.tasks.replace(task_id, next)
    }

    /// Records that the worker of a task has ended at `now` with
    /// `outcome`. Says whether the record took the outcome; a task that is
    /// not running, such as one cancelled meanwhile, keeps its record.
    pub fn finish_task(
        &mut self,
        task_id: &str,
        outcome: &McpResult<ExecutionResult>,
        now: String,
    ) -> (result: McpResult<bool>)
        requires
            old(self).wf(),
        ensures
            final(self).wf(),
            final(self).errors@ == old(self).errors@,
            evolves(old(self).tasks@, final(self).tasks@),
            ends(old(self).tasks@, task_id@, *outcome, now@, result, final(self).tasks@),
    {
        let current = match self.tasks.get(task_id) {
            Ok(record) => record,
            Err(e) => {
                return Err(e);
            },
        };
        if current.info.status != TaskStatus::Running {
            return Ok(false);
        }
        let completed = later_of(now, last_time_of(&current.info));
        let next = TaskRecord {
            info: TaskInfo {
                task_id: current.info.task_id,
                task_type: current.info.task_type,
                status: outcome_status(outcome),
                created_at: current.info.created_at,
                started_at: current.info.started_at,
                completed_at: Some(completed),
                metadata: current.info.metadata,
            },
            result: Some(outcome_result(outcome)),
        };
        proof {
            let before = old(self).tasks@[task_id@];
            assert(next@ == finished_record(before, *outcome, now@));
            lemma_lex_le_transitive(
                before.info.created_at,
                before.info.started_at->0,
                next@.info.completed_at->0,
            );
            assert(admits(before, next@));
        }
        self.tasks.replace(task_id, next)
    }

    /// The state of a task.
    pub fn try_get_task_status(&self, task_id: &str) -> (result: McpResult<TaskStatusResponse>)
        requires
            self.wf(),
        ensures
            shows(self.tasks@, task_id@, result),
            result is Ok ==> record_wf(
                TaskRecordView {
                    info: result->Ok_0.task_info->0@,
                    result: crate::gateway::messages::result_view(result->Ok_0.result),
                },
            ),
    {
        match self.tasks.get(task_id) {
            Ok(record) => Ok(
                TaskStatusResponse { task_info: Some(record.info), result: record.result },
            ),
            Err(e) => Err(e),
        }
    }

    /// Cancels a task at `now`.
    pub fn try_cancel_task(&mut self, task_id: &str, now: String) -> (result: McpResult<
        CancelAnswer,
    >)
        requires
            old(self).wf(),
        ensures
            final(self).wf(),
            final(self).errors@ == old(self).errors@,
            evolves(old(self).tasks@, final(self).tasks@),
            cancels(old(self).tasks@, task_id@, now@, result, final(self).tasks@),
    {
        let current = match self.tasks.get(task_id) {
            Ok(record) => record,
            Err(e) => {
                return Err(e);
            },
        };
        if current.info.status.is_terminal() {
            return Ok(
                CancelAnswer {
                    response: TaskStatusResponse { task_info: Some(current.info), result: None },
                    stop_worker: false,
                },
            );
        }
        let completed = later_of(now, last_time_of(&current.info));
        let info = TaskInfo {
            task_id: current.info.task_id,
            task_type: current.info.task_type,
            status: TaskStatus::Cancelled,
            created_at: current.info.created_at,
            started_at: current.info.started_at,
            completed_at: Some(completed),
            metadata: current.info.metadata,
        };
        let shown = info.duplicate();
        let next = TaskRecord { info, result: current.result };
        proof {
            let before = old(self).tasks@[task_id@];
            assert(next@ == cancelled_record(before, now@));
            if before.info.started_at is Some {
                lemma_lex_le_transitive(
                    before.info.created_at,
                    before.info.started_at->0,
                    next@.info.completed_at->0,
                );
            }
            assert(admits(before, next@));
        }
        match self.tasks.replace(task_id, next) {
            Err(e) => Err(e),
            Ok(_) => Ok(
                CancelAnswer {
                    response: TaskStatusResponse { task_info: Some(shown), result: None },
                    stop_worker: true,
                },
            ),
        }
    }

    /// What there is to stream of a task's output at the time `now_ms`.
    pub fn try_stream_task_output(&self, task_id: &str, now_ms: u64) -> (result: McpResult<
        StreamPoll,
    >)
        requires
            self.wf(),
        ensures
            streams(self.tasks@, task_id@, now_ms, result),
    {
        let record = match self.tasks.get(task_id) {
            Ok(record) => record,
            Err(e) => {
                return Err(e);
            },
        };
        let mut chunks: Vec<TaskOutputChunk> = Vec::new();
        if let Some(result) = &record.result {
            if !result.stdout.as_str().is_empty() {
                chunks.push(
                    TaskOutputChunk {
                        task_id: String::from_str(task_id),
                        chunk_type: OutputChunkType::ChunkStdout,
                        data: result.stdout.as_str().as_bytes_vec(),
                        timestamp_ms: now_ms,
                    },
                );
            }
            if !result.stderr.as_str().is_empty() {
                chunks.push(
                    TaskOutputChunk {
                        task_id: String::from_str(task_id),
                        chunk_type: OutputChunkType::ChunkStderr,
                        data: result.stderr.as_str().as_bytes_vec(),
                        timestamp_ms: now_ms,
                    },
                );
            }
        }
        proof {
            assert(poll_chunks(chunks@) =~= chunk_views(self.tasks@[task_id@]));
        }
        Ok(StreamPoll { chunks, finished: record.info.status.is_terminal() })
    }

    /// The health of the service at the time `now_ms`; with
    /// `include_stats` the status line also gives the uptime and the
    /// number of errors counted.
    pub fn health_report(&self, now_ms: u64, include_stats: bool) -> (response: HealthResponse)
        ensures
            reports_health(
                self.start_time_ms,
                now_ms,
                include_stats,
                crate::gateway::error::total_count(self.errors@),
                response,
            ),
    {
        let uptime: u64 = if now_ms >= self.start_time_ms {
            (now_ms - self.start_time_ms) / 1000
        } else {
            0
        };
        let status = if include_stats {
            let total = self.errors.total_errors();
            String::from_str("ok [uptime=").concat(decimal_string(uptime).as_str()).concat(
                "s, errors=",
            ).concat(decimal_string(total).as_str()).concat("]")
        } else {
            String::from_str("ok")
        };
        HealthResponse { status, version: String::from_str(VERSION), uptime_seconds: uptime }
    }

    /// Health check, at the time the clock shows. Never fails.
    pub fn health(&mut self, include_stats: bool) -> (answer: Result<
        Response<HealthResponse>,
        Status,
    >)
        ensures
            answer is Ok,
            exists|now_ms: u64| #[trigger]
                reports_health(
                    old(self).start_time_ms,
                    now_ms,
                    include_stats,
                    crate::gateway::error::total_count(old(self).errors@),
                    answer->Ok_0.message,
                ),
            final(self).tasks@ == old(self).tasks@,
            final(self).errors@ == old(self).errors@,
            final(self).start_time_ms == old(self).start_time_ms,
            final(self).wf() == old(self).wf(),
    {
        let now_ms = current_timestamp_ms();
        let response = self.health_report(now_ms, include_stats);
        let answer = self.errors.handle(Ok(response));
        proof {
            assert(reports_health(
                old(self).start_time_ms,
                now_ms,
                include_stats,
                crate::gateway::error::total_count(old(self).errors@),
                answer->Ok_0.message,
            ));
        }
        answer
    }

    /// Command execution: looks at the request, checks the command
    /// against the policy, registers the task under the id made of
    /// `entropy`, 16 random bytes, and hands out the job for the worker. An
    /// error is counted and sent as its status; for a denial the payload
    /// carries the details of the denial.
    pub fn execute_command(
        &mut self,
        req: &CommandRequest,
        caller: UserInfo,
        entropy: &[u8; 16],
    ) -> (answer: Result<Response<TaskAccepted>, Status>)
        requires
            old(self).wf(),
        ensures
            final(self).wf(),
            evolves(old(self).tasks@, final(self).tasks@),
            is_task_id(task_id_of(entropy@)),
            exists|now: Seq<char>, result: Result<TaskAccepted, Rejection>|
                #![trigger registers(old(self).policy_engine.evaluator.outcome(policy_view(req@, caller@)), old(self).tasks@, req@, caller@, task_id_of(entropy@), now, result, final(self).tasks@)]
                {
                    &&& is_timestamp(now)
                    &&& registers(
                        old(self).policy_engine.evaluator.outcome(policy_view(req@, caller@)),
                        old(self).tasks@,
                        req@,
                        caller@,
                        task_id_of(entropy@),
                        now,
                        result,
                        final(self).tasks@,
                    )
                    &&& answers(answer, result, old(self).errors@, final(self).errors@)
                },
    {
        let result = self.try_execute_command(req, caller, entropy);
        let ghost given = result;
        let answer = match result {
            Ok(accepted) => self.errors.handle(Ok(accepted)),
            Err(rejection) => self.errors.handle_with_details(
                Err(rejection.error),
                rejection.details,
            ),
        };
        proof {
            let now = choose|now: Seq<char>|
                is_timestamp(now) && #[trigger] registers(
                    old(self).policy_engine.evaluator.outcome(policy_view(req@, caller@)),
                    old(self).tasks@,
                    req@,
                    caller@,
                    task_id_of(entropy@),
                    now,
                    given,
                    self.tasks@,
                );
            assert(registers(
                old(self).policy_engine.evaluator.outcome(policy_view(req@, caller@)),
                old(self).tasks@,
                req@,
                caller@,
                task_id_of(entropy@),
                now,
                given,
                self.tasks@,
            ));
        }
        answer
    }

    /// Task status retrieval. An unknown id is sent as `NotFound`.
    pub fn get_task_status(&mut self, task_id: &str) -> (answer: Result<
        Response<TaskStatusResponse>,
        Status,
    >)
        requires
            old(self).wf(),
        ensures
            final(self).wf(),
            final(self).tasks@ == old(self).tasks@,
            exists|result: McpResult<TaskStatusResponse>| #[trigger]
                handled(answer, result, old(self).errors@, final(self).errors@) && shows(
                    old(self).tasks@,
                    task_id@,
                    result,
                ),
            !old(self).tasks@.contains_key(task_id@) ==> answer is Err && answer->Err_0.code
                == crate::common::grpc::Code::NotFound,
            old(self).tasks@.contains_key(task_id@) ==> answer is Ok,
    {
        let result = self.try_get_task_status(task_id);
        let ghost given = result;
        let answer = self.errors.handle(result);
        proof {
            assert(handled(answer, given, old(self).errors@, self.errors@));
        }
        answer
    }

    /// Task output streaming: what there is to stream at the time the
    /// clock shows. An unknown id is sent as `NotFound`.
    pub fn stream_task_output(&mut self, task_id: &str) -> (answer: Result<
        Response<StreamPoll>,
        Status,
    >)
        requires
            old(self).wf(),
        ensures
            final(self).wf(),
            final(self).tasks@ == old(self).tasks@,
            exists|now_ms: u64, result: McpResult<StreamPoll>|
                #![trigger streams(old(self).tasks@, task_id@, now_ms, result)]
                handled(answer, result, old(self).errors@, final(self).errors@) && streams(
                    old(self).tasks@,
                    task_id@,
                    now_ms,
                    result,
                ),
            !old(self).tasks@.contains_key(task_id@) ==> answer is Err && answer->Err_0.code
                == crate::common::grpc::Code::NotFound,
            old(self).tasks@.contains_key(task_id@) ==> answer is Ok,
    {
        let now_ms = current_timestamp_ms();
        let result = self.try_stream_task_output(task_id, now_ms);
        let ghost given = result;
        let answer = self.errors.handle(result);
        proof {
            assert(streams(old(self).tasks@, task_id@, now_ms, given));
            assert(handled(answer, given, old(self).errors@, self.errors@));
        }
        answer
    }

    /// Task cancellation, at the time the clock shows. An unknown id is
    /// sent as `NotFound`; a task that has ended is left as it is and
    /// answered without an error.
    pub fn cancel_task(&mut self, task_id: &str) -> (answer: Result<Response<CancelAnswer>, Status>)
        requires
            old(self).wf(),
        ensures
            final(self).wf(),
            evolves(old(self).tasks@, final(self).tasks@),
            exists|now: Seq<char>, result: McpResult<CancelAnswer>|
                #![trigger cancels(old(self).tasks@, task_id@, now, result, final(self).tasks@)]
                is_timestamp(now) && handled(
                    answer,
                    result,
                    old(self).errors@,
                    final(self).errors@,
                ) && cancels(
                    old(self).tasks@,
                    task_id@,
                    now,
                    result,
                    final(self).tasks@,
                ),
            !old(self).tasks@.contains_key(task_id@) ==> answer is Err && answer->Err_0.code
                == crate::common::grpc::Code::NotFound,
            old(self).tasks@.contains_key(task_id@) ==> answer is Ok,
            old(self).tasks@.contains_key(task_id@) && old(
                self,
            ).tasks@[task_id@].info.status.spec_is_terminal() ==> final(self).tasks@ == old(
                self,
            ).tasks@ && final(self).errors@ == old(self).errors@,
    {
        let now = current_iso8601();
        let ghost at = now@;
        let result = self.try_cancel_task(task_id, now);
        let ghost given = result;
        let answer = self.errors.handle(result);
        proof {
            assert(cancels(old(self).tasks@, task_id@, at, given, self.tasks@));
            assert(handled(answer, given, old(self).errors@, self.errors@));
        }
        answer
    }

    /// File read. Reserved: always an internal error.
    pub fn read_file(&mut self, path: &str) -> (answer: Result<Response<ReadFileResponse>, Status>)
        ensures
            answer is Err,
            crate::gateway::error::sent_as(
                answer->Err_0,
                ErrorKind::Internal,
                "ファイル読み取り機能は未実装です"@,
                None,
            ),
            final(self).errors@ == crate::gateway::error::counted(
                old(self).errors@,
                ErrorKind::Internal,
                crate::common::error::code_for(
                    ErrorKind::Internal,
                    "ファイル読み取り機能は未実装です"@,
                ),
            ),
            final(self).tasks@ == old(self).tasks@,
            final(self).wf() == old(self).wf(),
    {
        let result: McpResult<ReadFileResponse> = Err(
            McpError::Internal(String::from_str("ファイル読み取り機能は未実装です")),
        );
        self.errors.handle(result)
    }

    /// File write. Reserved: always an internal error.
    pub fn write_file(
        &mut self,
        path: &str,
        content: &Vec<u8>,
        mode: u32,
        create_dirs: bool,
    ) -> (answer: Result<Response<WriteFileResponse>, Status>)
        ensures
            answer is Err,
            crate::gateway::error::sent_as(
                answer->Err_0,
                ErrorKind::Internal,
                "ファイル書き込み機能は未実装です"@,
                None,
            ),
            final(self).errors@ == crate::gateway::error::counted(
                old(self).errors@,
                ErrorKind::Internal,
                crate::common::error::code_for(
                    ErrorKind::Internal,
                    "ファイル書き込み機能は未実装です"@,
                ),
            ),
            final(self).tasks@ == old(self).tasks@,
            final(self).wf() == old(self).wf(),
    {
        let result: McpResult<WriteFileResponse> = Err(
            McpError::Internal(String::from_str("ファイル書き込み機能は未実装です")),
        );
        self.errors.handle(result)
    }

    /// File delete. Reserved: always an internal error.
    pub fn delete_file(&mut self, path: &str, recursive: bool) -> (answer: Result<
        Response<DeleteFileResponse>,
        Status,
    >)
        ensures
            answer is Err,
            crate::gateway::error::sent_as(
                answer->Err_0,
                ErrorKind::Internal,
                "ファイル削除機能は未実装です"@,
                None,
            ),
            final(self).errors@ == crate::gateway::error::counted(
                old(self).errors@,
                ErrorKind::Internal,
                crate::common::error::code_for(
                    ErrorKind::Internal,
                    "ファイル削除機能は未実装です"@,
                ),
            ),
            final(self).tasks@ == old(self).tasks@,
            final(self).wf() == old(self).wf(),
    {
        let result: McpResult<DeleteFileResponse> = Err(
            McpError::Internal(String::from_str("ファイル削除機能は未実装です")),
        );
        self.errors.handle(result)
    }
}

} // verus!
