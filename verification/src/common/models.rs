//! Data model shared between the request service and its clients.

use std::collections::HashMap;
use vstd::prelude::*;

verus! {

/// Task status.
#[derive(Debug, Clone, Copy, PartialEq, Eq, Structural)]
pub enum TaskStatus {
    /// Task has been created but not yet executed.
    Created,
    /// Task is in the execution queue.
    Queued,
    /// Task is currently running.
    Running,
    /// Task completed successfully.
    Completed,
    /// Task failed.
    Failed,
    /// Task was cancelled.
    Cancelled,
    /// Task execution time exceeded the limit.
    TimedOut,
}

/// Task type.
#[derive(Debug, Clone, Copy, PartialEq, Eq, Structural)]
pub enum TaskType {
    /// Command execution task.
    Command,
    /// File read task.
    FileRead,
    /// File write task.
    FileWrite,
    /// File delete task.
    FileDelete,
}

impl TaskStatus {
    /// How far along its life a task with this status is: 0 when created,
    /// 1 when queued, 2 when running and 3 once it has ended.
    pub open spec fn spec_rank(&self) -> u8 {
        match self {
            TaskStatus::Created => 0,
            TaskStatus::Queued => 1,
            TaskStatus::Running => 2,
            TaskStatus::Completed => 3,
            TaskStatus::Failed => 3,
            TaskStatus::Cancelled => 3,
            TaskStatus::TimedOut => 3,
        }
    }

    /// No further transition leaves this status.
    pub open spec fn spec_is_terminal(&self) -> bool {
        self.spec_rank() == 3
    }

    /// A task may go from `self` to `next`: only forward, and never out of
    /// a terminal status.
    pub open spec fn spec_can_become(&self, next: TaskStatus) -> bool {
        self.spec_rank() < next.spec_rank()
    }

    /// How far along its life a task with this status is.
    #[verifier::when_used_as_spec(spec_rank)]
    pub fn rank(&self) -> (r: u8)
        ensures
            r == self.spec_rank(),
    {
        match self {
            TaskStatus::Created => 0,
            TaskStatus::Queued => 1,
            TaskStatus::Running => 2,
            TaskStatus::Completed => 3,
            TaskStatus::Failed => 3,
            TaskStatus::Cancelled => 3,
            TaskStatus::TimedOut => 3,
        }
    }

    /// Whether the status is one of Completed, Failed, Cancelled, TimedOut.
    #[verifier::when_used_as_spec(spec_is_terminal)]
    pub fn is_terminal(&self) -> (t: bool)
        ensures
            t == self.spec_is_terminal(),
    {
        self.rank() == 3
    }

    /// Whether a task may go from `self` to `next`.
    #[verifier::when_used_as_spec(spec_can_become)]
    pub fn can_become(&self, next: TaskStatus) -> (ok: bool)
        ensures
            ok == self.spec_can_become(next),
    {
        self.rank() < next.rank()
    }
}

/// The status relation is a strict order: nothing follows itself, and what
/// follows a follower follows the first. So no sequence of transitions ever
/// returns to a status it has left, and none leaves a terminal status.
pub proof fn lemma_status_order(a: TaskStatus, b: TaskStatus, c: TaskStatus)
    ensures
        !a.spec_can_become(a),
        a.spec_can_become(b) && b.spec_can_become(c) ==> a.spec_can_become(c),
        a.spec_can_become(b) ==> !b.spec_can_become(a),
        a.spec_is_terminal() ==> !a.spec_can_become(b),
{
}

/// Basic task information.
#[derive(Debug, Clone)]
pub struct TaskInfo {
    /// Unique task ID.
    pub task_id: String,
    /// Task type.
    pub task_type: TaskType,
    /// Current task status.
    pub status: TaskStatus,
    /// Task creation date (ISO 8601 format).
    pub created_at: String,
    /// Task start date (ISO 8601 format).
    pub started_at: Option<String>,
    /// Task completion date (ISO 8601 format).
    pub completed_at: Option<String>,
    /// Task metadata.
    pub metadata: HashMap<String, String>,
}

/// What a task record says: the mathematical value of a `TaskInfo`.
pub struct TaskInfoView {
    pub task_id: Seq<char>,
    pub task_type: TaskType,
    pub status: TaskStatus,
    pub created_at: Seq<char>,
    pub started_at: Option<Seq<char>>,
    pub completed_at: Option<Seq<char>>,
    pub metadata: Map<String, String>,
}

/// The characters of an optional string.
pub open spec fn option_view(text: Option<String>) -> Option<Seq<char>> {
    match text {
        Some(t) => Some(t@),
        None => None,
    }
}

impl View for TaskInfo {
    type V = TaskInfoView;

    open spec fn view(&self) -> TaskInfoView {
        TaskInfoView {
            task_id: self.task_id@,
            task_type: self.task_type,
            status: self.status,
            created_at: self.created_at@,
            started_at: option_view(self.started_at),
            completed_at: option_view(self.completed_at),
            metadata: self.metadata@,
        }
    }
}

/// A copy of an optional string.
pub fn copy_option(text: &Option<String>) -> (copy: Option<String>)
    ensures
        option_view(copy) == option_view(*text),
        copy == *text,
{
    match text {
        Some(t) => Some(t.clone()),
        None => None,
    }
}

impl TaskInfo {
    /// A copy of the record.
    pub fn duplicate(&self) -> (copy: TaskInfo)
        ensures
            copy@ == self@,
    {
        TaskInfo {
            task_id: self.task_id.clone(),
            task_type: self.task_type,
            status: self.status,
            created_at: self.created_at.clone(),
            started_at: copy_option(&self.started_at),
            completed_at: copy_option(&self.completed_at),
            metadata: self.metadata.clone(),
        }
    }
}

/// Command execution task request.
#[derive(Debug, Clone)]
pub struct CommandRequest {
    /// Command to execute.
    pub command: String,
    /// Command arguments.
    pub args: Vec<String>,
    /// Environment variables.
    pub env: HashMap<String, String>,
    /// Working directory.
    pub cwd: Option<String>,
    /// Timeout (seconds).
    pub timeout: u32,
    /// Task metadata.
    pub metadata: HashMap<String, String>,
}

/// What a command request says.
pub struct CommandRequestView {
    pub command: Seq<char>,
    pub args: Seq<Seq<char>>,
    pub env: Map<String, String>,
    pub cwd: Option<Seq<char>>,
    pub timeout: u32,
    pub metadata: Map<String, String>,
}

impl View for CommandRequest {
    type V = CommandRequestView;

    open spec fn view(&self) -> CommandRequestView {
        CommandRequestView {
            command: self.command@,
            args: crate::common::text::views(self.args@),
            env: self.env@,
            cwd: option_view(self.cwd),
            timeout: self.timeout,
            metadata: self.metadata@,
        }
    }
}

/// Command execution task result.
#[derive(Debug, Clone)]
pub struct CommandResult {
    /// Basic task information.
    pub task_info: TaskInfo,
    /// Exit code.
    pub exit_code: Option<i32>,
    /// Standard output.
    pub stdout: Option<String>,
    /// Standard error output.
    pub stderr: Option<String>,
    /// Resource usage.
    pub resource_usage: Option<ResourceUsage>,
}

/// Resource usage information.
#[derive(Debug, Clone, Copy, PartialEq, Eq, Structural)]
pub struct ResourceUsage {
    /// CPU usage time (milliseconds).
    pub cpu_time_ms: u64,
    /// Maximum memory usage (kilobytes).
    pub max_memory_kb: u64,
    /// Number of bytes read.
    pub io_read_bytes: u64,
    /// Number of bytes written.
    pub io_write_bytes: u64,
}

/// Health check response.
#[derive(Debug, Clone)]
pub struct HealthResponse {
    /// Service status.
    pub status: String,
    /// Version information.
    pub version: String,
    /// Uptime (seconds).
    pub uptime_seconds: u64,
}

/// Default timeout value (30 seconds).
pub fn default_timeout() -> (t: u32)
    ensures
        t == 30,
{
    30
}

} // verus!
