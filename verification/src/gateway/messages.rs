//! Messages of the request service and the records it keeps.

use crate::common::models::{ResourceUsage, TaskInfo, TaskInfoView, TaskStatus};
use vstd::prelude::*;

verus! {

/// Result payload of a task that has run.
#[derive(Debug, Clone)]
pub struct TaskResult {
    /// Exit code; -1 where the command gave none.
    pub exit_code: i32,
    /// Captured standard output.
    pub stdout: String,
    /// Captured standard error.
    pub stderr: String,
    /// Resource usage, where it was measured.
    pub resource_usage: Option<ResourceUsage>,
    /// Wall-clock duration (milliseconds).
    pub execution_time_ms: u64,
}

/// What a result payload says.
pub struct TaskResultView {
    pub exit_code: i32,
    pub stdout: Seq<char>,
    pub stderr: Seq<char>,
    pub resource_usage: Option<ResourceUsage>,
    pub execution_time_ms: u64,
}

impl View for TaskResult {
    type V = TaskResultView;

    open spec fn view(&self) -> TaskResultView {
        TaskResultView {
            exit_code: self.exit_code,
            stdout: self.stdout@,
            stderr: self.stderr@,
            resource_usage: self.resource_usage,
            execution_time_ms: self.execution_time_ms,
        }
    }
}

/// One task as the store keeps it.
#[derive(Debug, Clone)]
pub struct TaskRecord {
    pub info: TaskInfo,
    pub result: Option<TaskResult>,
}

/// What a task record says.
pub struct TaskRecordView {
    pub info: TaskInfoView,
    pub result: Option<TaskResultView>,
}

/// What an optional result payload says.
pub open spec fn result_view(result: Option<TaskResult>) -> Option<TaskResultView> {
    match result {
        Some(r) => Some(r@),
        None => None,
    }
}

impl View for TaskRecord {
    type V = TaskRecordView;

    open spec fn view(&self) -> TaskRecordView {
        TaskRecordView { info: self.info@, result: result_view(self.result) }
    }
}

impl TaskResult {
    /// A copy of the payload.
    pub fn duplicate(&self) -> (copy: TaskResult)
        ensures
            copy@ == self@,
    {
        TaskResult {
            exit_code: self.exit_code,
            stdout: self.stdout.clone(),
            stderr: self.stderr.clone(),
            resource_usage: self.resource_usage,
            execution_time_ms: self.execution_time_ms,
        }
    }
}

impl TaskRecord {
    /// A copy of the record.
    pub fn duplicate(&self) -> (copy: TaskRecord)
        ensures
            copy@ == self@,
    {
        let result = match &self.result {
            Some(r) => Some(r.duplicate()),
            None => None,
        };
        TaskRecord { info: self.info.duplicate(), result }
    }
}

/// Answer to a request that created a task.
#[derive(Debug, Clone)]
pub struct TaskCreatedResponse {
    pub task_id: String,
    pub status: TaskStatus,
    pub created_at: String,
}

/// Answer to a request for the state of a task.
#[derive(Debug, Clone)]
pub struct TaskStatusResponse {
    pub task_info: Option<TaskInfo>,
    pub result: Option<TaskResult>,
}

/// The stream that a chunk of output comes from.
#[derive(Debug, Clone, Copy, PartialEq, Eq, Structural)]
pub enum OutputChunkType {
    ChunkStdout,
    ChunkStderr,
}

/// One chunk of the output of a task.
#[derive(Debug, Clone)]
pub struct TaskOutputChunk {
    pub task_id: String,
    pub chunk_type: OutputChunkType,
    pub data: Vec<u8>,
    pub timestamp_ms: u64,
}

} // verus!
