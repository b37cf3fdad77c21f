use mcp_security_gateway::common::error::{ErrorKind, McpError};
use mcp_security_gateway::common::grpc::{Code, ERROR_DETAILS_KEY};
use mcp_security_gateway::common::models::{
    CommandRequest, TaskInfo, TaskStatus, TaskType,
};
use mcp_security_gateway::common::utils::{current_timestamp_ms, generate_task_id};
use uuid::Uuid;
use mcp_security_gateway::gateway::error::{ErrorHandler, IntoResponse, LogLevel};
use mcp_security_gateway::gateway::messages::{OutputChunkType, TaskRecord, TaskResult};
use mcp_security_gateway::gateway::new_service;
use mcp_security_gateway::gateway::service::{
    failure_label, McpServiceImpl, OUTPUT_CHANNEL_CAPACITY, VERSION,
};
use mcp_security_gateway::gateway::store::TaskStore;
use mcp_security_gateway::policy::engine::{PolicyEngine, StubPolicyEvaluator};
use mcp_security_gateway::policy::models::UserInfo;
use mcp_security_gateway::sandbox::executor::CommandExecutor;
use mcp_security_gateway::sandbox::models::{ExecutionResult, ResourceUsage};
use mcp_security_gateway::sandbox::runner::{RunOutcome, SandboxRunner};
use std::collections::HashMap;

const AUTH_ERROR: &str = "Authentication error";

fn create_service() -> McpServiceImpl<StubPolicyEvaluator> {
    let policy_engine = PolicyEngine::new();
    let command_executor = CommandExecutor::new();
    McpServiceImpl::new(policy_engine, command_executor, current_timestamp_ms())
}

fn entropy() -> [u8; 16] {
    *Uuid::new_v4().as_bytes()
}

fn caller() -> UserInfo {
    UserInfo {
        id: "user1".to_string(),
        tenant_id: "tenant1".to_string(),
        roles: vec!["user".to_string()],
        attributes: HashMap::new(),
    }
}

fn command(name: &str, args: &[&str], timeout: u32) -> CommandRequest {
    CommandRequest {
        command: name.to_string(),
        args: args.iter().map(|a| a.to_string()).collect(),
        env: HashMap::new(),
        cwd: None,
        timeout,
        metadata: HashMap::new(),
    }
}

fn created(id: &str, at: &str) -> TaskRecord {
    TaskRecord {
        info: TaskInfo {
            task_id: id.to_string(),
            task_type: TaskType::Command,
            status: TaskStatus::Created,
            created_at: at.to_string(),
            started_at: None,
            completed_at: None,
            metadata: HashMap::new(),
        },
        result: None,
    }
}

fn some_result() -> TaskResult {
    TaskResult {
        exit_code: 0,
        stdout: "out".to_string(),
        stderr: String::new(),
        resource_usage: None,
        execution_time_ms: 5,
    }
}

const T0: &str = "2024-05-01T10:00:00+00:00";
const T1: &str = "2024-05-01T10:00:01+00:00";
const T2: &str = "2024-05-01T10:00:02+00:00";

#[test]
fn test_error_handling() {
    let mut handler = ErrorHandler::new();
    let result: Result<i32, McpError> = Ok(42);
    let response = handler.handle(result).unwrap();
    assert_eq!(response.get_ref(), &42);

    let result: Result<i32, McpError> = Err(McpError::InvalidRequest("Test error".to_string()));
    let err = handler.handle(result).unwrap_err();
    assert_eq!(err.code(), Code::InvalidArgument);
}

#[test]
fn test_into_response() {
    let mut handler = ErrorHandler::new();
    let result: Result<i32, McpError> = Ok(42);
    let response = result.into_response(&mut handler).unwrap();
    assert_eq!(response.get_ref(), &42);

    let result: Result<i32, McpError> = Err(McpError::Auth(AUTH_ERROR.to_string()));
    let err = result.into_response(&mut handler).unwrap_err();
    assert_eq!(err.code(), Code::Unauthenticated);
}

#[test]
fn test_error_counters() {
    println!("Test start: error_counters");

    let mut handler = ErrorHandler::new();

    let auth_error = McpError::Auth(AUTH_ERROR.to_string());
    let error_code_key = format!("error_code_{}", auth_error.code());
    let _ = handler.handle(Err::<(), _>(auth_error));

    let stats = handler.get_error_stats();

    if !stats.contains_key("auth") || !stats.contains_key(&error_code_key) {
        println!(
            "Counter presence check failed: auth={}, code={}",
            stats.contains_key("auth"),
            stats.contains_key(&error_code_key)
        );
        panic!("Required counters not found");
    }

    let auth_count = *stats.get("auth").unwrap();
    let code_count = *stats.get(&error_code_key).unwrap();

    if auth_count == 0 || code_count == 0 {
        println!("Count value check failed: auth={}, code={}", auth_count, code_count);
        panic!("Count values are zero");
    }

    if auth_count != code_count {
        println!("Count value mismatch: auth={}, code={}", auth_count, code_count);
        panic!("Counter values don't match");
    }

    let direct_count = handler.get_error_count("auth");
    if direct_count != auth_count {
        println!("Direct count mismatch: direct={}, auth={}", direct_count, auth_count);
        panic!("get_error_count result doesn't match");
    }

    println!("Test end: error_counters");
}

#[test]
fn test_handle_with_details() {
    let mut handler = ErrorHandler::new();
    let mut object = serde_json::Map::new();
    object.insert("field".to_string(), serde_json::Value::String("username".to_string()));
    object.insert("reason".to_string(), serde_json::Value::String("too_short".to_string()));
    let details = serde_json::Value::Object(object);

    let result: Result<i32, McpError> = Err(McpError::InvalidRequest("Input error".to_string()));
    let err = handler.handle_with_details(result, Some(details.clone())).unwrap_err();

    assert!(err.metadata_contains_key("error-details"));
}

#[test]
fn test_new_service() {
    let _service = new_service(current_timestamp_ms());
    assert!(true);
}

#[test]
fn test_health() {
    let mut service = create_service();
    let result = service.health(false);
    assert!(result.is_ok());

    let health = result.unwrap().into_inner();
    assert_eq!(health.status, "ok");
    assert!(!health.version.is_empty());
    assert!(health.uptime_seconds > 0 || health.uptime_seconds == 0);
}

#[test]
fn test_execute_command() {
    let mut service = create_service();
    let request = command("echo", &["hello"], 10);
    let result = service.execute_command(&request, caller(), &entropy());
    if result.is_ok() {
        let accepted = result.unwrap().into_inner();
        assert!(!accepted.response.task_id.is_empty());
        assert!(!accepted.response.created_at.is_empty());
    } else {
        let error = result.unwrap_err();
        assert!(
            error.code() == Code::PermissionDenied
                || error.code() == Code::InvalidArgument
                || error.code() == Code::Internal
        );
    }
}

#[test]
fn test_get_nonexistent_task_status() {
    let mut service = create_service();
    let nonexistent_task_id = format!("task-{}", Uuid::new_v4().simple());
    let result = service.get_task_status(&nonexistent_task_id);
    assert!(result.is_err());
    let error = result.unwrap_err();
    assert_eq!(error.code(), Code::NotFound);
}

#[test]
fn test_stream_task_output() {
    let mut service = create_service();
    let nonexistent_task_id = format!("task-{}", Uuid::new_v4().simple());
    let result = service.stream_task_output(&nonexistent_task_id);
    assert!(result.is_err());
    let error = result.unwrap_err();
    assert_eq!(error.code(), Code::NotFound);
}

#[test]
fn test_cancel_nonexistent_task() {
    let mut service = create_service();
    let nonexistent_task_id = format!("task-{}", Uuid::new_v4().simple());
    let result = service.cancel_task(&nonexistent_task_id);
    assert!(result.is_err());
    let error = result.unwrap_err();
    assert_eq!(error.code(), Code::NotFound);
}

#[test]
fn test_read_file() {
    let mut service = create_service();
    let result = service.read_file("/test/file.txt");
    assert!(result.is_err());
    let error = result.unwrap_err();
    assert_eq!(error.code(), Code::Internal);
}

#[test]
fn test_write_file() {
    let mut service = create_service();
    let result = service.write_file("/test/file.txt", &b"test content".to_vec(), 0o644, false);
    assert!(result.is_err());
    let error = result.unwrap_err();
    assert_eq!(error.code(), Code::Internal);
}

#[test]
fn test_delete_file() {
    let mut service = create_service();
    let result = service.delete_file("/test/file.txt", false);
    assert!(result.is_err());
    let error = result.unwrap_err();
    assert_eq!(error.code(), Code::Internal);
}

#[test]
fn test_execute_and_get_task_status() {
    let mut service = create_service();
    let request = command("echo", &["hello"], 10);
    let command_result = service.execute_command(&request, caller(), &entropy());
    if command_result.is_ok() {
        let accepted = command_result.unwrap().into_inner();
        let task_id = accepted.response.task_id;

        let status_result = service.get_task_status(&task_id);
        assert!(status_result.is_ok());

        let stream_result = service.stream_task_output(&task_id);
        assert!(stream_result.is_ok());
        let poll = stream_result.unwrap().into_inner();
        for chunk in &poll.chunks {
            assert_eq!(chunk.task_id, task_id);
        }

        let cancel_result = service.cancel_task(&task_id);
        assert!(cancel_result.is_ok());
    }
}

#[test]
fn an_allowed_command_runs_to_completion() {
    let mut service = create_service();
    let accepted = service
        .register_command(&command("echo", &["hello"], 10), caller(), "task-1".to_string(),
            T0.to_string())
        .unwrap();
    assert_eq!(accepted.response.task_id, "task-1");
    assert_eq!(accepted.response.status, TaskStatus::Created);
    assert_eq!(accepted.response.created_at, T0);
    assert_eq!(accepted.job.task_id, "task-1");
    assert_eq!(accepted.job.command, "echo");
    assert_eq!(accepted.job.args, vec!["hello".to_string()]);
    assert_eq!(accepted.job.timeout, Some(10));
    assert_eq!(accepted.job.cwd, None);

    let shown = service.try_get_task_status("task-1").unwrap();
    let info = shown.task_info.unwrap();
    assert_eq!(info.status, TaskStatus::Created);
    assert_eq!(info.task_type, TaskType::Command);
    assert_eq!(info.created_at, T0);
    assert_eq!(info.started_at, None);
    assert_eq!(info.completed_at, None);
    assert!(shown.result.is_none());

    assert_eq!(service.begin_task("task-1", T1.to_string()).unwrap(), true);
    let info = service.try_get_task_status("task-1").unwrap().task_info.unwrap();
    assert_eq!(info.status, TaskStatus::Running);
    assert_eq!(info.started_at, Some(T1.to_string()));
    assert_eq!(info.completed_at, None);

    let outcome = SandboxRunner::finish(
        false,
        10,
        RunOutcome::Exited {
            code: Some(0),
            stdout: b"hello\n".to_vec(),
            stderr: Vec::new(),
            elapsed_ms: 3,
        },
    );
    assert_eq!(service.finish_task("task-1", &outcome, T2.to_string()).unwrap(), true);
    let shown = service.get_task_status("task-1").unwrap().into_inner();
    let info = shown.task_info.unwrap();
    assert_eq!(info.status, TaskStatus::Completed);
    assert_eq!(info.created_at, T0);
    assert_eq!(info.started_at, Some(T1.to_string()));
    assert_eq!(info.completed_at, Some(T2.to_string()));
    let result = shown.result.unwrap();
    assert_eq!(result.exit_code, 0);
    assert_eq!(result.stdout, "hello\n");
    assert_eq!(result.stderr, "");
    assert_eq!(result.execution_time_ms, 3);
    let usage = result.resource_usage.unwrap();
    assert_eq!(usage.cpu_time_ms, 3);
    assert_eq!(usage.max_memory_kb, 0);
    assert!(info.completed_at.as_ref().unwrap() >= info.started_at.as_ref().unwrap());
    assert!(info.started_at.as_ref().unwrap() >= &info.created_at);

    // nothing moves a task that has ended
    assert_eq!(service.begin_task("task-1", T2.to_string()).unwrap(), false);
    assert_eq!(service.finish_task("task-1", &outcome, T2.to_string()).unwrap(), false);
    let answer = service.try_cancel_task("task-1", T2.to_string()).unwrap();
    assert!(!answer.stop_worker);
    assert_eq!(answer.response.task_info.unwrap().status, TaskStatus::Completed);
    assert_eq!(
        service.try_get_task_status("task-1").unwrap().task_info.unwrap().status,
        TaskStatus::Completed
    );
}

#[test]
fn a_dangerous_command_is_denied_and_counted() {
    let mut service = create_service();
    let error = service
        .execute_command(&command("rm", &["-rf", "/"], 10), caller(), &entropy())
        .unwrap_err();
    assert_eq!(error.code(), Code::PermissionDenied);
    assert_eq!(
        error.message(),
        "Policy violation: Command 'rm' execution was denied by policy: \
         Command 'rm' is forbidden as it is dangerous"
    );
    let payload = error.payload.as_ref().unwrap();
    assert_eq!(payload.error.code, 3001);
    assert_eq!(payload.error.message, error.message());
    let json = error.metadata_get(ERROR_DETAILS_KEY).unwrap();
    let parsed: serde_json::Value = serde_json::from_str(json).unwrap();
    assert_eq!(parsed["error"]["code"], serde_json::Value::from(3001u64));
    assert_eq!(
        parsed["error"]["message"],
        serde_json::Value::String(error.message().to_string())
    );
    assert_eq!(service.errors.get_error_count("policy_violation"), 1);
    assert_eq!(service.errors.get_error_count("error_code_3001"), 1);
    assert_eq!(service.errors.total_errors(), 2);

    let details = payload.error.details.as_ref().unwrap();
    assert_eq!(details["command"], serde_json::Value::String("rm".to_string()));
    assert_eq!(
        details["reasons"],
        serde_json::Value::Array(vec![serde_json::Value::String(
            "Command 'rm' is forbidden as it is dangerous".to_string()
        )])
    );
    assert_eq!(details["user_id"], serde_json::Value::String("user1".to_string()));
    assert_eq!(details["tenant_id"], serde_json::Value::String("tenant1".to_string()));
    assert_eq!(&parsed["error"]["details"], details);

    let rejection = service
        .register_command(&command("rm", &[], 10), caller(), "task-x".to_string(), T0.to_string())
        .unwrap_err();
    assert_eq!(rejection.error.kind(), ErrorKind::PolicyViolation);
    assert_eq!(rejection.error.code(), 3001);
    assert_eq!(rejection.details.as_ref(), Some(details));
    assert!(!service.tasks.contains("task-x"));
}

#[test]
fn an_administrator_may_run_what_is_not_listed() {
    let mut service = create_service();
    let mut admin = caller();
    admin.roles.push("admin".to_string());
    assert!(service
        .register_command(&command("make", &[], 5), admin, "task-a".to_string(), T0.to_string())
        .is_ok());
    assert!(service
        .register_command(&command("make", &[], 5), caller(), "task-b".to_string(), T0.to_string())
        .is_err());
}

#[test]
fn an_empty_command_is_refused_before_the_policy_is_asked() {
    let mut service = create_service();
    let bytes = entropy();
    let status = service.execute_command(&command("", &[], 10), caller(), &bytes).unwrap_err();
    assert_eq!(status.code(), Code::InvalidArgument);
    assert_eq!(status.message(), "Invalid request: Command is not specified");
    let payload = status.payload.as_ref().unwrap();
    assert_eq!(payload.error.code, 2001);
    assert!(payload.error.details.is_none());
    assert!(!service.tasks.contains(&generate_task_id(&bytes)));
    assert_eq!(service.errors.get_error_count("invalid_request"), 1);
    assert_eq!(service.errors.get_error_count("policy_violation"), 0);

    // an administrator may not run an empty command either
    let mut admin = caller();
    admin.roles = vec!["admin".to_string()];
    let rejection = service
        .register_command(&command("", &["x"], 10), admin, "task-1".to_string(), T0.to_string())
        .unwrap_err();
    assert!(matches!(&rejection.error,
        McpError::InvalidRequest(m) if m == "Command is not specified"));
    assert!(rejection.details.is_none());
    assert!(!service.tasks.contains("task-1"));

    // the command is looked at before the timeout
    let rejection = service
        .register_command(&command("", &[], 0), caller(), "task-1".to_string(), T0.to_string())
        .unwrap_err();
    assert_eq!(rejection.error.text(), "Command is not specified");
}

#[test]
fn a_timeout_of_zero_is_refused_before_the_policy_is_asked() {
    let mut service = create_service();
    let bytes = entropy();
    let status =
        service.execute_command(&command("echo", &["hello"], 0), caller(), &bytes).unwrap_err();
    assert_eq!(status.code(), Code::InvalidArgument);
    assert_eq!(status.message(), "Invalid request: Timeout must be at least 1 second");
    assert!(!service.tasks.contains(&generate_task_id(&bytes)));

    // even for a command that the policy would deny
    let rejection = service
        .register_command(&command("rm", &[], 0), caller(), "task-1".to_string(), T0.to_string())
        .unwrap_err();
    assert_eq!(rejection.error.kind(), ErrorKind::InvalidRequest);
    assert!(rejection.details.is_none());
    assert!(!service.tasks.contains("task-1"));

    let accepted = service
        .register_command(&command("echo", &[], 1), caller(), "task-1".to_string(), T0.to_string())
        .unwrap();
    assert_eq!(accepted.job.timeout, Some(1));
    let accepted = service
        .register_command(
            &command("echo", &[], u32::MAX),
            caller(),
            "task-2".to_string(),
            T0.to_string(),
        )
        .unwrap();
    assert_eq!(accepted.job.timeout, Some(u32::MAX));
}

#[test]
fn an_accepted_command_is_answered_at_once() {
    let mut service = create_service();
    let bytes = entropy();
    let mut request = command("echo", &["hello"], 10);
    request.metadata.insert("origin".to_string(), "test".to_string());
    let accepted =
        service.execute_command(&request, caller(), &bytes).unwrap().into_inner();
    assert_eq!(accepted.response.status, TaskStatus::Created);
    assert_eq!(accepted.response.task_id, generate_task_id(&bytes));
    assert!(!accepted.response.task_id.is_empty());
    assert!(!accepted.response.created_at.is_empty());
    assert!(accepted.response.created_at.ends_with("+00:00"));
    let record = service.tasks.get(&accepted.response.task_id).unwrap();
    assert_eq!(record.info.task_type, TaskType::Command);
    assert_eq!(record.info.status, TaskStatus::Created);
    assert_eq!(record.info.created_at, accepted.response.created_at);
    assert_eq!(record.info.metadata, request.metadata);
    assert!(record.result.is_none());

    // the same bytes give the same id, which is taken by now
    let status = service.execute_command(&request, caller(), &bytes).unwrap_err();
    assert_eq!(status.code(), Code::Internal);
}

#[test]
fn a_command_that_cannot_be_started_fails_with_the_error_as_its_output() {
    let mut service = create_service();
    service
        .register_command(&command("ls", &[], 10), caller(), "task-1".to_string(), T0.to_string())
        .unwrap();
    assert!(service.begin_task("task-1", T1.to_string()).unwrap());
    let outcome =
        SandboxRunner::finish(false, 10, RunOutcome::SpawnFailed("No such file".to_string()));
    assert!(service.finish_task("task-1", &outcome, T2.to_string()).unwrap());
    let shown = service.try_get_task_status("task-1").unwrap();
    assert_eq!(shown.task_info.unwrap().status, TaskStatus::Failed);
    let result = shown.result.unwrap();
    assert_eq!(result.exit_code, -1);
    assert_eq!(result.stdout, "");
    assert_eq!(
        result.stderr,
        "Error: Execution error: Command execution failed: No such file"
    );
    assert!(result.resource_usage.is_none());
    assert_eq!(result.execution_time_ms, 0);
}

#[test]
fn a_command_that_runs_too_long_times_out() {
    let mut service = create_service();
    service
        .register_command(&command("sleep", &["10"], 1), caller(), "task-1".to_string(),
            T0.to_string())
        .unwrap_err();
    // `sleep` is not on the allowed list; an administrator may run it
    let mut admin = caller();
    admin.roles = vec!["admin".to_string()];
    service
        .register_command(&command("sleep", &["10"], 1), admin, "task-1".to_string(),
            T0.to_string())
        .unwrap();
    let mut seen = vec![
        service.try_get_task_status("task-1").unwrap().task_info.unwrap().status,
    ];
    assert!(service.begin_task("task-1", T1.to_string()).unwrap());
    seen.push(service.try_get_task_status("task-1").unwrap().task_info.unwrap().status);
    let outcome = SandboxRunner::finish(false, 1, RunOutcome::TimedOut);
    assert!(service.finish_task("task-1", &outcome, T2.to_string()).unwrap());
    let shown = service.try_get_task_status("task-1").unwrap();
    seen.push(shown.task_info.as_ref().unwrap().status);
    assert_eq!(seen, vec![TaskStatus::Created, TaskStatus::Running, TaskStatus::TimedOut]);
    let result = shown.result.unwrap();
    assert!(result.stderr.contains("timed out"));
    assert_eq!(
        result.stderr,
        "Error: Execution error: Command execution timed out: 1 seconds"
    );
    assert_eq!(result.exit_code, -1);
    assert_eq!(shown.task_info.unwrap().completed_at, Some(T2.to_string()));
}

#[test]
fn the_final_status_follows_the_outcome() {
    let cases: Vec<(Result<ExecutionResult, McpError>, TaskStatus)> = vec![
        (Err(McpError::Execution("Sandbox execution timed out: 5 seconds".into())),
            TaskStatus::TimedOut),
        (Err(McpError::Temporary("upstream timed out".into())), TaskStatus::TimedOut),
        (Err(McpError::Execution("Command execution failed: x".into())), TaskStatus::Failed),
        (Err(McpError::Internal("timed out".into())), TaskStatus::Failed),
        (Err(McpError::Sandbox("setup timed out".into())), TaskStatus::Failed),
        (Err(McpError::Execution("Timed Out".into())), TaskStatus::Failed),
        (
            Ok(ExecutionResult {
                exit_code: None,
                stdout: "o".into(),
                stderr: "timed out".into(),
                resource_usage: ResourceUsage::default(),
                execution_time_ms: 9,
            }),
            TaskStatus::Completed,
        ),
    ];
    for (i, (outcome, status)) in cases.into_iter().enumerate() {
        let mut service = create_service();
        let id = format!("task-{}", i);
        service
            .register_command(&command("ls", &[], 1), caller(), id.clone(), T0.to_string())
            .unwrap();
        assert!(service.begin_task(&id, T1.to_string()).unwrap());
        assert!(service.finish_task(&id, &outcome, T2.to_string()).unwrap());
        let shown = service.try_get_task_status(&id).unwrap();
        assert_eq!(shown.task_info.unwrap().status, status);
        let result = shown.result.unwrap();
        if outcome.is_ok() {
            assert_eq!(result.exit_code, -1);
            assert_eq!(result.stdout, "o");
            assert_eq!(result.execution_time_ms, 9);
        }
    }
    assert_eq!(failure_label(&McpError::Execution("x".into())), "command_failed");
    assert_eq!(failure_label(&McpError::Temporary("x".into())), "timeout");
    assert_eq!(failure_label(&McpError::Sandbox("x".into())), "sandbox_error");
    assert_eq!(failure_label(&McpError::Internal("x".into())), "other");
}

#[test]
fn cancelling_is_idempotent() {
    let mut service = create_service();
    service
        .register_command(&command("ls", &[], 1), caller(), "task-1".to_string(), T0.to_string())
        .unwrap();
    let answer = service.try_cancel_task("task-1", T1.to_string()).unwrap();
    assert!(answer.stop_worker);
    assert!(answer.response.result.is_none());
    let info = answer.response.task_info.unwrap();
    assert_eq!(info.status, TaskStatus::Cancelled);
    assert_eq!(info.started_at, None);
    assert_eq!(info.completed_at, Some(T1.to_string()));

    let again = service.try_cancel_task("task-1", T2.to_string()).unwrap();
    assert!(!again.stop_worker);
    let info = again.response.task_info.unwrap();
    assert_eq!(info.status, TaskStatus::Cancelled);
    assert_eq!(info.completed_at, Some(T1.to_string()));

    let before = service.errors.total_errors();
    let answer = service.cancel_task("task-1").unwrap().into_inner();
    assert!(!answer.stop_worker);
    assert_eq!(service.errors.total_errors(), before);

    // the worker of a cancelled task finds nothing to do, and its outcome is dropped
    assert_eq!(service.begin_task("task-1", T2.to_string()).unwrap(), false);
    let outcome = SandboxRunner::finish(
        false,
        1,
        RunOutcome::Exited { code: Some(0), stdout: vec![], stderr: vec![], elapsed_ms: 1 },
    );
    assert_eq!(service.finish_task("task-1", &outcome, T2.to_string()).unwrap(), false);
    let shown = service.try_get_task_status("task-1").unwrap();
    assert_eq!(shown.task_info.unwrap().status, TaskStatus::Cancelled);
    assert!(shown.result.is_none());
}

#[test]
fn cancelling_a_running_task_keeps_its_start() {
    let mut service = create_service();
    service
        .register_command(&command("ls", &[], 1), caller(), "task-1".to_string(), T0.to_string())
        .unwrap();
    service.begin_task("task-1", T1.to_string()).unwrap();
    let answer = service.try_cancel_task("task-1", T2.to_string()).unwrap();
    assert!(answer.stop_worker);
    let info = answer.response.task_info.unwrap();
    assert_eq!(info.status, TaskStatus::Cancelled);
    assert_eq!(info.started_at, Some(T1.to_string()));
    assert_eq!(info.completed_at, Some(T2.to_string()));
}

#[test]
fn recorded_times_never_go_backwards() {
    let mut service = create_service();
    service
        .register_command(&command("ls", &[], 1), caller(), "task-1".to_string(), T2.to_string())
        .unwrap();
    // the clock has stepped back between the readings
    service.begin_task("task-1", T1.to_string()).unwrap();
    let info = service.try_get_task_status("task-1").unwrap().task_info.unwrap();
    assert_eq!(info.started_at, Some(T2.to_string()));
    let outcome: Result<ExecutionResult, McpError> = Err(McpError::Execution("x".into()));
    service.finish_task("task-1", &outcome, T0.to_string()).unwrap();
    let info = service.try_get_task_status("task-1").unwrap().task_info.unwrap();
    assert_eq!(info.completed_at, Some(T2.to_string()));

    service
        .register_command(&command("ls", &[], 1), caller(), "task-2".to_string(), T1.to_string())
        .unwrap();
    let answer = service.try_cancel_task("task-2", T0.to_string()).unwrap();
    assert_eq!(answer.response.task_info.unwrap().completed_at, Some(T1.to_string()));
}

#[test]
fn unknown_tasks_are_not_found() {
    let mut service = create_service();
    let error = service.try_get_task_status("task-none").unwrap_err();
    assert!(matches!(&error, McpError::NotFound(m) if m == "タスクが見つかりません: task-none"));
    assert_eq!(error.code(), 6001);
    assert_eq!(service.try_stream_task_output("task-none", 1).unwrap_err().kind(),
        ErrorKind::NotFound);
    assert_eq!(service.try_cancel_task("task-none", T0.to_string()).unwrap_err().kind(),
        ErrorKind::NotFound);
    assert_eq!(service.begin_task("task-none", T0.to_string()).unwrap_err().kind(),
        ErrorKind::NotFound);
    let outcome: Result<ExecutionResult, McpError> = Err(McpError::Execution("x".into()));
    assert_eq!(service.finish_task("task-none", &outcome, T0.to_string()).unwrap_err().kind(),
        ErrorKind::NotFound);

    let status = service.get_task_status("task-none").unwrap_err();
    assert_eq!(status.code(), Code::NotFound);
    assert_eq!(status.message(), "Resource not found: タスクが見つかりません: task-none");
    assert_eq!(status.payload.as_ref().unwrap().error.code, 6001);
    assert_eq!(service.errors.get_error_count("not_found"), 1);
    assert_eq!(service.errors.get_error_count("error_code_6001"), 1);
}

#[test]
fn an_id_that_is_taken_is_an_internal_error() {
    let mut service = create_service();
    service
        .register_command(&command("ls", &[], 1), caller(), "task-1".to_string(), T0.to_string())
        .unwrap();
    let rejection = service
        .register_command(&command("echo", &[], 1), caller(), "task-1".to_string(), T1.to_string())
        .unwrap_err();
    assert!(matches!(&rejection.error,
        McpError::Internal(m) if m == "Task id is already registered: task-1"));
    assert!(rejection.details.is_none());
    let info = service.try_get_task_status("task-1").unwrap().task_info.unwrap();
    assert_eq!(info.created_at, T0);
}

#[test]
fn many_tasks_are_all_found() {
    let mut service = create_service();
    let mut ids = Vec::new();
    for _ in 0..200 {
        let accepted =
            service.try_execute_command(&command("ls", &[], 1), caller(), &entropy()).unwrap();
        assert!(accepted.response.created_at.len() >= 25);
        assert!(accepted.response.task_id.starts_with("task-"));
        ids.push(accepted.response.task_id);
    }
    let mut distinct = ids.clone();
    distinct.sort();
    distinct.dedup();
    assert_eq!(distinct.len(), 200);
    for id in &ids {
        let shown = service.try_get_task_status(id).unwrap();
        assert_eq!(&shown.task_info.unwrap().task_id, id);
    }
    assert_eq!(service.errors.total_errors(), 0);
}

#[test]
fn the_output_is_streamed_once_the_task_has_a_result() {
    let mut service = create_service();
    service
        .register_command(&command("ls", &[], 1), caller(), "task-1".to_string(), T0.to_string())
        .unwrap();
    let poll = service.try_stream_task_output("task-1", 7).unwrap();
    assert!(poll.chunks.is_empty());
    assert!(!poll.finished);
    service.begin_task("task-1", T1.to_string()).unwrap();
    let poll = service.try_stream_task_output("task-1", 7).unwrap();
    assert!(poll.chunks.is_empty());
    assert!(!poll.finished);
    let outcome = SandboxRunner::finish(
        false,
        1,
        RunOutcome::Exited {
            code: Some(1),
            stdout: "出力\n".as_bytes().to_vec(),
            stderr: b"warning\n".to_vec(),
            elapsed_ms: 1,
        },
    );
    service.finish_task("task-1", &outcome, T2.to_string()).unwrap();
    let poll = service.try_stream_task_output("task-1", 99).unwrap();
    assert!(poll.finished);
    assert_eq!(poll.chunks.len(), 2);
    assert_eq!(poll.chunks[0].chunk_type, OutputChunkType::ChunkStdout);
    assert_eq!(poll.chunks[0].data, "出力\n".as_bytes());
    assert_eq!(poll.chunks[0].task_id, "task-1");
    assert_eq!(poll.chunks[0].timestamp_ms, 99);
    let before = current_timestamp_ms();
    let poll = service.stream_task_output("task-1").unwrap().into_inner();
    assert_eq!(poll.chunks.len(), 2);
    assert!(poll.chunks[0].timestamp_ms >= before);
    assert_eq!(poll.chunks[0].timestamp_ms, poll.chunks[1].timestamp_ms);
    assert_eq!(poll.chunks[1].chunk_type, OutputChunkType::ChunkStderr);
    assert_eq!(poll.chunks[1].data, b"warning\n");

    service
        .register_command(&command("ls", &[], 1), caller(), "task-2".to_string(), T0.to_string())
        .unwrap();
    service.begin_task("task-2", T1.to_string()).unwrap();
    let outcome = SandboxRunner::finish(
        false,
        1,
        RunOutcome::Exited { code: Some(0), stdout: vec![], stderr: b"e".to_vec(), elapsed_ms: 1 },
    );
    service.finish_task("task-2", &outcome, T2.to_string()).unwrap();
    let poll = service.try_stream_task_output("task-2", 1).unwrap();
    assert_eq!(poll.chunks.len(), 1);
    assert_eq!(poll.chunks[0].chunk_type, OutputChunkType::ChunkStderr);

    service
        .register_command(&command("ls", &[], 1), caller(), "task-3".to_string(), T0.to_string())
        .unwrap();
    service.try_cancel_task("task-3", T1.to_string()).unwrap();
    let poll = service.try_stream_task_output("task-3", 1).unwrap();
    assert!(poll.chunks.is_empty());
    assert!(poll.finished);
}

#[test]
fn health_reports_uptime_and_errors() {
    let mut service = new_service(10_000);
    let health = service.health_report(10_999, false);
    assert_eq!(health.status, "ok");
    assert_eq!(health.version, VERSION);
    assert_eq!(health.uptime_seconds, 0);
    let health = service.health_report(71_500, true);
    assert_eq!(health.status, "ok [uptime=61s, errors=0]");
    assert_eq!(health.uptime_seconds, 61);
    // a clock behind the start counts as no uptime
    assert_eq!(service.health_report(5, false).uptime_seconds, 0);

    let _ = service.get_task_status("task-none");
    let _ = service.read_file("/x");
    let health = service.health_report(12_000, true);
    assert_eq!(health.status, "ok [uptime=2s, errors=4]");
    assert_eq!(service.errors.total_errors(), 4);
    let health = service.health(true).unwrap().into_inner();
    assert!(health.status.starts_with("ok [uptime="));
    assert!(health.status.ends_with("s, errors=4]"));
    assert_eq!(service.errors.total_errors(), 4);
}

#[test]
fn the_output_channel_holds_128_chunks() {
    assert_eq!(OUTPUT_CHANNEL_CAPACITY, 128);
}

#[test]
fn reserved_file_operations_are_internal_errors() {
    let mut service = create_service();
    let error = service.read_file("/workspace/a").unwrap_err();
    assert_eq!(error.message(), "Internal error: ファイル読み取り機能は未実装です");
    let error = service.write_file("/workspace/a", &vec![1, 2], 0o600, true).unwrap_err();
    assert_eq!(error.message(), "Internal error: ファイル書き込み機能は未実装です");
    let error = service.delete_file("/workspace/a", true).unwrap_err();
    assert_eq!(error.message(), "Internal error: ファイル削除機能は未実装です");
    assert_eq!(error.payload.as_ref().unwrap().error.code, 5001);
    assert_eq!(service.errors.get_error_count("internal"), 3);
    assert_eq!(service.errors.get_error_count("error_code_5001"), 3);
}

#[test]
fn errors_are_counted_by_kind_and_by_code() {
    let mut handler = ErrorHandler::new();
    assert_eq!(handler.get_error_count("auth"), 0);
    assert!(handler.get_error_stats().is_empty());
    assert_eq!(handler.total_errors(), 0);

    handler.increment_error_counter(&McpError::Auth("token expired".into()));
    handler.increment_error_counter(&McpError::Auth("invalid".into()));
    handler.increment_error_counter(&McpError::Auth("other".into()));
    let _ = handler.catch(McpError::Sandbox("setup".into()));
    let _ = handler.handle::<()>(Err(McpError::Temporary("later".into())));
    let _ = handler.handle(Ok(1));

    assert_eq!(handler.get_error_count("auth"), 3);
    assert_eq!(handler.get_error_count("error_code_1001"), 1);
    assert_eq!(handler.get_error_count("error_code_1002"), 1);
    assert_eq!(handler.get_error_count("error_code_1003"), 1);
    assert_eq!(handler.get_error_count("sandbox"), 1);
    assert_eq!(handler.get_error_count("error_code_4001"), 1);
    assert_eq!(handler.get_error_count("temporary"), 1);
    assert_eq!(handler.get_error_count("error_code_5001"), 1);
    assert_eq!(handler.get_error_count("execution"), 0);
    assert_eq!(handler.get_error_count("no such counter"), 0);
    assert_eq!(handler.total_errors(), 10);

    let stats = handler.get_error_stats();
    assert_eq!(stats.len(), 8);
    assert_eq!(stats["auth"], 3);
    assert_eq!(stats["error_code_4001"], 1);
    assert_eq!(stats.values().sum::<u64>(), 10);
}

#[test]
fn every_kind_has_its_counter_and_its_level() {
    let cases = vec![
        (McpError::Auth("m".into()), "auth", LogLevel::Warn),
        (McpError::InvalidRequest("m".into()), "invalid_request", LogLevel::Debug),
        (McpError::NotFound("m".into()), "not_found", LogLevel::Error),
        (McpError::PolicyViolation("m".into()), "policy_violation", LogLevel::Warn),
        (McpError::Sandbox("m".into()), "sandbox", LogLevel::Error),
        (McpError::Execution("m".into()), "execution", LogLevel::Error),
        (McpError::Internal("m".into()), "internal", LogLevel::Error),
        (McpError::Temporary("m".into()), "temporary", LogLevel::Error),
        (McpError::ExternalService("m".into()), "external_service", LogLevel::Error),
    ];
    for (error, key, level) in cases {
        let mut handler = ErrorHandler::new();
        assert_eq!(ErrorHandler::log_level(&error), level);
        let code_key = format!("error_code_{}", error.code());
        handler.increment_error_counter(&error);
        assert_eq!(handler.get_error_count(key), 1);
        assert_eq!(handler.get_error_count(&code_key), 1);
        assert_eq!(handler.get_error_stats().len(), 2);
        assert_eq!(handler.total_errors(), 2);
    }
}

#[test]
fn a_handled_error_carries_its_payload_as_json() {
    let mut handler = ErrorHandler::new();
    let mut object = serde_json::Map::new();
    object.insert("field".to_string(), serde_json::Value::String("username".to_string()));
    let details = serde_json::Value::Object(object);
    let result: Result<i32, McpError> = Err(McpError::InvalidRequest("missing field".into()));
    let status = handler.handle_with_details(result, Some(details.clone())).unwrap_err();
    assert_eq!(status.code(), Code::InvalidArgument);
    assert_eq!(status.message(), "Invalid request: missing field");
    let payload = status.payload.as_ref().unwrap();
    assert_eq!(payload.error.code, 2002);
    assert_eq!(payload.error.message, "Invalid request: missing field");
    assert_eq!(payload.error.details, Some(details.clone()));
    assert_eq!(status.metadata.len(), 1);
    assert_eq!(status.metadata[0].0, "error-details");
    let parsed: serde_json::Value =
        serde_json::from_str(status.metadata_get("error-details").unwrap()).unwrap();
    assert_eq!(parsed["error"]["code"], serde_json::Value::from(2002u64));
    assert_eq!(parsed["error"]["details"], details);
    assert!(!status.metadata_contains_key("other"));

    let result: Result<i32, McpError> = Err(McpError::InvalidRequest("x".into()));
    let status = result.into_response_with_details(&mut handler, details.clone()).unwrap_err();
    assert_eq!(status.payload.as_ref().unwrap().error.details, Some(details));
    let result: Result<i32, McpError> = Ok(5);
    assert_eq!(
        result.into_response_with_details(&mut handler, serde_json::Value::Null)
            .unwrap()
            .into_inner(),
        5
    );
    let result: Result<i32, McpError> = Err(McpError::NotFound("x".into()));
    let plain = result.into_response(&mut handler).unwrap_err();
    assert!(plain.payload.is_none());
    assert!(plain.metadata.is_empty());
    assert_eq!(handler.get_error_count("invalid_request"), 2);
    assert_eq!(handler.get_error_count("not_found"), 1);
}

#[test]
fn the_store_registers_and_finds_tasks() {
    let mut store = TaskStore::new();
    assert!(!store.contains("a"));
    assert!(matches!(store.get("a"),
        Err(McpError::NotFound(m)) if m == "タスクが見つかりません: a"));
    assert!(store.insert("a".to_string(), created("a", T0)).is_ok());
    assert!(store.contains("a"));
    assert!(!store.contains("b"));
    assert!(!store.contains(""));
    assert_eq!(store.get("a").unwrap().info.created_at, T0);
    assert!(store.insert("b".to_string(), created("b", T1)).is_ok());
    assert_eq!(store.get("a").unwrap().info.task_id, "a");
    assert_eq!(store.get("b").unwrap().info.created_at, T1);

    let error = store.insert("a".to_string(), created("a", T2)).unwrap_err();
    assert!(matches!(&error, McpError::Internal(m) if m == "Task id is already registered: a"));
    assert_eq!(store.get("a").unwrap().info.created_at, T0);

    let error = store.insert("c".to_string(), created("other", T0)).unwrap_err();
    assert!(matches!(&error,
        McpError::InvalidRequest(m) if m == "Task record is not well-formed: c"));
    assert!(!store.contains("c"));
    let mut started_early = created("d", T1);
    started_early.info.started_at = Some(T0.to_string());
    assert!(store.insert("d".to_string(), started_early).is_err());
    let mut with_result = created("e", T0);
    with_result.result = Some(some_result());
    assert!(store.insert("e".to_string(), with_result).is_err());
}

#[test]
fn the_store_admits_only_forward_steps() {
    let mut store = TaskStore::new();
    store.insert("a".to_string(), created("a", T0)).unwrap();

    // a step that keeps the record well-formed is taken
    assert_eq!(
        store
            .update_with("a", |mut r| {
                r.info.status = TaskStatus::Running;
                r.info.started_at = Some(T1.to_string());
                r
            })
            .unwrap(),
        true
    );
    assert_eq!(store.get("a").unwrap().info.status, TaskStatus::Running);

    // backwards
    assert_eq!(
        store
            .update_with("a", |mut r| {
                r.info.status = TaskStatus::Created;
                r.info.started_at = None;
                r
            })
            .unwrap(),
        false
    );
    // a start time, once set, stays
    assert_eq!(
        store
            .update_with("a", |mut r| {
                r.info.started_at = Some(T2.to_string());
                r
            })
            .unwrap(),
        false
    );
    // completed without a completion time or a result
    assert_eq!(
        store
            .update_with("a", |mut r| {
                r.info.status = TaskStatus::Completed;
                r
            })
            .unwrap(),
        false
    );
    // completed before it started
    assert_eq!(
        store
            .update_with("a", |mut r| {
                r.info.status = TaskStatus::Completed;
                r.info.completed_at = Some(T0.to_string());
                r.result = Some(some_result());
                r
            })
            .unwrap(),
        false
    );
    // another task's record
    assert_eq!(
        store
            .update_with("a", |mut r| {
                r.info.task_id = "b".to_string();
                r
            })
            .unwrap(),
        false
    );
    assert_eq!(store.get("a").unwrap().info.status, TaskStatus::Running);
    assert_eq!(store.get("a").unwrap().info.started_at, Some(T1.to_string()));

    // metadata may change without a step of the status
    assert_eq!(
        store
            .update_with("a", |mut r| {
                r.info.metadata.insert("k".to_string(), "v".to_string());
                r
            })
            .unwrap(),
        true
    );
    assert_eq!(store.get("a").unwrap().info.metadata["k"], "v");

    assert_eq!(store.set_result("a", some_result()).unwrap(), false);
    assert!(store.get("a").unwrap().result.is_none());

    assert_eq!(
        store
            .update_with("a", |mut r| {
                r.info.status = TaskStatus::Failed;
                r.info.completed_at = Some(T2.to_string());
                r.result = Some(some_result());
                r
            })
            .unwrap(),
        true
    );
    // nothing leaves a terminal status
    for status in [TaskStatus::Completed, TaskStatus::Cancelled, TaskStatus::Running] {
        assert_eq!(
            store
                .update_with("a", move |mut r| {
                    r.info.status = status;
                    r
                })
                .unwrap(),
            false
        );
    }
    assert_eq!(store.get("a").unwrap().info.status, TaskStatus::Failed);

    let mut other = some_result();
    other.exit_code = 9;
    assert_eq!(store.set_result("a", other).unwrap(), true);
    assert_eq!(store.get("a").unwrap().result.unwrap().exit_code, 9);
    assert_eq!(store.get("a").unwrap().info.status, TaskStatus::Failed);

    assert!(matches!(store.update_with("zz", |r| r), Err(McpError::NotFound(_))));
    assert!(matches!(store.set_result("zz", some_result()), Err(McpError::NotFound(_))));
    assert!(matches!(store.replace("zz", created("zz", T0)), Err(McpError::NotFound(_))));
    assert_eq!(store.replace("a", created("a", T0)).unwrap(), false);
}

#[test]
fn records_know_whether_they_are_well_formed() {
    assert!(created("a", T0).is_well_formed());
    let mut r = created("a", T0);
    r.info.status = TaskStatus::Running;
    assert!(!r.is_well_formed());
    r.info.started_at = Some(T0.to_string());
    assert!(r.is_well_formed());
    r.info.status = TaskStatus::Cancelled;
    assert!(!r.is_well_formed());
    r.info.completed_at = Some(T1.to_string());
    assert!(r.is_well_formed());
    r.info.status = TaskStatus::TimedOut;
    assert!(!r.is_well_formed());
    r.result = Some(some_result());
    assert!(r.is_well_formed());
    r.info.completed_at = Some("2024-04-30T00:00:00+00:00".to_string());
    assert!(!r.is_well_formed());
    let queued = {
        let mut q = created("q", T0);
        q.info.status = TaskStatus::Queued;
        q
    };
    assert!(queued.is_well_formed());
    assert!(created("q", T0).admits(&queued));
    assert!(!queued.admits(&created("q", T0)));
    assert!(queued.admits(&queued.duplicate()));
}
