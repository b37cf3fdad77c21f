//! The executor checks a command before it is handed to the runner and
//! fills in the defaults.

use crate::common::error::{ErrorKind, McpError, McpResult};
use crate::sandbox::models::{ExecutionRequest, SandboxConfig};
use crate::sandbox::runner::SandboxRunner;
use std::collections::HashMap;
use vstd::prelude::*;

verus! {

/// Executor for running commands in a sandbox.
#[derive(Debug, Clone)]
pub struct CommandExecutor {
    pub runner: SandboxRunner,
    pub default_timeout: u32,
    pub default_sandbox_config: SandboxConfig,
}

/// The timeout that applies: the one asked for, else the default.
pub open spec fn effective_timeout(asked: Option<u32>, default_timeout: u32) -> u32 {
    match asked {
        Some(t) => t,
        None => default_timeout,
    }
}

impl CommandExecutor {
    /// Create a new executor: a timeout of 30 seconds and the default
    /// sandbox configuration.
    pub fn new() -> (executor: CommandExecutor)
        ensures
            executor.default_timeout == 30,
            executor.default_sandbox_config@ == crate::sandbox::models::default_sandbox_config(),
    {
        CommandExecutor {
            runner: SandboxRunner::new(),
            default_timeout: 30,
            default_sandbox_config: SandboxConfig::default(),
        }
    }

    /// Create an executor with modified default settings.
    pub fn with_config(timeout: u32, sandbox_config: SandboxConfig) -> (executor: CommandExecutor)
        ensures
            executor.default_timeout == timeout,
            executor.default_sandbox_config == sandbox_config,
    {
        CommandExecutor {
            runner: SandboxRunner::new(),
            default_timeout: timeout,
            default_sandbox_config: sandbox_config,
        }
    }

    /// Checks a command and makes the request that the runner takes. An
    /// empty command is refused, then a timeout of zero; the timeout is
    /// the one asked for, else the executor's default, and the sandbox
    /// configuration is the executor's.
    pub fn prepare(
        &self,
        command: &str,
        args: Vec<String>,
        env: HashMap<String, String>,
        cwd: Option<String>,
        timeout: Option<u32>,
    ) -> (result: McpResult<ExecutionRequest>)
        ensures
            command@.len() == 0 ==> result is Err && result->Err_0.is_of(
                ErrorKind::InvalidRequest,
                "Command is not specified"@,
            ),
            command@.len() > 0 && effective_timeout(timeout, self.default_timeout) == 0
                ==> result is Err && result->Err_0.is_of(
                ErrorKind::InvalidRequest,
                "Timeout must be at least 1 second"@,
            ),
            command@.len() > 0 && effective_timeout(timeout, self.default_timeout) > 0 ==> {
                &&& result is Ok
                &&& result->Ok_0.command@ == command@
                &&& result->Ok_0.args == args
                &&& result->Ok_0.env == env
                &&& result->Ok_0.cwd == cwd
                &&& result->Ok_0.timeout == effective_timeout(timeout, self.default_timeout)
                &&& result->Ok_0.sandbox_config@ == self.default_sandbox_config@
            },
    {
        let timeout: u32 = match timeout {
            Some(t) => t,
            None => self.default_timeout,
        };
        if command.is_empty() {
            return Err(McpError::InvalidRequest(String::from_str("Command is not specified")));
        }
        if timeout == 0 {
            return Err(
                McpError::InvalidRequest(String::from_str("Timeout must be at least 1 second")),
            );
        }
        Ok(
            ExecutionRequest {
                command: String::from_str(command),
                args,
                env,
                cwd,
                timeout,
                sandbox_config: self.default_sandbox_config.duplicate(),
            },
        )
    }

    /// Create an executor with updated sandbox configuration.
    pub fn with_sandbox_config(&self, config: SandboxConfig) -> (executor: CommandExecutor)
        ensures
            executor.default_timeout == self.default_timeout,
            executor.default_sandbox_config == config,
            executor.runner.bubblewrap is Some <==> self.runner.bubblewrap is Some,
    {
        CommandExecutor {
            runner: self.runner.duplicate(),
            default_timeout: self.default_timeout,
            default_sandbox_config: config,
        }
    }

    /// Create an executor with updated timeout setting.
    pub fn with_timeout(&self, timeout: u32) -> (executor: CommandExecutor)
        ensures
            executor.default_timeout == timeout,
            executor.default_sandbox_config@ == self.default_sandbox_config@,
            executor.runner.bubblewrap is Some <==> self.runner.bubblewrap is Some,
    {
        CommandExecutor {
            runner: self.runner.duplicate(),
            default_timeout: timeout,
            default_sandbox_config: self.default_sandbox_config.duplicate(),
        }
    }

    /// A copy of the executor.
    pub fn duplicate(&self) -> (executor: CommandExecutor)
        ensures
            executor.default_timeout == self.default_timeout,
            executor.default_sandbox_config@ == self.default_sandbox_config@,
            executor.runner.bubblewrap is Some <==> self.runner.bubblewrap is Some,
    {
        self.with_timeout(self.default_timeout)
    }
}

impl Default for CommandExecutor {
    fn default() -> (executor: CommandExecutor)
        ensures
            executor.default_timeout == 30,
            executor.default_sandbox_config@ == crate::sandbox::models::default_sandbox_config(),
    {
        CommandExecutor::new()
    }
}

} // verus!
