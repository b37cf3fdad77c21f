//! Requests, results and configuration of a sandboxed execution.

use crate::common::models::{copy_option, option_view};
use crate::common::text::{copy_strings, push_text, views};
use std::collections::HashMap;
use vstd::prelude::*;

verus! {

/// Command execution request.
#[derive(Debug, Clone)]
pub struct ExecutionRequest {
    /// Command to execute.
    pub command: String,
    /// Command arguments.
    pub args: Vec<String>,
    /// Environment variables.
    pub env: HashMap<String, String>,
    /// Working directory.
    pub cwd: Option<String>,
    /// Timeout (seconds).
    pub timeout: u32,
    /// Sandbox configuration.
    pub sandbox_config: SandboxConfig,
}

/// Command execution result.
#[derive(Debug, Clone)]
pub struct ExecutionResult {
    /// Exit code.
    pub exit_code: Option<i32>,
    /// Standard output.
    pub stdout: String,
    /// Standard error output.
    pub stderr: String,
    /// Resource usage.
    pub resource_usage: ResourceUsage,
    /// Execution time (milliseconds).
    pub execution_time_ms: u64,
}

/// Resource usage.
#[derive(Debug, Clone, Copy, PartialEq, Eq, Structural)]
pub struct ResourceUsage {
    /// CPU usage time (milliseconds).
    pub cpu_time_ms: u64,
    /// Maximum memory usage (kilobytes).
    pub max_memory_kb: u64,
    /// Number of bytes read.
    pub io_read_bytes: u64,
    /// Number of bytes written.
    pub io_write_bytes: u64,
}

/// Sandbox configuration.
#[derive(Debug, Clone)]
pub struct SandboxConfig {
    /// Whether sandbox is enabled.
    pub enabled: bool,
    /// Path to seccomp profile.
    pub seccomp_profile: Option<String>,
    /// Paths with read-write permission.
    pub rw_paths: Vec<String>,
    /// Paths with read-only permission.
    pub ro_paths: Vec<String>,
    /// Denied paths.
    pub denied_paths: Vec<String>,
    /// Network access configuration.
    pub network_access: NetworkAccess,
    /// Resource limits configuration.
    pub resource_limits: ResourceLimits,
}

/// Network access configuration.
#[derive(Debug, Clone)]
pub enum NetworkAccess {
    /// No network access allowed.
    NoAccess,
    /// Access to the same network as the host.
    Host,
    /// Access only to specific hosts.
    Restricted(Vec<String>),
}

/// Resource limits configuration.
#[derive(Debug, Clone, Copy, PartialEq, Eq, Structural)]
pub struct ResourceLimits {
    /// CPU limit, in thousandths of a core.
    pub cpu_limit_millicores: Option<u64>,
    /// Memory limit (bytes).
    pub memory_limit: Option<u64>,
    /// Process count limit.
    pub pids_limit: Option<u32>,
    /// IO weight (priority).
    pub io_weight: Option<u32>,
}

/// What a network access configuration says.
pub enum NetworkAccessView {
    NoAccess,
    Host,
    Restricted(Seq<Seq<char>>),
}

/// What a sandbox configuration says.
pub struct SandboxConfigView {
    pub enabled: bool,
    pub seccomp_profile: Option<Seq<char>>,
    pub rw_paths: Seq<Seq<char>>,
    pub ro_paths: Seq<Seq<char>>,
    pub denied_paths: Seq<Seq<char>>,
    pub network_access: NetworkAccessView,
    pub resource_limits: ResourceLimits,
}

/// What an execution request says.
pub struct ExecutionRequestView {
    pub command: Seq<char>,
    pub args: Seq<Seq<char>>,
    pub env: Map<String, String>,
    pub cwd: Option<Seq<char>>,
    pub timeout: u32,
    pub sandbox_config: SandboxConfigView,
}

/// What an execution result says.
pub struct ExecutionResultView {
    pub exit_code: Option<i32>,
    pub stdout: Seq<char>,
    pub stderr: Seq<char>,
    pub resource_usage: ResourceUsage,
    pub execution_time_ms: u64,
}

impl View for NetworkAccess {
    type V = NetworkAccessView;

    open spec fn view(&self) -> NetworkAccessView {
        match self {
            NetworkAccess::NoAccess => NetworkAccessView::NoAccess,
            NetworkAccess::Host => NetworkAccessView::Host,
            NetworkAccess::Restricted(hosts) => NetworkAccessView::Restricted(views(hosts@)),
        }
    }
}

impl View for SandboxConfig {
    type V = SandboxConfigView;

    open spec fn view(&self) -> SandboxConfigView {
        SandboxConfigView {
            enabled: self.enabled,
            seccomp_profile: option_view(self.seccomp_profile),
            rw_paths: views(self.rw_paths@),
            ro_paths: views(self.ro_paths@),
            denied_paths: views(self.denied_paths@),
            network_access: self.network_access@,
            resource_limits: self.resource_limits,
        }
    }
}

impl View for ExecutionRequest {
    type V = ExecutionRequestView;

    open spec fn view(&self) -> ExecutionRequestView {
        ExecutionRequestView {
            command: self.command@,
            args: views(self.args@),
            env: self.env@,
            cwd: option_view(self.cwd),
            timeout: self.timeout,
            sandbox_config: self.sandbox_config@,
        }
    }
}

impl View for ExecutionResult {
    type V = ExecutionResultView;

    open spec fn view(&self) -> ExecutionResultView {
        ExecutionResultView {
            exit_code: self.exit_code,
            stdout: self.stdout@,
            stderr: self.stderr@,
            resource_usage: self.resource_usage,
            execution_time_ms: self.execution_time_ms,
        }
    }
}

impl Default for ResourceUsage {
    fn default() -> (usage: ResourceUsage)
        ensures
            usage == (ResourceUsage {
                cpu_time_ms: 0,
                max_memory_kb: 0,
                io_read_bytes: 0,
                io_write_bytes: 0,
            }),
    {
        ResourceUsage { cpu_time_ms: 0, max_memory_kb: 0, io_read_bytes: 0, io_write_bytes: 0 }
    }
}

impl Default for ResourceLimits {
    fn default() -> (limits: ResourceLimits)
        ensures
            limits == (ResourceLimits {
                cpu_limit_millicores: None,
                memory_limit: None,
                pids_limit: None,
                io_weight: None,
            }),
    {
        ResourceLimits {
            cpu_limit_millicores: None,
            memory_limit: None,
            pids_limit: None,
            io_weight: None,
        }
    }
}

/// The configuration used where a request names none: the sandbox is on,
/// the workspace is writable, the system's programs and libraries are
/// readable, the host's configuration, state and home directories are
/// masked, and there is no network.
pub open spec fn default_sandbox_config() -> SandboxConfigView {
    SandboxConfigView {
        enabled: true,
        seccomp_profile: None,
        rw_paths: seq!["/workspace"@],
        ro_paths: seq!["/usr/bin"@, "/usr/lib"@, "/lib"@],
        denied_paths: seq!["/etc"@, "/var"@, "/home"@],
        network_access: NetworkAccessView::NoAccess,
        resource_limits: ResourceLimits {
            cpu_limit_millicores: None,
            memory_limit: None,
            pids_limit: None,
            io_weight: None,
        },
    }
}

impl Default for SandboxConfig {
    fn default() -> (config: SandboxConfig)
        ensures
            config@ == default_sandbox_config(),
    {
        let mut rw_paths: Vec<String> = Vec::new();
        push_text(&mut rw_paths, "/workspace");
        let mut ro_paths: Vec<String> = Vec::new();
        push_text(&mut ro_paths, "/usr/bin");
        push_text(&mut ro_paths, "/usr/lib");
        push_text(&mut ro_paths, "/lib");
        let mut denied_paths: Vec<String> = Vec::new();
        push_text(&mut denied_paths, "/etc");
        push_text(&mut denied_paths, "/var");
        push_text(&mut denied_paths, "/home");
        proof {
            assert(views(rw_paths@) =~= seq!["/workspace"@]);
            assert(views(ro_paths@) =~= seq!["/usr/bin"@, "/usr/lib"@, "/lib"@]);
            assert(views(denied_paths@) =~= seq!["/etc"@, "/var"@, "/home"@]);
        }
        SandboxConfig {
            enabled: true,
            seccomp_profile: None,
            rw_paths,
            ro_paths,
            denied_paths,
            network_access: NetworkAccess::NoAccess,
            resource_limits: ResourceLimits::default(),
        }
    }
}

impl NetworkAccess {
    /// A copy of the configuration.
    pub fn duplicate(&self) -> (copy: NetworkAccess)
        ensures
            copy@ == self@,
    {
        match self {
            NetworkAccess::NoAccess => NetworkAccess::NoAccess,
            NetworkAccess::Host => NetworkAccess::Host,
            NetworkAccess::Restricted(hosts) => NetworkAccess::Restricted(copy_strings(hosts)),
        }
    }
}

impl SandboxConfig {
    /// A copy of the configuration.
    pub fn duplicate(&self) -> (copy: SandboxConfig)
        ensures
            copy@ == self@,
    {
        SandboxConfig {
            enabled: self.enabled,
            seccomp_profile: copy_option(&self.seccomp_profile),
            rw_paths: copy_strings(&self.rw_paths),
            ro_paths: copy_strings(&self.ro_paths),
            denied_paths: copy_strings(&self.denied_paths),
            network_access: self.network_access.duplicate(),
            resource_limits: self.resource_limits,
        }
    }
}

} // verus!
