//! The runner decides how a request is launched and what the outcome of
//! the launch comes to. Starting the process, waiting for it and killing
//! it at the timeout are the caller's part.

use crate::common::error::{ErrorKind, McpError, McpResult};
use crate::common::models::{copy_option, option_view};
use crate::common::text::{
    concat3, contains_substring, copy_strings, decimal, decimal_string, one_string, views,
};
use crate::sandbox::bubblewrap::{bwrap_args, leads_to, BubblewrapWrapper, CommandLine};
use crate::sandbox::models::{
    ExecutionRequest, ExecutionRequestView, ExecutionResult, ExecutionResultView, NetworkAccess,
    ResourceUsage, SandboxConfigView,
};
use crate::sandbox::seccomp::{profile_for, SeccompProfileManager, SeccompProfileType};
use std::collections::HashMap;
use vstd::prelude::*;
use vstd::utf8::{decode_utf8, valid_utf8};

verus! {

/// Runner for executing commands in a sandbox.
#[derive(Debug, Clone)]
pub struct SandboxRunner {
    pub bubblewrap: Option<BubblewrapWrapper>,
    pub seccomp_manager: SeccompProfileManager,
}

/// How a request is to be launched.
#[derive(Debug, Clone)]
pub struct Launch {
    /// Whether the command runs under the isolation launcher.
    pub sandboxed: bool,
    /// The program to start and its arguments. The child's input is
    /// closed; its output and error streams are captured.
    pub line: CommandLine,
    /// The environment of the child.
    pub env: HashMap<String, String>,
    /// Exported to the child as `PWD`, on top of `env`.
    pub pwd: Option<String>,
    /// The directory to start the child in.
    pub cwd: Option<String>,
    /// After this many seconds the child is killed.
    pub timeout_secs: u32,
    /// Security warnings to log before the launch.
    pub notices: Vec<String>,
}

/// What a launch says.
pub struct LaunchView {
    pub sandboxed: bool,
    pub program: Seq<char>,
    pub args: Seq<Seq<char>>,
    pub env: Map<String, String>,
    pub pwd: Option<Seq<char>>,
    pub cwd: Option<Seq<char>>,
    pub timeout_secs: u32,
    pub notices: Seq<Seq<char>>,
}

impl View for Launch {
    type V = LaunchView;

    open spec fn view(&self) -> LaunchView {
        LaunchView {
            sandboxed: self.sandboxed,
            program: self.line.program@,
            args: views(self.line.args@),
            env: self.env@,
            pwd: option_view(self.pwd),
            cwd: option_view(self.cwd),
            timeout_secs: self.timeout_secs,
            notices: views(self.notices@),
        }
    }
}

/// What became of a launch.
#[derive(Debug)]
pub enum RunOutcome {
    /// The child ended: its exit code (none where a signal ended it), what
    /// it wrote, and the wall-clock time from just before the start to
    /// just after the end.
    Exited { code: Option<i32>, stdout: Vec<u8>, stderr: Vec<u8>, elapsed_ms: u64 },
    /// The child could not be started; the host's words.
    SpawnFailed(String),
    /// The timeout passed and the child was killed.
    TimedOut,
    /// The kernel refused to set up the isolation; the host's words.
    IsolationRefused(String),
}

/// The text that `String::from_utf8_lossy` makes of a run of bytes.
pub uninterp spec fn lossy_text(bytes: Seq<u8>) -> Seq<char>;

/// Decodes captured output with `String::from_utf8_lossy`: valid UTF-8 is
/// decoded as it is, and each invalid sequence becomes the replacement
/// character.
#[verifier::external_body]
fn decode_lossy(bytes: &Vec<u8>) -> (text: String)
    ensures
        text@ == lossy_text(bytes@),
        valid_utf8(bytes@) ==> text@ == decode_utf8(bytes@),
{
    String::from_utf8_lossy(bytes).into_owned()
}

/// The bytes with which the isolation launcher begins every complaint of
/// its own.
pub open spec fn launcher_mark() -> Seq<u8> {
    seq![98u8, 119u8, 114u8, 97u8, 112u8, 58u8, 32u8]
}

/// An exit tells of a refusal to set up the isolation: the launch was
/// isolated, it did not end with exit code zero, and what came on the
/// error stream begins with the launcher's mark `bwrap: `.
pub open spec fn tells_refusal(sandboxed: bool, code: Option<i32>, stderr: Seq<u8>) -> bool {
    sandboxed && code != Some(0i32) && launcher_mark().is_prefix_of(stderr)
}

/// The configuration with the syscall filter set to `profile`, where one
/// is at hand.
pub open spec fn with_profile(config: SandboxConfigView, profile: Option<Seq<char>>) -> SandboxConfigView {
    match profile {
        Some(path) => SandboxConfigView { seccomp_profile: Some(path), ..config },
        None => config,
    }
}

/// The path of a profile that was obtained, none where obtaining it
/// failed.
pub open spec fn usable_profile(profile: McpResult<String>) -> Option<Seq<char>> {
    match profile {
        Ok(path) => Some(path@),
        Err(_) => None,
    }
}

/// The launch under the isolation launcher at `bwrap_path`. The request's
/// environment is passed as it is, and the working directory is exported
/// as `PWD`, which the launcher honours where it does not honour a
/// working directory.
pub open spec fn sandboxed_launch(
    bwrap_path: Seq<char>,
    request: ExecutionRequestView,
    profile: Option<Seq<char>>,
) -> LaunchView {
    LaunchView {
        sandboxed: true,
        program: bwrap_path,
        args: bwrap_args(
            with_profile(request.sandbox_config, profile),
            request.command,
            request.args,
        ),
        env: request.env,
        pwd: request.cwd,
        cwd: None,
        timeout_secs: request.timeout,
        notices: if request.sandbox_config.network_access is Restricted {
            seq!["Restricted network access is not supported; the network is cut off"@]
        } else {
            Seq::empty()
        },
    }
}

/// The launch without isolation, with the warning that goes with it.
pub open spec fn direct_launch(request: ExecutionRequestView) -> LaunchView {
    LaunchView {
        sandboxed: false,
        program: request.command,
        args: request.args,
        env: request.env,
        pwd: None,
        cwd: request.cwd,
        timeout_secs: request.timeout,
        notices: if request.sandbox_config.enabled {
            seq!["bubblewrap is disabled or not available, executing without sandbox!"@]
        } else {
            seq!["Sandbox is disabled! Executing in unsafe environment."@]
        },
    }
}

/// The words that begin the message of a failure of a launch.
pub open spec fn launch_label(sandboxed: bool) -> Seq<char> {
    if sandboxed {
        "Sandbox execution "@
    } else {
        "Command execution "@
    }
}

/// The message of the error for a launch that ran into its timeout.
pub open spec fn timeout_message(sandboxed: bool, timeout_secs: u32) -> Seq<char> {
    launch_label(sandboxed) + "timed out"@ + ": "@ + decimal(timeout_secs as nat) + " seconds"@
}

/// What the outcome of a launch comes to.
pub open spec fn outcome_reports(
    result: McpResult<ExecutionResult>,
    sandboxed: bool,
    timeout_secs: u32,
    outcome: RunOutcome,
) -> bool {
    match outcome {
        RunOutcome::Exited { code, stdout, stderr, elapsed_ms } => result is Ok && result->Ok_0@
            == (ExecutionResultView {
            exit_code: Some(
                match code {
                    Some(c) => c,
                    None => -1i32,
                },
            ),
            stdout: lossy_text(stdout@),
            stderr: lossy_text(stderr@),
            resource_usage: ResourceUsage {
                cpu_time_ms: elapsed_ms,
                max_memory_kb: 0,
                io_read_bytes: 0,
                io_write_bytes: 0,
            },
            execution_time_ms: elapsed_ms,
        }),
        RunOutcome::SpawnFailed(words) => result is Err && result->Err_0.is_of(
            ErrorKind::Execution,
            launch_label(sandboxed) + "failed: "@ + words@,
        ),
        RunOutcome::TimedOut => result is Err && result->Err_0.is_of(
            ErrorKind::Execution,
            timeout_message(sandboxed, timeout_secs),
        ),
        RunOutcome::IsolationRefused(words) => result is Err && result->Err_0.is_of(
            ErrorKind::Sandbox,
            "Sandbox setup failed: "@ + words@,
        ),
    }
}

fn launch_label_text(sandboxed: bool) -> (label: &'static str)
    ensures
        label@ == launch_label(sandboxed),
{
    if sandboxed {
        "Sandbox execution "
    } else {
        "Command execution "
    }
}

impl SandboxRunner {
    /// Create a new runner: look for the isolation launcher once, and keep
    /// the profile files in the default place. Where the launcher is
    /// found, the runner holds the path that leads to it; where it is not,
    /// the runner holds none and every request will run directly.
    pub fn new() -> (runner: SandboxRunner)
        ensures
            runner.seccomp_manager.profile_dir is Temporary,
            runner.bubblewrap is Some ==> leads_to(runner.bubblewrap->0.bwrap_path@, "bwrap"@),
    {
        SandboxRunner {
            bubblewrap: BubblewrapWrapper::new(),
            seccomp_manager: SeccompProfileManager::default(),
        }
    }

    /// A runner with the given parts.
    pub fn with_parts(
        bubblewrap: Option<BubblewrapWrapper>,
        seccomp_manager: SeccompProfileManager,
    ) -> (runner: SandboxRunner)
        ensures
            runner.bubblewrap == bubblewrap,
            runner.seccomp_manager == seccomp_manager,
    {
        SandboxRunner { bubblewrap, seccomp_manager }
    }

    /// What to log once the runner is built: whether commands will run
    /// isolated.
    pub fn availability_notice(&self) -> (notice: &'static str)
        ensures
            self.bubblewrap is Some ==> notice@ == "Using bubblewrap sandbox."@,
            self.bubblewrap is None ==> notice@
                == "bubblewrap is not available, executing without sandbox. This is a security vulnerability."@,
    {
        if self.bubblewrap.is_some() {
            "Using bubblewrap sandbox."
        } else {
            "bubblewrap is not available, executing without sandbox. This is a security vulnerability."
        }
    }

    /// A request runs isolated where its configuration asks for it and the
    /// launcher is there.
    pub open spec fn spec_uses_sandbox(&self, request: &ExecutionRequest) -> bool {
        request.sandbox_config.enabled && self.bubblewrap is Some
    }

    /// Whether the request runs isolated.
    #[verifier::when_used_as_spec(spec_uses_sandbox)]
    pub fn uses_sandbox(&self, request: &ExecutionRequest) -> (yes: bool)
        ensures
            yes == self.spec_uses_sandbox(request),
    {
        request.sandbox_config.enabled && self.bubblewrap.is_some()
    }

    /// The syscall-filter profile that the launch of a request needs: none
    /// for a launch without isolation, `Basic` without network, `Network`
    /// with it.
    pub fn needed_profile(&self, request: &ExecutionRequest) -> (profile: Option<SeccompProfileType>)
        ensures
            !self.spec_uses_sandbox(request) ==> profile is None,
            self.spec_uses_sandbox(request) ==> profile == Some(
                profile_for(request.sandbox_config.network_access is NoAccess),
            ),
    {
        if !self.uses_sandbox(request) {
            return None;
        }
        match &request.sandbox_config.network_access {
            NetworkAccess::NoAccess => Some(SeccompProfileType::Basic),
            _ => Some(SeccompProfileType::Network),
        }
    }

    /// The launch of a request as the mathematical function that `plan`
    /// computes.
    pub open spec fn planned(
        &self,
        request: &ExecutionRequest,
        profile: McpResult<String>,
    ) -> LaunchView {
        if self.spec_uses_sandbox(request) {
            sandboxed_launch(self.bubblewrap->0.bwrap_path@, request@, usable_profile(profile))
        } else {
            direct_launch(request@)
        }
    }

    /// Decides how `request` is launched. `profile` is the path of the
    /// syscall-filter profile that `needed_profile` asked for, or the
    /// error met in obtaining it; without a profile the launch goes on
    /// with the filter that the request's own configuration names, if any.
    pub fn plan(&self, request: &ExecutionRequest, profile: &McpResult<String>) -> (launch: Launch)
        ensures
            launch@ == self.planned(request, *profile),
    {
        if request.sandbox_config.enabled && self.bubblewrap.is_some() {
            let bubblewrap = self.bubblewrap.as_ref().unwrap();
            let mut config = request.sandbox_config.duplicate();
            if let Ok(path) = profile {
                config.seccomp_profile = Some(path.clone());
            }
            proof {
                assert(config@ == with_profile(request@.sandbox_config, usable_profile(*profile)));
            }
            let line = bubblewrap.build_command(&config, request.command.as_str(), &request.args);
            let notices = match &request.sandbox_config.network_access {
                NetworkAccess::Restricted(_) => one_string(
                    String::from_str(
                        "Restricted network access is not supported; the network is cut off",
                    ),
                ),
                _ => Vec::new(),
            };
            proof {
                if !(request.sandbox_config.network_access is Restricted) {
                    assert(views(notices@) =~= Seq::<Seq<char>>::empty());
                }
            }
            Launch {
                sandboxed: true,
                line,
                env: request.env.clone(),
                pwd: copy_option(&request.cwd),
                cwd: None,
                timeout_secs: request.timeout,
                notices,
            }
        } else {
            let notice = if request.sandbox_config.enabled {
                "bubblewrap is disabled or not available, executing without sandbox!"
            } else {
                "Sandbox is disabled! Executing in unsafe environment."
            };
            Launch {
                sandboxed: false,
                line: CommandLine {
                    program: request.command.clone(),
                    args: copy_strings(&request.args),
                },
                env: request.env.clone(),
                pwd: None,
                cwd: copy_option(&request.cwd),
                timeout_secs: request.timeout,
                notices: one_string(String::from_str(notice)),
            }
        }
    }

    /// What the end of a child comes to: a refusal to set up the isolation
    /// where the exit tells of one, with what the launcher wrote as the
    /// host's words; otherwise an exit with what the child wrote.
    pub fn exit_outcome(
        sandboxed: bool,
        code: Option<i32>,
        stdout: Vec<u8>,
        stderr: Vec<u8>,
        elapsed_ms: u64,
    ) -> (outcome: RunOutcome)
        ensures
            tells_refusal(sandboxed, code, stderr@) ==> outcome is IsolationRefused
                && outcome->IsolationRefused_0@ == lossy_text(stderr@),
            !tells_refusal(sandboxed, code, stderr@) ==> outcome == (RunOutcome::Exited {
                code,
                stdout,
                stderr,
                elapsed_ms,
            }),
    {
        let clean = match code {
            Some(c) => c == 0,
            None => false,
        };
        let marked = stderr.len() >= 7 && stderr[0] == 98 && stderr[1] == 119 && stderr[2] == 114
            && stderr[3] == 97 && stderr[4] == 112 && stderr[5] == 58 && stderr[6] == 32;
        proof {
            if marked {
                assert(stderr@.subrange(0, 7) =~= launcher_mark());
            }
        }
        if sandboxed && !clean && marked {
            RunOutcome::IsolationRefused(decode_lossy(&stderr))
        } else {
            RunOutcome::Exited { code, stdout, stderr, elapsed_ms }
        }
    }

    /// Turns the outcome of a launch into the result of the execution.
    pub fn finish(sandboxed: bool, timeout_secs: u32, outcome: RunOutcome) -> (result: McpResult<
        ExecutionResult,
    >)
        ensures
            outcome_reports(result, sandboxed, timeout_secs, outcome),
    {
        let label = launch_label_text(sandboxed);
        match outcome {
            RunOutcome::Exited { code, stdout, stderr, elapsed_ms } => {
                let exit_code: i32 = match code {
                    Some(c) => c,
                    None => -1,
                };
                Ok(
                    ExecutionResult {
                        exit_code: Some(exit_code),
                        stdout: decode_lossy(&stdout),
                        stderr: decode_lossy(&stderr),
                        resource_usage: ResourceUsage {
                            cpu_time_ms: elapsed_ms,
                            max_memory_kb: 0,
                            io_read_bytes: 0,
                            io_write_bytes: 0,
                        },
                        execution_time_ms: elapsed_ms,
                    },
                )
            },
            RunOutcome::SpawnFailed(words) => Err(
                McpError::Execution(concat3(label, "failed: ", words.as_str())),
            ),
            RunOutcome::TimedOut => {
                let number = decimal_string(timeout_secs as u64);
                let message = String::from_str(label).concat("timed out").concat(": ").concat(
                    number.as_str(),
                ).concat(" seconds");
                Err(McpError::Execution(message))
            },
            RunOutcome::IsolationRefused(words) => Err(
                McpError::Sandbox(
                    String::from_str("Sandbox setup failed: ").concat(words.as_str()),
                ),
            ),
        }
    }

    /// A copy of the runner.
    pub fn duplicate(&self) -> (copy: SandboxRunner)
        ensures
            copy.bubblewrap is Some <==> self.bubblewrap is Some,
            self.bubblewrap is Some ==> copy.bubblewrap->0.bwrap_path@
                == self.bubblewrap->0.bwrap_path@,
            copy.seccomp_manager.profile_dir is Temporary
                <==> self.seccomp_manager.profile_dir is Temporary,
            forall|request: &ExecutionRequest, profile: McpResult<String>|
                #![trigger copy.planned(request, profile)]
                copy.planned(request, profile) == self.planned(request, profile),
    {
        let bubblewrap = match &self.bubblewrap {
            Some(b) => Some(b.duplicate()),
            None => None,
        };
        SandboxRunner { bubblewrap, seccomp_manager: self.seccomp_manager.duplicate() }
    }
}

impl Default for SandboxRunner {
    fn default() -> (runner: SandboxRunner)
        ensures
            runner.seccomp_manager.profile_dir is Temporary,
    {
        SandboxRunner::new()
    }
}

/// The message of a timeout says `timed out`, whatever the launch and the
/// limit.
pub proof fn lemma_timeout_message_says_timed_out(sandboxed: bool, timeout_secs: u32)
    ensures
        contains_substring(timeout_message(sandboxed, timeout_secs), "timed out"@),
{
    let message = timeout_message(sandboxed, timeout_secs);
    let at = launch_label(sandboxed).len() as int;
    assert(message.subrange(at, at + "timed out"@.len()) =~= "timed out"@);
}

/// Without the launcher every request runs directly, whatever its
/// configuration asks for.
pub proof fn lemma_no_launcher_means_direct(
    runner: SandboxRunner,
    request: &ExecutionRequest,
    profile: McpResult<String>,
)
    requires
        runner.bubblewrap is None,
    ensures
        runner.planned(request, profile) == direct_launch(request@),
        !runner.planned(request, profile).sandboxed,
{
}

} // verus!
