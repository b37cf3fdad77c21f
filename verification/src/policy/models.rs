//! Input and decision of a policy evaluation.

use crate::common::text::views;
use std::collections::HashMap;
use vstd::prelude::*;

verus! {

/// Policy evaluation input data.
#[derive(Debug, Clone)]
pub struct PolicyInput {
    /// User information.
    pub user: UserInfo,
    /// Command execution information.
    pub command: CommandInfo,
    /// File access information.
    pub file: Option<FileInfo>,
    /// Network access information.
    pub network: Option<NetworkInfo>,
    /// Resource limit information.
    pub resources: ResourceLimits,
    /// Context information (additional metadata).
    pub context: HashMap<String, serde_json::Value>,
}

/// User information.
#[derive(Debug, Clone)]
pub struct UserInfo {
    /// User ID.
    pub id: String,
    /// Tenant ID.
    pub tenant_id: String,
    /// List of roles.
    pub roles: Vec<String>,
    /// Additional attributes.
    pub attributes: HashMap<String, String>,
}

/// Command execution information.
#[derive(Debug, Clone)]
pub struct CommandInfo {
    /// Command name.
    pub name: String,
    /// Command arguments.
    pub args: Vec<String>,
    /// Working directory.
    pub cwd: String,
    /// Environment variables.
    pub env: HashMap<String, String>,
}

/// File access information.
#[derive(Debug, Clone)]
pub struct FileInfo {
    /// File path.
    pub path: String,
    /// Access mode ("read", "write", "execute").
    pub mode: String,
}

/// Network access information.
#[derive(Debug, Clone)]
pub struct NetworkInfo {
    /// Destination host.
    pub host: String,
    /// Destination port.
    pub port: u16,
    /// Protocol ("tcp", "https").
    pub protocol: String,
}

/// Resource limit information.
#[derive(Debug, Clone, Copy, PartialEq, Eq, Structural)]
pub struct ResourceLimits {
    /// CPU time limit (milliseconds).
    pub cpu_time_ms: Option<u64>,
    /// Memory usage limit (kilobytes).
    pub memory_kb: Option<u64>,
    /// File count limit.
    pub max_files: Option<u32>,
    /// Process count limit.
    pub max_processes: Option<u32>,
}

/// Policy evaluation decision result.
#[derive(Debug, Clone)]
pub struct PolicyDecision {
    /// Whether the action is allowed.
    pub allow: bool,
    /// Warning messages (allowed but with warnings).
    pub warnings: Vec<String>,
    /// Denial reasons (if rejected).
    pub reasons: Vec<String>,
    /// Additional metadata.
    pub metadata: HashMap<String, serde_json::Value>,
}

/// What a file request says.
pub struct FileView {
    pub path: Seq<char>,
    pub mode: Seq<char>,
}

/// What a network request says.
pub struct NetworkView {
    pub host: Seq<char>,
    pub port: u16,
    pub protocol: Seq<char>,
}

/// What the user part of a policy input says.
pub struct UserView {
    pub id: Seq<char>,
    pub tenant_id: Seq<char>,
    pub roles: Seq<Seq<char>>,
    pub attributes: Map<String, String>,
}

/// What the command part of a policy input says.
pub struct CommandView {
    pub name: Seq<char>,
    pub args: Seq<Seq<char>>,
    pub cwd: Seq<char>,
    pub env: Map<String, String>,
}

/// What a policy input says.
pub struct PolicyInputView {
    pub user: UserView,
    pub command: CommandView,
    pub file: Option<FileView>,
    pub network: Option<NetworkView>,
    pub resources: ResourceLimits,
    pub context: Map<String, serde_json::Value>,
}

/// What a decision says.
pub struct PolicyDecisionView {
    pub allow: bool,
    pub warnings: Seq<Seq<char>>,
    pub reasons: Seq<Seq<char>>,
    pub metadata: Map<String, serde_json::Value>,
}

impl View for FileInfo {
    type V = FileView;

    open spec fn view(&self) -> FileView {
        FileView { path: self.path@, mode: self.mode@ }
    }
}

impl View for NetworkInfo {
    type V = NetworkView;

    open spec fn view(&self) -> NetworkView {
        NetworkView { host: self.host@, port: self.port, protocol: self.protocol@ }
    }
}

impl View for UserInfo {
    type V = UserView;

    open spec fn view(&self) -> UserView {
        UserView {
            id: self.id@,
            tenant_id: self.tenant_id@,
            roles: views(self.roles@),
            attributes: self.attributes@,
        }
    }
}

impl View for CommandInfo {
    type V = CommandView;

    open spec fn view(&self) -> CommandView {
        CommandView {
            name: self.name@,
            args: views(self.args@),
            cwd: self.cwd@,
            env: self.env@,
        }
    }
}

impl View for PolicyInput {
    type V = PolicyInputView;

    open spec fn view(&self) -> PolicyInputView {
        PolicyInputView {
            user: self.user@,
            command: self.command@,
            resources: self.resources,
            context: self.context@,
            file: match self.file {
                Some(f) => Some(f@),
                None => None,
            },
            network: match self.network {
                Some(n) => Some(n@),
                None => None,
            },
        }
    }
}

impl View for PolicyDecision {
    type V = PolicyDecisionView;

    open spec fn view(&self) -> PolicyDecisionView {
        PolicyDecisionView {
            allow: self.allow,
            warnings: views(self.warnings@),
            reasons: views(self.reasons@),
            metadata: self.metadata@,
        }
    }
}

impl PolicyDecisionView {
    /// The decision that allows, with the given warnings.
    pub open spec fn allowed(warnings: Seq<Seq<char>>) -> PolicyDecisionView {
        PolicyDecisionView {
            allow: true,
            warnings,
            reasons: Seq::empty(),
            metadata: Map::empty(),
        }
    }

    /// The decision that denies, for the given reasons.
    pub open spec fn denied(reasons: Seq<Seq<char>>) -> PolicyDecisionView {
        PolicyDecisionView {
            allow: false,
            warnings: Seq::empty(),
            reasons,
            metadata: Map::empty(),
        }
    }
}

impl PolicyDecision {
    /// The decision that allows, with the given warnings.
    pub fn allowed(warnings: Vec<String>) -> (d: PolicyDecision)
        ensures
            d@ == PolicyDecisionView::allowed(views(warnings@)),
    {
        let d = PolicyDecision {
            allow: true,
            warnings,
            reasons: Vec::new(),
            metadata: HashMap::new(),
        };
        assert(views(d.reasons@) =~= Seq::empty());
        d
    }

    /// The decision that denies, for the given reasons.
    pub fn denied(reasons: Vec<String>) -> (d: PolicyDecision)
        ensures
            d@ == PolicyDecisionView::denied(views(reasons@)),
    {
        let d = PolicyDecision {
            allow: false,
            warnings: Vec::new(),
            reasons,
            metadata: HashMap::new(),
        };
        assert(views(d.warnings@) =~= Seq::empty());
        d
    }
}

impl Default for UserInfo {
    fn default() -> (u: UserInfo)
        ensures
            u.id@.len() == 0,
            u.tenant_id@.len() == 0,
            u.roles@.len() == 0,
            u.attributes@ == Map::<String, String>::empty(),
    {
        UserInfo {
            id: String::new(),
            tenant_id: String::new(),
            roles: Vec::new(),
            attributes: HashMap::new(),
        }
    }
}

impl Default for CommandInfo {
    fn default() -> (c: CommandInfo)
        ensures
            c.name@.len() == 0,
            c.args@.len() == 0,
            c.cwd@.len() == 0,
            c.env@ == Map::<String, String>::empty(),
    {
        CommandInfo {
            name: String::new(),
            args: Vec::new(),
            cwd: String::new(),
            env: HashMap::new(),
        }
    }
}

impl Default for ResourceLimits {
    fn default() -> (r: ResourceLimits)
        ensures
            r == (ResourceLimits {
                cpu_time_ms: None,
                memory_kb: None,
                max_files: None,
                max_processes: None,
            }),
    {
        ResourceLimits { cpu_time_ms: None, memory_kb: None, max_files: None, max_processes: None }
    }
}

} // verus!
