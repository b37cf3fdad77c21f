use mcp_security_gateway::common::error::{ErrorKind, McpError, McpResult};
use mcp_security_gateway::common::grpc::{Code, IntoStatus};
use mcp_security_gateway::policy::engine::{
    command_denial, file_denial, network_denial, policy_violation, EvalOutcome, OpaEvaluator,
    PolicyEngine, PolicyEvaluator, StubPolicyEvaluator,
};
use mcp_security_gateway::policy::models::{
    CommandInfo, FileInfo, NetworkInfo, PolicyDecision, PolicyInput, PolicyInputView,
    ResourceLimits, UserInfo,
};
use mcp_security_gateway::policy::opa::{decision_from_tree, parse_opa_result, JsonValue};
use std::collections::HashMap;

const BUILTIN_WARNING: &str = "Using stub policy engine, do not use in production environment";

fn command_input(name: &str, roles: &[&str]) -> PolicyInput {
    PolicyInput {
        user: UserInfo {
            id: "user1".to_string(),
            tenant_id: "tenant1".to_string(),
            roles: roles.iter().map(|r| r.to_string()).collect(),
            attributes: HashMap::new(),
        },
        command: CommandInfo {
            name: name.to_string(),
            args: vec!["-la".to_string()],
            cwd: "/workspace".to_string(),
            env: HashMap::new(),
        },
        file: None,
        network: None,
        resources: Default::default(),
        context: HashMap::new(),
    }
}

fn file_input(path: &str, mode: &str) -> PolicyInput {
    PolicyInput {
        user: UserInfo::default(),
        command: CommandInfo::default(),
        file: Some(FileInfo {
            path: path.to_string(),
            mode: mode.to_string(),
        }),
        network: None,
        resources: Default::default(),
        context: HashMap::new(),
    }
}

fn network_input(host: &str, port: u16, protocol: &str) -> PolicyInput {
    PolicyInput {
        user: UserInfo::default(),
        command: CommandInfo::default(),
        file: None,
        network: Some(NetworkInfo {
            host: host.to_string(),
            port,
            protocol: protocol.to_string(),
        }),
        resources: Default::default(),
        context: HashMap::new(),
    }
}

fn decide(input: &PolicyInput) -> PolicyDecision {
    StubPolicyEvaluator::default().evaluate(input).unwrap()
}

#[test]
fn test_stub_policy_evaluator() {
    let evaluator = StubPolicyEvaluator::default();

    let input_safe = PolicyInput {
        user: UserInfo {
            id: "user1".to_string(),
            tenant_id: "tenant1".to_string(),
            roles: vec!["user".to_string()],
            attributes: HashMap::new(),
        },
        command: CommandInfo {
            name: "ls".to_string(),
            args: vec!["-la".to_string()],
            cwd: "/workspace".to_string(),
            env: HashMap::new(),
        },
        file: None,
        network: None,
        resources: Default::default(),
        context: HashMap::new(),
    };

    let result_safe = evaluator.evaluate(&input_safe).unwrap();
    assert!(result_safe.allow);
    assert!(!result_safe.warnings.is_empty());

    let mut input_dangerous = input_safe.clone();
    input_dangerous.command.name = "rm".to_string();

    let result_dangerous = evaluator.evaluate(&input_dangerous).unwrap();
    assert!(!result_dangerous.allow);
    assert!(!result_dangerous.reasons.is_empty());
}

#[test]
fn test_policy_engine_with_stub() {
    let engine = PolicyEngine::new();

    let input_safe = PolicyInput {
        user: UserInfo {
            id: "user1".to_string(),
            tenant_id: "tenant1".to_string(),
            roles: vec!["user".to_string()],
            attributes: HashMap::new(),
        },
        command: CommandInfo {
            name: "ls".to_string(),
            args: vec!["-la".to_string()],
            cwd: "/workspace".to_string(),
            env: HashMap::new(),
        },
        file: None,
        network: None,
        resources: Default::default(),
        context: HashMap::new(),
    };

    let result_safe = engine.check_command_execution(&input_safe);
    assert!(result_safe.is_ok());

    let mut input_dangerous = input_safe.clone();
    input_dangerous.command.name = "rm".to_string();

    let result_dangerous = engine.check_command_execution(&input_dangerous);
    assert!(result_dangerous.is_err());
}

#[test]
fn test_file_access_policy() {
    let engine = PolicyEngine::new();

    let input_read_allowed = PolicyInput {
        user: UserInfo::default(),
        command: CommandInfo::default(),
        file: Some(FileInfo {
            path: "/workspace/data.txt".to_string(),
            mode: "read".to_string(),
        }),
        network: None,
        resources: Default::default(),
        context: HashMap::new(),
    };

    assert!(engine.check_file_access(&input_read_allowed).is_ok());

    let input_read_denied = PolicyInput {
        user: UserInfo::default(),
        command: CommandInfo::default(),
        file: Some(FileInfo {
            path: "/etc/passwd".to_string(),
            mode: "read".to_string(),
        }),
        network: None,
        resources: Default::default(),
        context: HashMap::new(),
    };

    assert!(engine.check_file_access(&input_read_denied).is_err());
}

#[test]
fn test_network_access_policy() {
    let engine = PolicyEngine::new();

    let input_network_allowed = PolicyInput {
        user: UserInfo::default(),
        command: CommandInfo::default(),
        file: None,
        network: Some(NetworkInfo {
            host: "api.example.com".to_string(),
            port: 443,
            protocol: "https".to_string(),
        }),
        resources: Default::default(),
        context: HashMap::new(),
    };

    assert!(engine.check_network_access(&input_network_allowed).is_ok());

    let input_network_denied = PolicyInput {
        user: UserInfo::default(),
        command: CommandInfo::default(),
        file: None,
        network: Some(NetworkInfo {
            host: "malicious.example.com".to_string(),
            port: 8888,
            protocol: "https".to_string(),
        }),
        resources: Default::default(),
        context: HashMap::new(),
    };

    assert!(engine.check_network_access(&input_network_denied).is_err());
}

#[test]
fn allowed_commands_pass_with_the_builtin_warning() {
    for name in ["ls", "echo", "cat", "grep", "find", "python", "python3", "node", "npm"] {
        let decision = decide(&command_input(name, &["user"]));
        assert!(decision.allow, "{}", name);
        assert_eq!(decision.warnings, vec![BUILTIN_WARNING.to_string()]);
        assert!(decision.reasons.is_empty());
        assert!(decision.metadata.is_empty());
    }
}

#[test]
fn dangerous_commands_are_denied_even_to_an_administrator() {
    for name in ["rm", "dd", "wget", "curl", "chmod", "chown", "sudo", "su"] {
        for roles in [vec!["user"], vec!["admin"], vec!["user", "admin"], vec![]] {
            let decision = decide(&command_input(name, &roles));
            assert!(!decision.allow, "{}", name);
            assert_eq!(
                decision.reasons,
                vec![format!("Command '{}' is forbidden as it is dangerous", name)]
            );
            assert!(decision.warnings.is_empty());
        }
    }
}

#[test]
fn other_commands_need_the_admin_role() {
    let decision = decide(&command_input("make", &["user"]));
    assert!(!decision.allow);
    assert_eq!(decision.reasons, vec!["Command 'make' is not in the allowed list".to_string()]);

    let decision = decide(&command_input("make", &["user", "admin"]));
    assert!(decision.allow);
    assert_eq!(
        decision.warnings,
        vec![
            "Executing as administrator. All operations are audited.".to_string(),
            BUILTIN_WARNING.to_string()
        ]
    );
    assert!(decision.reasons.is_empty());

    let decision = decide(&command_input("ls", &["admin"]));
    assert!(decision.allow);
    assert_eq!(decision.warnings.len(), 2);

    // a role is the whole word, and names are matched exactly
    assert!(!decide(&command_input("make", &["administrator"])).allow);
    assert!(!decide(&command_input("make", &["Admin"])).allow);
    assert!(!decide(&command_input("LS", &["user"])).allow);
    assert!(!decide(&command_input("ls ", &["user"])).allow);
    assert!(!decide(&command_input("rmdir", &["user"])).allow);
    assert_eq!(
        decide(&command_input("rmdir", &["user"])).reasons,
        vec!["Command 'rmdir' is not in the allowed list".to_string()]
    );
}

#[test]
fn file_rules_follow_the_prefixes() {
    let allowed = [
        ("/workspace/data.txt", "read"),
        ("/tmp/x", "read"),
        ("/data/public/set.csv", "read"),
        ("/workspace/out.txt", "write"),
        ("/tmp/out.txt", "write"),
        ("/workspace/bin/tool", "execute"),
        ("/usr/bin/env", "execute"),
        ("/bin/sh", "execute"),
        ("/workspace/", "read"),
    ];
    for (path, mode) in allowed {
        let decision = decide(&file_input(path, mode));
        assert!(decision.allow, "{} {}", mode, path);
        assert!(decision.reasons.is_empty());
        if mode == "write" {
            assert_eq!(
                decision.warnings,
                vec![
                    "File write operations are audited".to_string(),
                    BUILTIN_WARNING.to_string()
                ]
            );
        } else {
            assert_eq!(decision.warnings, vec![BUILTIN_WARNING.to_string()]);
        }
    }

    let not_allowed = [
        ("/data/public/set.csv", "write"),
        ("/workspace/tool", "execute"),
        ("/usr/bin/env", "read"),
        ("/workspace", "read"),
        ("workspace/data.txt", "read"),
        ("/workspace/data.txt", "delete"),
        ("/workspace/data.txt", "READ"),
        ("/workspace/data.txt", ""),
        ("", "read"),
        ("/opt/x", "read"),
    ];
    for (path, mode) in not_allowed {
        let decision = decide(&file_input(path, mode));
        assert!(!decision.allow, "{} {}", mode, path);
        assert_eq!(
            decision.reasons,
            vec![format!("'{}' access to path '{}' is not allowed", mode, path)]
        );
        assert!(decision.warnings.is_empty());
    }

    for path in ["/etc/passwd", "/var/log/x", "/root/.ssh/id", "/home/user/x", "/etc/"] {
        for mode in ["read", "write", "execute", "other"] {
            let decision = decide(&file_input(path, mode));
            assert!(!decision.allow);
            assert_eq!(
                decision.reasons,
                vec![format!("Access to path '{}' is forbidden", path)]
            );
        }
    }
    // the prefix ends in a separator: /etc itself is not under /etc/
    assert_eq!(
        decide(&file_input("/etc", "read")).reasons,
        vec!["'read' access to path '/etc' is not allowed".to_string()]
    );
}

#[test]
fn network_rules_name_each_axis_that_fails() {
    for host in ["api.example.com", "cdn.example.com", "data.example.com"] {
        for port in [80u16, 443, 8080] {
            for protocol in ["tcp", "https"] {
                let decision = decide(&network_input(host, port, protocol));
                assert!(decision.allow);
                assert_eq!(
                    decision.warnings,
                    vec![
                        "Network requests are audited".to_string(),
                        BUILTIN_WARNING.to_string()
                    ]
                );
                assert!(decision.reasons.is_empty());
            }
        }
    }

    let decision = decide(&network_input("malicious.example.com", 8888, "https"));
    assert!(!decision.allow);
    assert_eq!(
        decision.reasons,
        vec![
            "Access to host 'malicious.example.com' is not allowed".to_string(),
            "Access to port 8888 is not allowed".to_string(),
        ]
    );

    let decision = decide(&network_input("malicious.example.com", 8888, "udp"));
    assert_eq!(
        decision.reasons,
        vec![
            "Access to host 'malicious.example.com' is not allowed".to_string(),
            "Access to port 8888 is not allowed".to_string(),
            "Use of protocol 'udp' is not allowed".to_string(),
        ]
    );

    let decision = decide(&network_input("api.example.com", 0, "tcp"));
    assert_eq!(decision.reasons, vec!["Access to port 0 is not allowed".to_string()]);
    let decision = decide(&network_input("api.example.com", 65535, "tcp"));
    assert_eq!(decision.reasons, vec!["Access to port 65535 is not allowed".to_string()]);
    let decision = decide(&network_input("api.example.com", 443, "http"));
    assert_eq!(decision.reasons, vec!["Use of protocol 'http' is not allowed".to_string()]);
    let decision = decide(&network_input("API.example.com", 443, "https"));
    assert_eq!(
        decision.reasons,
        vec!["Access to host 'API.example.com' is not allowed".to_string()]
    );
}

#[test]
fn the_first_denial_decides() {
    // an allowed command does not open a denied file
    let mut input = file_input("/etc/passwd", "read");
    input.command.name = "ls".to_string();
    input.user.roles = vec!["user".to_string()];
    let decision = decide(&input);
    assert!(!decision.allow);
    assert_eq!(decision.reasons, vec!["Access to path '/etc/passwd' is forbidden".to_string()]);
    assert!(decision.warnings.is_empty());

    // the command is looked at before the file
    let mut input = file_input("/etc/passwd", "read");
    input.command.name = "rm".to_string();
    let decision = decide(&input);
    assert_eq!(
        decision.reasons,
        vec!["Command 'rm' is forbidden as it is dangerous".to_string()]
    );

    let mut input = file_input("/workspace/data.txt", "read");
    input.command.name = "rm".to_string();
    assert!(!decide(&input).allow);

    // an allowed file does not open a denied destination
    let mut input = network_input("malicious.example.com", 1, "udp");
    input.file = Some(FileInfo { path: "/tmp/x".to_string(), mode: "read".to_string() });
    let decision = decide(&input);
    assert!(!decision.allow);
    assert_eq!(decision.reasons.len(), 3);

    // the file is looked at before the destination
    let mut input = network_input("malicious.example.com", 1, "udp");
    input.file = Some(FileInfo { path: "/etc/x".to_string(), mode: "read".to_string() });
    let decision = decide(&input);
    assert!(!decision.allow);
    assert_eq!(decision.reasons, vec!["Access to path '/etc/x' is forbidden".to_string()]);

    let mut input = network_input("api.example.com", 443, "https");
    input.file = Some(FileInfo { path: "/etc/x".to_string(), mode: "read".to_string() });
    let decision = decide(&input);
    assert!(!decision.allow);
    assert_eq!(decision.reasons, vec!["Access to path '/etc/x' is forbidden".to_string()]);

    let mut input = network_input("api.example.com", 81, "https");
    input.command.name = "echo".to_string();
    let decision = decide(&input);
    assert_eq!(decision.reasons, vec!["Access to port 81 is not allowed".to_string()]);
}

#[test]
fn a_request_of_which_nothing_is_denied_is_allowed_with_every_warning() {
    let mut input = network_input("api.example.com", 443, "https");
    input.command.name = "ls".to_string();
    input.user.roles = vec!["admin".to_string()];
    input.file = Some(FileInfo { path: "/tmp/x".to_string(), mode: "write".to_string() });
    let decision = decide(&input);
    assert!(decision.allow);
    assert!(decision.reasons.is_empty());
    assert_eq!(
        decision.warnings,
        vec![
            "Executing as administrator. All operations are audited.".to_string(),
            BUILTIN_WARNING.to_string(),
            "File write operations are audited".to_string(),
            BUILTIN_WARNING.to_string(),
            "Network requests are audited".to_string(),
            BUILTIN_WARNING.to_string(),
        ]
    );

    let mut input = file_input("/workspace/data.txt", "read");
    input.command.name = "cat".to_string();
    let decision = decide(&input);
    assert!(decision.allow);
    assert_eq!(decision.warnings, vec![BUILTIN_WARNING.to_string(), BUILTIN_WARNING.to_string()]);
    let engine = PolicyEngine::new();
    assert!(engine.check_command_execution(&input).is_ok());
    assert!(engine.check_file_access(&input).is_ok());
}

#[test]
fn a_request_that_names_nothing_is_allowed_with_a_warning() {
    let input = PolicyInput {
        user: UserInfo::default(),
        command: CommandInfo::default(),
        file: None,
        network: None,
        resources: ResourceLimits::default(),
        context: HashMap::new(),
    };
    let decision = decide(&input);
    assert!(decision.allow);
    assert_eq!(
        decision.warnings,
        vec!["Unknown request type. Would be denied in production environment.".to_string()]
    );
    assert!(decision.reasons.is_empty());
    let engine = PolicyEngine::new();
    assert!(engine.check_command_execution(&input).is_ok());
    assert!(engine.check_file_access(&input).is_ok());
    assert!(engine.check_network_access(&input).is_ok());
}

#[test]
fn denied_decisions_give_reasons_and_allowed_ones_give_none() {
    let mut inputs = Vec::new();
    for name in ["", "ls", "rm", "make", "echo", "su", "sudo"] {
        for roles in [vec![], vec!["user"], vec!["admin"]] {
            inputs.push(command_input(name, &roles));
        }
    }
    for path in ["", "/etc/x", "/tmp/x", "/workspace/bin/x", "/opt"] {
        for mode in ["read", "write", "execute", "x"] {
            inputs.push(file_input(path, mode));
        }
    }
    for host in ["api.example.com", "other"] {
        for port in [80u16, 81] {
            for protocol in ["tcp", "udp"] {
                inputs.push(network_input(host, port, protocol));
            }
        }
    }
    for input in inputs {
        let decision = decide(&input);
        if decision.allow {
            assert!(decision.reasons.is_empty());
        } else {
            assert!(!decision.reasons.is_empty());
        }
    }
}

#[test]
fn a_denied_command_is_a_policy_violation_with_its_reasons() {
    let engine = PolicyEngine::new();
    let mut input = command_input("rm", &["user"]);
    input.command.args = vec!["-rf".to_string(), "/".to_string()];
    let error = engine.check_command_execution(&input).unwrap_err();
    assert_eq!(error.kind(), ErrorKind::PolicyViolation);
    assert_eq!(
        error.text(),
        "Command 'rm' execution was denied by policy: Command 'rm' is forbidden as it is dangerous"
    );
    assert_eq!(error.code(), 3001);
    assert_eq!(error.into_status().code(), Code::PermissionDenied);

    let decision = decide(&input);
    let denial = command_denial(&input, &decision);
    assert_eq!(denial.code, 3001);
    assert_eq!(
        denial.message,
        "Command 'rm' execution was denied by policy: Command 'rm' is forbidden as it is dangerous"
    );
    let details = denial.details.as_object().unwrap();
    assert_eq!(details.len(), 4);
    assert_eq!(details["command"], serde_json::Value::String("rm".to_string()));
    assert_eq!(
        details["reasons"],
        serde_json::Value::Array(vec![serde_json::Value::String(
            "Command 'rm' is forbidden as it is dangerous".to_string()
        )])
    );
    assert_eq!(details["user_id"], serde_json::Value::String("user1".to_string()));
    assert_eq!(details["tenant_id"], serde_json::Value::String("tenant1".to_string()));
}

#[test]
fn a_denied_file_access_is_a_policy_violation_with_code_3003() {
    let engine = PolicyEngine::new();
    let input = file_input("/etc/passwd", "read");
    let error = engine.check_file_access(&input).unwrap_err();
    assert_eq!(error.kind(), ErrorKind::PolicyViolation);
    assert_eq!(
        error.text(),
        "read access to file '/etc/passwd' was denied by policy: Access to path '/etc/passwd' is forbidden"
    );
    assert_eq!(error.code(), 3003);

    let decision = decide(&input);
    assert!(decision.reasons.contains(&"Access to path '/etc/passwd' is forbidden".to_string()));
    let denial = file_denial(&input, input.file.as_ref().unwrap(), &decision);
    assert_eq!(denial.code, 3003);
    let details = denial.details.as_object().unwrap();
    assert_eq!(details.len(), 5);
    assert_eq!(details["tenant_id"], serde_json::Value::String(String::new()));
    assert_eq!(details["path"], serde_json::Value::String("/etc/passwd".to_string()));
    assert_eq!(details["mode"], serde_json::Value::String("read".to_string()));
    assert_eq!(details["reasons"].as_array().unwrap().len(), 1);
    assert_eq!(details["user_id"], serde_json::Value::String(String::new()));
}

#[test]
fn a_file_read_in_the_workspace_is_allowed_with_warnings() {
    let engine = PolicyEngine::new();
    let input = file_input("/workspace/data.txt", "read");
    assert!(engine.check_file_access(&input).is_ok());
    assert!(!decide(&input).warnings.is_empty());
}

#[test]
fn a_denied_network_access_names_host_port_and_protocol() {
    let engine = PolicyEngine::new();
    let input = network_input("malicious.example.com", 8888, "ftp");
    let error = engine.check_network_access(&input).unwrap_err();
    assert_eq!(error.kind(), ErrorKind::PolicyViolation);
    assert_eq!(
        error.text(),
        "ftp access to host 'malicious.example.com:8888' was denied by policy: \
         Access to host 'malicious.example.com' is not allowed, \
         Access to port 8888 is not allowed, \
         Use of protocol 'ftp' is not allowed"
    );
    let decision = decide(&input);
    assert_eq!(decision.reasons.len(), 3);
    let denial = network_denial(&input, input.network.as_ref().unwrap(), &decision);
    assert_eq!(denial.code, 3002);
    let details = denial.details.as_object().unwrap();
    assert_eq!(details.len(), 6);
    assert_eq!(details["user_id"], serde_json::Value::String(String::new()));
    assert_eq!(details["tenant_id"], serde_json::Value::String(String::new()));
    assert_eq!(details["host"], serde_json::Value::String("malicious.example.com".to_string()));
    assert_eq!(details["port"], serde_json::Value::from(8888u64));
    assert_eq!(details["protocol"], serde_json::Value::String("ftp".to_string()));
    assert_eq!(details["reasons"].as_array().unwrap().len(), 3);

    let allowed = network_input("api.example.com", 443, "https");
    assert!(engine.check_network_access(&allowed).is_ok());
}

struct Silent;

impl PolicyEvaluator for Silent {
    fn outcome(&self, _input: PolicyInputView) -> EvalOutcome {
        unreachable!()
    }

    fn evaluate(&self, _input: &PolicyInput) -> McpResult<PolicyDecision> {
        Ok(PolicyDecision {
            allow: false,
            warnings: vec![],
            reasons: vec![],
            metadata: HashMap::new(),
        })
    }
}

struct Broken;

impl PolicyEvaluator for Broken {
    fn outcome(&self, _input: PolicyInputView) -> EvalOutcome {
        unreachable!()
    }

    fn evaluate(&self, _input: &PolicyInput) -> McpResult<PolicyDecision> {
        Err(McpError::Internal("Failed to serialize input: cycle".to_string()))
    }
}

#[test]
fn a_denial_without_reasons_has_a_message_without_a_colon() {
    let engine = PolicyEngine::with_evaluator(Silent);
    let error = engine.check_command_execution(&command_input("ls", &["user"])).unwrap_err();
    assert_eq!(error.text(), "Command 'ls' execution was denied by policy");
    let error = engine.check_file_access(&file_input("/tmp/x", "read")).unwrap_err();
    assert_eq!(error.text(), "read access to file '/tmp/x' was denied by policy");
    let error = engine
        .check_network_access(&network_input("api.example.com", 443, "https"))
        .unwrap_err();
    assert_eq!(
        error.text(),
        "https access to host 'api.example.com:443' was denied by policy"
    );
    // without a file or a destination nothing is evaluated
    assert!(engine.check_file_access(&command_input("ls", &[])).is_ok());
    assert!(engine.check_network_access(&command_input("ls", &[])).is_ok());
}

#[test]
fn a_failure_of_the_evaluator_is_handed_on() {
    let engine = PolicyEngine::with_evaluator(Broken);
    let error = engine.check_command_execution(&command_input("ls", &["user"])).unwrap_err();
    assert!(matches!(&error, McpError::Internal(m) if m == "Failed to serialize input: cycle"));
    let error = engine.check_file_access(&file_input("/tmp/x", "read")).unwrap_err();
    assert_eq!(error.kind(), ErrorKind::Internal);
    let error = engine
        .check_network_access(&network_input("api.example.com", 443, "https"))
        .unwrap_err();
    assert_eq!(error.kind(), ErrorKind::Internal);
}

#[test]
fn the_external_engine_slot_allows_with_a_warning() {
    let evaluator = OpaEvaluator::new(&[0u8, 1, 2], "data.mcp.allow").unwrap();
    assert_eq!(evaluator.query_path, "data.mcp.allow");
    let decision = evaluator.evaluate(&command_input("rm", &["user"])).unwrap();
    assert!(decision.allow);
    assert_eq!(
        decision.warnings,
        vec!["OPA WASM evaluation is a stub implementation.".to_string()]
    );
    assert!(decision.reasons.is_empty());
    let engine = PolicyEngine::with_evaluator(evaluator);
    assert!(engine.check_command_execution(&command_input("rm", &["user"])).is_ok());
}

#[test]
fn a_review_gives_the_denial_or_nothing() {
    let engine = PolicyEngine::new();
    assert!(engine.review_command_execution(&command_input("ls", &["user"])).unwrap().is_none());
    let denial =
        engine.review_command_execution(&command_input("rm", &["user"])).unwrap().unwrap();
    assert_eq!(denial.code, 3001);
    assert_eq!(
        denial.message,
        "Command 'rm' execution was denied by policy: Command 'rm' is forbidden as it is dangerous"
    );
    assert_eq!(denial.details["command"], serde_json::Value::String("rm".to_string()));

    assert!(engine.review_file_access(&file_input("/tmp/x", "read")).unwrap().is_none());
    assert!(engine.review_file_access(&command_input("", &[])).unwrap().is_none());
    let denial = engine.review_file_access(&file_input("/etc/x", "write")).unwrap().unwrap();
    assert_eq!(denial.code, 3003);
    assert_eq!(
        denial.message,
        "write access to file '/etc/x' was denied by policy: Access to path '/etc/x' is forbidden"
    );

    assert!(engine
        .review_network_access(&network_input("api.example.com", 80, "tcp"))
        .unwrap()
        .is_none());
    assert!(engine.review_network_access(&command_input("", &[])).unwrap().is_none());
    let denial =
        engine.review_network_access(&network_input("x", 80, "tcp")).unwrap().unwrap();
    assert_eq!(denial.code, 3002);
    assert_eq!(
        denial.message,
        "tcp access to host 'x:80' was denied by policy: Access to host 'x' is not allowed"
    );

    let broken = PolicyEngine::with_evaluator(Broken);
    assert!(broken.review_command_execution(&command_input("ls", &[])).is_err());
    assert!(broken.review_file_access(&file_input("/tmp/x", "read")).is_err());
    assert!(broken.review_network_access(&network_input("x", 80, "tcp")).is_err());
}

#[test]
fn policy_violation_keeps_only_the_message() {
    let e = policy_violation(3002, "denied".to_string(), Some(serde_json::Value::Null));
    assert!(matches!(&e, McpError::PolicyViolation(m) if m == "denied"));
}

fn object(fields: Vec<(&str, JsonValue)>) -> JsonValue {
    JsonValue::Object(fields.into_iter().map(|(k, v)| (k.to_string(), v)).collect())
}

fn text(t: &str) -> JsonValue {
    JsonValue::Text(t.to_string())
}

#[test]
fn an_answer_of_the_external_engine_becomes_a_decision() {
    let answer = object(vec![
        ("allow", JsonValue::Bool(true)),
        ("warnings", JsonValue::Array(vec![text("audited"), JsonValue::Null, text("slow")])),
        ("reasons", JsonValue::Array(vec![])),
        (
            "metadata",
            object(vec![
                ("rule", text("r1")),
                ("weight", JsonValue::Number("3".to_string())),
                ("owner", text("ops")),
            ]),
        ),
        ("other", text("ignored")),
    ]);
    let decision = decision_from_tree(&answer);
    assert!(decision.allow);
    assert_eq!(decision.warnings, vec!["audited".to_string(), "slow".to_string()]);
    assert!(decision.reasons.is_empty());
    assert_eq!(decision.metadata.len(), 2);
    assert_eq!(decision.metadata["rule"], serde_json::Value::String("r1".to_string()));
    assert_eq!(decision.metadata["owner"], serde_json::Value::String("ops".to_string()));

    let answer = object(vec![
        ("allow", JsonValue::Bool(false)),
        ("reasons", JsonValue::Array(vec![text("no"), JsonValue::Bool(true), text("never")])),
    ]);
    let decision = decision_from_tree(&answer);
    assert!(!decision.allow);
    assert_eq!(decision.reasons, vec!["no".to_string(), "never".to_string()]);
    assert!(decision.warnings.is_empty());
    assert!(decision.metadata.is_empty());
}

#[test]
fn an_answer_that_cannot_be_read_denies() {
    for answer in [
        JsonValue::Null,
        JsonValue::Bool(true),
        text("allow"),
        JsonValue::Number("1".to_string()),
        JsonValue::Array(vec![JsonValue::Bool(true)]),
        object(vec![]),
        object(vec![("allow", text("true"))]),
        object(vec![("allow", JsonValue::Number("1".to_string()))]),
        object(vec![("Allow", JsonValue::Bool(true))]),
        object(vec![("warnings", text("w")), ("reasons", object(vec![])), ("metadata", text("m"))]),
        object(vec![("metadata", object(vec![("n", JsonValue::Null)]))]),
    ] {
        let decision = decision_from_tree(&answer);
        assert!(!decision.allow);
        assert!(decision.warnings.is_empty());
        assert!(decision.reasons.is_empty());
        assert!(decision.metadata.is_empty());
    }
    // the first field with a key counts
    let answer = object(vec![("allow", JsonValue::Bool(true)), ("allow", JsonValue::Bool(false))]);
    assert!(decision_from_tree(&answer).allow);
}

fn tree(doc: &serde_json::Value) -> JsonValue {
    match doc {
        serde_json::Value::Null => JsonValue::Null,
        serde_json::Value::Bool(flag) => JsonValue::Bool(*flag),
        serde_json::Value::Number(number) => JsonValue::Number(number.to_string()),
        serde_json::Value::String(t) => JsonValue::Text(t.clone()),
        serde_json::Value::Array(items) => JsonValue::Array(items.iter().map(tree).collect()),
        serde_json::Value::Object(fields) => {
            JsonValue::Object(fields.iter().map(|(k, v)| (k.clone(), tree(v))).collect())
        }
    }
}

#[test]
fn a_document_of_the_external_engine_is_read_as_a_tree() {
    let doc: serde_json::Value = serde_json::from_str(
        r#"{"allow": true, "warnings": ["w1", 2, "w2"], "reasons": [],
            "metadata": {"rule": "r1", "n": 1, "nested": {"a": "b"}}}"#,
    )
    .unwrap();
    let decision = parse_opa_result(tree(&doc)).unwrap();
    assert!(decision.allow);
    assert_eq!(decision.warnings, vec!["w1".to_string(), "w2".to_string()]);
    assert!(decision.reasons.is_empty());
    assert_eq!(decision.metadata.len(), 1);
    assert_eq!(decision.metadata["rule"], serde_json::Value::String("r1".to_string()));

    let doc: serde_json::Value =
        serde_json::from_str(r#"{"allow": false, "reasons": ["denied by rule 7"]}"#).unwrap();
    let decision = parse_opa_result(tree(&doc)).unwrap();
    assert!(!decision.allow);
    assert_eq!(decision.reasons, vec!["denied by rule 7".to_string()]);

    for raw in ["null", "true", "[1, 2]", "\"text\"", "12.5", "{}"] {
        let doc: serde_json::Value = serde_json::from_str(raw).unwrap();
        let decision = parse_opa_result(tree(&doc)).unwrap();
        assert!(!decision.allow);
        assert!(decision.reasons.is_empty());
    }
}
