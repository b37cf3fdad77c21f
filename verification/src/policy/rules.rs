//! The built-in rule set, as mathematical functions of the request.

use crate::common::text::decimal;
use crate::policy::models::{FileView, NetworkView, PolicyDecisionView, PolicyInputView};
use vstd::prelude::*;

verus! {

/// Commands that any user may run.
pub open spec fn is_allowed_command(name: Seq<char>) -> bool {
    ||| name == "ls"@
    ||| name == "echo"@
    ||| name == "cat"@
    ||| name == "grep"@
    ||| name == "find"@
    ||| name == "python"@
    ||| name == "python3"@
    ||| name == "node"@
    ||| name == "npm"@
}

/// Commands that nobody may run.
pub open spec fn is_dangerous_command(name: Seq<char>) -> bool {
    ||| name == "rm"@
    ||| name == "dd"@
    ||| name == "wget"@
    ||| name == "curl"@
    ||| name == "chmod"@
    ||| name == "chown"@
    ||| name == "sudo"@
    ||| name == "su"@
}

/// The user holds the role `admin`.
pub open spec fn is_admin(roles: Seq<Seq<char>>) -> bool {
    roles.contains("admin"@)
}

/// The warning attached to every decision of the built-in rule set.
pub open spec fn builtin_warning() -> Seq<char> {
    "Using stub policy engine, do not use in production environment"@
}

/// The decision on a command: a dangerous command is denied whoever asks;
/// otherwise a command on the allowed list, or any command of an
/// administrator, is allowed; everything else is denied.
pub open spec fn command_decision(name: Seq<char>, roles: Seq<Seq<char>>) -> PolicyDecisionView {
    if is_dangerous_command(name) {
        PolicyDecisionView::denied(
            seq!["Command '"@ + name + "' is forbidden as it is dangerous"@],
        )
    } else if is_allowed_command(name) || is_admin(roles) {
        if is_admin(roles) {
            PolicyDecisionView::allowed(
                seq![
                    "Executing as administrator. All operations are audited."@,
                    builtin_warning(),
                ],
            )
        } else {
            PolicyDecisionView::allowed(seq![builtin_warning()])
        }
    } else {
        PolicyDecisionView::denied(seq!["Command '"@ + name + "' is not in the allowed list"@])
    }
}

/// Paths that are denied whatever the mode.
pub open spec fn is_denied_path(path: Seq<char>) -> bool {
    ||| "/etc/"@.is_prefix_of(path)
    ||| "/var/"@.is_prefix_of(path)
    ||| "/root/"@.is_prefix_of(path)
    ||| "/home/"@.is_prefix_of(path)
}

/// Paths that may be read.
pub open spec fn is_readable_path(path: Seq<char>) -> bool {
    ||| "/workspace/"@.is_prefix_of(path)
    ||| "/tmp/"@.is_prefix_of(path)
    ||| "/data/public/"@.is_prefix_of(path)
}

/// Paths that may be written.
pub open spec fn is_writable_path(path: Seq<char>) -> bool {
    ||| "/workspace/"@.is_prefix_of(path)
    ||| "/tmp/"@.is_prefix_of(path)
}

/// Paths that may be executed.
pub open spec fn is_executable_path(path: Seq<char>) -> bool {
    ||| "/workspace/bin/"@.is_prefix_of(path)
    ||| "/usr/bin/"@.is_prefix_of(path)
    ||| "/bin/"@.is_prefix_of(path)
}

/// The mode is one of read, write, execute and the path lies under a
/// prefix that the mode admits.
pub open spec fn mode_admits(mode: Seq<char>, path: Seq<char>) -> bool {
    if mode == "read"@ {
        is_readable_path(path)
    } else if mode == "write"@ {
        is_writable_path(path)
    } else if mode == "execute"@ {
        is_executable_path(path)
    } else {
        false
    }
}

/// The decision on a file access.
pub open spec fn file_decision(file: FileView) -> PolicyDecisionView {
    if is_denied_path(file.path) {
        PolicyDecisionView::denied(seq!["Access to path '"@ + file.path + "' is forbidden"@])
    } else if mode_admits(file.mode, file.path) {
        if file.mode == "write"@ {
            PolicyDecisionView::allowed(
                seq!["File write operations are audited"@, builtin_warning()],
            )
        } else {
            PolicyDecisionView::allowed(seq![builtin_warning()])
        }
    } else {
        PolicyDecisionView::denied(
            seq!["'"@ + file.mode + "' access to path '"@ + file.path + "' is not allowed"@],
        )
    }
}

/// Hosts that may be reached.
pub open spec fn is_allowed_host(host: Seq<char>) -> bool {
    ||| host == "api.example.com"@
    ||| host == "cdn.example.com"@
    ||| host == "data.example.com"@
}

/// Ports that may be reached.
pub open spec fn is_allowed_port(port: u16) -> bool {
    port == 80 || port == 443 || port == 8080
}

/// Protocols that may be used.
pub open spec fn is_allowed_protocol(protocol: Seq<char>) -> bool {
    protocol == "tcp"@ || protocol == "https"@
}

/// One reason for each axis of a network request that is not allowed, in
/// the order host, port, protocol.
pub open spec fn network_reasons(net: NetworkView) -> Seq<Seq<char>> {
    let host = if is_allowed_host(net.host) {
        Seq::<Seq<char>>::empty()
    } else {
        seq!["Access to host '"@ + net.host + "' is not allowed"@]
    };
    let port = if is_allowed_port(net.port) {
        Seq::<Seq<char>>::empty()
    } else {
        seq!["Access to port "@ + decimal(net.port as nat) + " is not allowed"@]
    };
    let protocol = if is_allowed_protocol(net.protocol) {
        Seq::<Seq<char>>::empty()
    } else {
        seq!["Use of protocol '"@ + net.protocol + "' is not allowed"@]
    };
    host + port + protocol
}

/// The decision on a network access: host, port and protocol must all be
/// allowed.
pub open spec fn network_decision(net: NetworkView) -> PolicyDecisionView {
    if is_allowed_host(net.host) && is_allowed_port(net.port) && is_allowed_protocol(
        net.protocol,
    ) {
        PolicyDecisionView::allowed(seq!["Network requests are audited"@, builtin_warning()])
    } else {
        PolicyDecisionView::denied(network_reasons(net))
    }
}

/// The decision on the command of a request; none where the request names
/// no command.
pub open spec fn command_part(input: PolicyInputView) -> Option<PolicyDecisionView> {
    if input.command.name.len() > 0 {
        Some(command_decision(input.command.name, input.user.roles))
    } else {
        None
    }
}

/// The decision on the file of a request; none where the request names no
/// file.
pub open spec fn file_part(input: PolicyInputView) -> Option<PolicyDecisionView> {
    match input.file {
        Some(file) => Some(file_decision(file)),
        None => None,
    }
}

/// The decision on the destination of a request; none where the request
/// names no destination.
pub open spec fn network_part(input: PolicyInputView) -> Option<PolicyDecisionView> {
    match input.network {
        Some(net) => Some(network_decision(net)),
        None => None,
    }
}

/// A dimension of the request is named and denied.
pub open spec fn denies(part: Option<PolicyDecisionView>) -> bool {
    part is Some && !part->0.allow
}

/// The warnings of a dimension; none where the dimension is not named.
pub open spec fn warnings_of(part: Option<PolicyDecisionView>) -> Seq<Seq<char>> {
    match part {
        Some(decision) => decision.warnings,
        None => Seq::empty(),
    }
}

/// The decision of the built-in rule set. The command is looked at first,
/// then the file, then the network, each only where the request names it.
/// The first denial is the decision. A request of which nothing is denied
/// is allowed, with the warnings of every dimension that it names, in that
/// order. A request that names none is allowed with a warning of its own.
pub open spec fn builtin_decision(input: PolicyInputView) -> PolicyDecisionView {
    if denies(command_part(input)) {
        command_part(input)->0
    } else if denies(file_part(input)) {
        file_part(input)->0
    } else if denies(network_part(input)) {
        network_part(input)->0
    } else if command_part(input) is None && file_part(input) is None && network_part(input)
        is None {
        PolicyDecisionView::allowed(
            seq!["Unknown request type. Would be denied in production environment."@],
        )
    } else {
        PolicyDecisionView::allowed(
            warnings_of(command_part(input)) + warnings_of(file_part(input)) + warnings_of(
                network_part(input),
            ),
        )
    }
}

/// A denial in any dimension that the request names denies the request: an
/// allowed command does not open a denied file, nor an allowed file a
/// denied destination.
pub proof fn lemma_any_denial_denies(input: PolicyInputView)
    ensures
        denies(command_part(input)) || denies(file_part(input)) || denies(network_part(input))
            <==> !builtin_decision(input).allow,
{
}

/// A request that names one dimension alone gets the decision of that
/// dimension.
pub proof fn lemma_single_dimension(input: PolicyInputView)
    ensures
        file_part(input) is None && network_part(input) is None && command_part(input) is Some
            ==> builtin_decision(input) == command_part(input)->0,
        command_part(input) is None && network_part(input) is None && file_part(input) is Some
            ==> builtin_decision(input) == file_part(input)->0,
        command_part(input) is None && file_part(input) is None && network_part(input) is Some
            ==> builtin_decision(input) == network_part(input)->0,
{
    let c = command_part(input);
    let f = file_part(input);
    let n = network_part(input);
    assert(warnings_of(c) + Seq::<Seq<char>>::empty() + Seq::<Seq<char>>::empty() =~= warnings_of(
        c,
    ));
    assert(Seq::<Seq<char>>::empty() + warnings_of(f) + Seq::<Seq<char>>::empty() =~= warnings_of(
        f,
    ));
    assert(Seq::<Seq<char>>::empty() + Seq::<Seq<char>>::empty() + warnings_of(n) =~= warnings_of(
        n,
    ));
}

/// Every decision of the built-in rule set that denies gives at least one
/// reason.
pub proof fn lemma_denied_has_reasons(input: PolicyInputView)
    ensures
        !builtin_decision(input).allow ==> builtin_decision(input).reasons.len() > 0,
{
}

/// Every decision of the built-in rule set that allows gives no reason.
pub proof fn lemma_allowed_has_no_reasons(input: PolicyInputView)
    ensures
        builtin_decision(input).allow ==> builtin_decision(input).reasons.len() == 0,
{
}

/// A dangerous command is denied even to an administrator.
pub proof fn lemma_dangerous_overrides_admin(name: Seq<char>, roles: Seq<Seq<char>>)
    requires
        is_dangerous_command(name),
    ensures
        !command_decision(name, roles).allow,
{
}

} // verus!
