//! Composition of the command line of the isolation launcher.

use crate::common::text::{push_text, push_texts, views};
use crate::sandbox::models::{NetworkAccess, NetworkAccessView, SandboxConfig, SandboxConfigView};
use vstd::prelude::*;

verus! {

/// Wrapper of the isolation launcher `bwrap`.
#[derive(Debug, Clone)]
pub struct BubblewrapWrapper {
    pub bwrap_path: String,
}

/// A program and the arguments it is started with.
#[derive(Debug, Clone)]
pub struct CommandLine {
    pub program: String,
    pub args: Vec<String>,
}

/// `path` leads to a file called `name`: it is `name` itself, or it ends
/// with a separator and `name`.
pub open spec fn leads_to(path: Seq<char>, name: Seq<char>) -> bool {
    name.is_suffix_of(path) && (path.len() == name.len() || path[path.len() - name.len() - 1]
        == '/')
}

/// Looks for an executable on the search path with `which::which` and
/// gives its path where one is found. Whether one is found depends on the
/// machine. A path that is found is the name joined to a directory: one of
/// the search path, or the current directory where the name has a
/// separator; so it leads to a file of that name. This is `which` on every
/// system but Windows, where it may add an extension to the name.
#[verifier::external_body]
fn find_executable(name: &str) -> (found: Option<String>)
    ensures
        found is Some ==> leads_to(found->0@, name@),
{
    which::which(name).ok().map(|path| path.to_string_lossy().into_owned())
}

/// For each path `p`, in order: `flag`, `p`, `p`. This binds the path to
/// itself inside the sandbox.
pub open spec fn bind_args(flag: Seq<char>, paths: Seq<Seq<char>>) -> Seq<Seq<char>>
    decreases paths.len(),
{
    if paths.len() == 0 {
        Seq::empty()
    } else {
        bind_args(flag, paths.drop_last()) + seq![flag, paths.last(), paths.last()]
    }
}

/// For each path `p`, in order: `--tmpfs`, `p`. This puts an empty
/// directory in the place of the path.
pub open spec fn mask_args(paths: Seq<Seq<char>>) -> Seq<Seq<char>>
    decreases paths.len(),
{
    if paths.len() == 0 {
        Seq::empty()
    } else {
        mask_args(paths.drop_last()) + seq!["--tmpfs"@, paths.last()]
    }
}

/// The arguments that set up the network: the host's network is kept only
/// where the configuration says `Host`; a restriction to some hosts is not
/// carried out and cuts the network off like `NoAccess`.
pub open spec fn network_args(access: NetworkAccessView) -> Seq<Seq<char>> {
    match access {
        NetworkAccessView::Host => Seq::empty(),
        _ => seq!["--unshare-net"@],
    }
}

/// The arguments that apply a syscall filter, where the configuration
/// names one.
pub open spec fn seccomp_args(profile: Option<Seq<char>>) -> Seq<Seq<char>> {
    match profile {
        Some(path) => seq!["--seccomp"@, path],
        None => Seq::empty(),
    }
}

/// The arguments of the launcher for a command under a configuration:
/// unshare everything and die with the parent; set up the network; bind
/// the writable paths, then the read-only ones; mask the denied paths;
/// apply the syscall filter; then `--`, the command and its arguments.
pub open spec fn bwrap_args(
    config: SandboxConfigView,
    command: Seq<char>,
    args: Seq<Seq<char>>,
) -> Seq<Seq<char>> {
    seq!["--unshare-all"@, "--die-with-parent"@] + network_args(config.network_access) + bind_args(
        "--bind"@,
        config.rw_paths,
    ) + bind_args("--ro-bind"@, config.ro_paths) + mask_args(config.denied_paths) + seccomp_args(
        config.seccomp_profile,
    ) + seq!["--"@, command] + args
}

fn push_binds(out: &mut Vec<String>, flag: &str, paths: &Vec<String>)
    ensures
        views(final(out)@) == views(old(out)@) + bind_args(flag@, views(paths@)),
{
    let ghost before = views(out@);
    let mut i: usize = 0;
    proof {
        assert(views(paths@).take(0) =~= Seq::<Seq<char>>::empty());
        assert(views(out@) =~= before + bind_args(flag@, views(paths@).take(0)));
    }
    while i < paths.len()
        invariant
            i <= paths.len(),
            views(out@) == before + bind_args(flag@, views(paths@).take(i as int)),
        decreases paths.len() - i,
    {
        let ghost done = views(paths@).take(i as int);
        let ghost next = views(paths@).take(i + 1);
        push_text(out, flag);
        push_text(out, paths[i].as_str());
        push_text(out, paths[i].as_str());
        proof {
            assert(next.drop_last() =~= done);
            assert(next.last() == paths@[i as int]@);
            assert(views(out@) =~= before + bind_args(flag@, next));
        }
        i = i + 1;
    }
    proof {
        assert(views(paths@).take(paths.len() as int) =~= views(paths@));
    }
}

fn push_masks(out: &mut Vec<String>, paths: &Vec<String>)
    ensures
        views(final(out)@) == views(old(out)@) + mask_args(views(paths@)),
{
    let ghost before = views(out@);
    let mut i: usize = 0;
    proof {
        assert(views(paths@).take(0) =~= Seq::<Seq<char>>::empty());
        assert(views(out@) =~= before + mask_args(views(paths@).take(0)));
    }
    while i < paths.len()
        invariant
            i <= paths.len(),
            views(out@) == before + mask_args(views(paths@).take(i as int)),
        decreases paths.len() - i,
    {
        let ghost done = views(paths@).take(i as int);
        let ghost next = views(paths@).take(i + 1);
        push_text(out, "--tmpfs");
        push_text(out, paths[i].as_str());
        proof {
            assert(next.drop_last() =~= done);
            assert(next.last() == paths@[i as int]@);
            assert(views(out@) =~= before + mask_args(next));
        }
        i = i + 1;
    }
    proof {
        assert(views(paths@).take(paths.len() as int) =~= views(paths@));
    }
}

impl BubblewrapWrapper {
    /// The wrapper for the launcher found at `found`, or none where the
    /// search found nothing.
    pub fn from_probe(found: Option<String>) -> (wrapper: Option<BubblewrapWrapper>)
        ensures
            found is None ==> wrapper is None,
            found is Some ==> wrapper is Some && wrapper->0.bwrap_path@ == found->0@,
    {
        match found {
            Some(path) => Some(BubblewrapWrapper { bwrap_path: path }),
            None => None,
        }
    }

    /// Looks for `bwrap` on the search path; none where it is not
    /// installed. The wrapper that comes back holds the path that the
    /// search found, which leads to a file called `bwrap`.
    pub fn new() -> (wrapper: Option<BubblewrapWrapper>)
        ensures
            wrapper is Some ==> leads_to(wrapper->0.bwrap_path@, "bwrap"@),
    {
        BubblewrapWrapper::from_probe(find_executable("bwrap"))
    }

    /// Whether the launcher can be used. A wrapper exists only where the
    /// launcher was found.
    pub fn is_available(&self) -> (yes: bool)
        ensures
            yes,
    {
        true
    }

    /// Composes the command line that runs `command` with `args` under
    /// `config`.
    pub fn build_command(&self, config: &SandboxConfig, command: &str, args: &Vec<String>) -> (line:
        CommandLine)
        ensures
            line.program@ == self.bwrap_path@,
            views(line.args@) == bwrap_args(config@, command@, views(args@)),
    {
        let mut out: Vec<String> = Vec::new();
        push_text(&mut out, "--unshare-all");
        push_text(&mut out, "--die-with-parent");
        match &config.network_access {
            NetworkAccess::NoAccess => {
                push_text(&mut out, "--unshare-net");
            },
            NetworkAccess::Host => {},
            NetworkAccess::Restricted(_) => {
                push_text(&mut out, "--unshare-net");
            },
        }
        proof {
            assert(views(out@) =~= seq!["--unshare-all"@, "--die-with-parent"@] + network_args(
                config@.network_access,
            ));
        }
        push_binds(&mut out, "--bind", &config.rw_paths);
        push_binds(&mut out, "--ro-bind", &config.ro_paths);
        push_masks(&mut out, &config.denied_paths);
        let ghost before_filter = views(out@);
        if let Some(profile) = &config.seccomp_profile {
            push_text(&mut out, "--seccomp");
            push_text(&mut out, profile.as_str());
        }
        proof {
            assert(views(out@) =~= before_filter + seccomp_args(config@.seccomp_profile));
        }
        push_text(&mut out, "--");
        push_text(&mut out, command);
        let ghost before_args = views(out@);
        push_texts(&mut out, args);
        proof {
            assert(before_args =~= before_filter + seccomp_args(config@.seccomp_profile)
                + seq!["--"@, command@]);
            assert(views(out@) =~= bwrap_args(config@, command@, views(args@)));
        }
        CommandLine { program: self.bwrap_path.clone(), args: out }
    }

    /// A copy of the wrapper.
    pub fn duplicate(&self) -> (copy: BubblewrapWrapper)
        ensures
            copy.bwrap_path@ == self.bwrap_path@,
    {
        BubblewrapWrapper { bwrap_path: self.bwrap_path.clone() }
    }
}

/// The launcher always unshares every namespace and dies with its parent,
/// and the command with its arguments always comes last, after `--`.
pub proof fn lemma_command_comes_last(
    config: SandboxConfigView,
    command: Seq<char>,
    args: Seq<Seq<char>>,
)
    ensures
        bwrap_args(config, command, args).len() >= 4 + args.len(),
        bwrap_args(config, command, args)[0] == "--unshare-all"@,
        bwrap_args(config, command, args)[1] == "--die-with-parent"@,
        bwrap_args(config, command, args).subrange(
            bwrap_args(config, command, args).len() - args.len(),
            bwrap_args(config, command, args).len() as int,
        ) == args,
        bwrap_args(config, command, args)[bwrap_args(config, command, args).len() - args.len() - 1]
            == command,
        bwrap_args(config, command, args)[bwrap_args(config, command, args).len() - args.len() - 2]
            == "--"@,
{
    let all = bwrap_args(config, command, args);
    let head = seq!["--unshare-all"@, "--die-with-parent"@] + network_args(config.network_access)
        + bind_args("--bind"@, config.rw_paths) + bind_args("--ro-bind"@, config.ro_paths)
        + mask_args(config.denied_paths) + seccomp_args(config.seccomp_profile);
    assert(all =~= head + seq!["--"@, command] + args);
    assert(all.subrange(all.len() - args.len(), all.len() as int) =~= args);
}

/// The network is cut off unless the configuration grants the host's.
pub proof fn lemma_network_is_cut_off_unless_host(
    config: SandboxConfigView,
    command: Seq<char>,
    args: Seq<Seq<char>>,
)
    requires
        !(config.network_access is Host),
    ensures
        bwrap_args(config, command, args)[2] == "--unshare-net"@,
{
}

} // verus!
