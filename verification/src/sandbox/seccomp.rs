//! Syscall-filter profiles: which there are and where their files lie.

use crate::common::error::{ErrorKind, McpError, McpResult};
use crate::common::text::concat3;
use vstd::prelude::*;

verus! {

/// Seccomp profile types.
#[derive(Debug, Clone, Copy, PartialEq, Eq, Structural)]
pub enum SeccompProfileType {
    /// Basic profile (allows only file operations and basic process
    /// operations).
    Basic,
    /// Profile that allows internet access.
    Network,
}

/// Where the profile files are kept.
#[derive(Debug, Clone)]
pub enum ProfileDir {
    /// The directory `mcp-seccomp-profiles` under the system's directory
    /// for temporary files.
    Temporary,
    /// The directory named.
    At(String),
}

/// Seccomp profile management.
#[derive(Debug, Clone)]
pub struct SeccompProfileManager {
    pub profile_dir: ProfileDir,
}

/// What became of a profile file when it was looked for on disk.
#[derive(Debug)]
pub enum ProfileFile {
    /// The file was there already.
    Present,
    /// The file was missing and has been written.
    Written,
    /// The file was missing and could not be created; the host's words.
    CreateFailed(String),
    /// The file was created and could not be filled; the host's words.
    WriteFailed(String),
}

/// The file name of a profile.
pub open spec fn profile_name(profile_type: SeccompProfileType) -> Seq<char> {
    match profile_type {
        SeccompProfileType::Basic => "basic.json"@,
        SeccompProfileType::Network => "network.json"@,
    }
}

/// `name` in the directory `dir`: a separator stands between them unless
/// the directory is empty or ends in one.
pub open spec fn path_in(dir: Seq<char>, name: Seq<char>) -> Seq<char> {
    if dir.len() == 0 || dir.last() == '/' {
        dir + name
    } else {
        dir + "/"@ + name
    }
}

/// The directory that a manager keeps its files in, given the system's
/// directory for temporary files.
pub open spec fn resolved_dir(dir: ProfileDir, temp_dir: Seq<char>) -> Seq<char> {
    match dir {
        ProfileDir::Temporary => path_in(temp_dir, "mcp-seccomp-profiles"@),
        ProfileDir::At(d) => d@,
    }
}

/// The profile that goes with a network setting: `Basic` where there is no
/// network, `Network` otherwise.
pub open spec fn profile_for(no_network: bool) -> SeccompProfileType {
    if no_network {
        SeccompProfileType::Basic
    } else {
        SeccompProfileType::Network
    }
}

/// Puts `name` into the directory `dir`.
pub fn join_path(dir: &str, name: &str) -> (path: String)
    ensures
        path@ == path_in(dir@, name@),
{
    let n = dir.unicode_len();
    if n == 0 {
        proof {
            assert(dir@ + name@ =~= name@);
        }
        String::from_str(name)
    } else if dir.get_char(n - 1) == '/' {
        String::from_str(dir).concat(name)
    } else {
        concat3(dir, "/", name)
    }
}

impl SeccompProfileType {
    /// The file name of the profile.
    pub fn file_name(&self) -> (name: &'static str)
        ensures
            name@ == profile_name(*self),
    {
        match self {
            SeccompProfileType::Basic => "basic.json",
            SeccompProfileType::Network => "network.json",
        }
    }
}

impl SeccompProfileManager {
    /// Create a manager that keeps its files in `profile_dir`.
    pub fn new(profile_dir: String) -> (manager: SeccompProfileManager)
        ensures
            manager.profile_dir == ProfileDir::At(profile_dir),
    {
        SeccompProfileManager { profile_dir: ProfileDir::At(profile_dir) }
    }

    /// The path of the file of a profile, given the system's directory for
    /// temporary files.
    pub open spec fn spec_profile_path(
        &self,
        profile_type: SeccompProfileType,
        temp_dir: Seq<char>,
    ) -> Seq<char> {
        path_in(resolved_dir(self.profile_dir, temp_dir), profile_name(profile_type))
    }

    /// The path of the file of a profile.
    pub fn profile_path(&self, profile_type: SeccompProfileType, temp_dir: &str) -> (path: String)
        ensures
            path@ == self.spec_profile_path(profile_type, temp_dir@),
    {
        match &self.profile_dir {
            ProfileDir::Temporary => {
                let dir = join_path(temp_dir, "mcp-seccomp-profiles");
                join_path(dir.as_str(), profile_type.file_name())
            },
            ProfileDir::At(dir) => join_path(dir.as_str(), profile_type.file_name()),
        }
    }

    /// Get the path to a seccomp profile, once its file has been looked
    /// for: the path where the file is there or has been written, an
    /// internal error with the host's words where it could not be.
    pub fn get_profile_path(
        &self,
        profile_type: SeccompProfileType,
        temp_dir: &str,
        file: ProfileFile,
    ) -> (result: McpResult<String>)
        ensures
            match file {
                ProfileFile::Present | ProfileFile::Written => result is Ok && result->Ok_0@
                    == self.spec_profile_path(profile_type, temp_dir@),
                ProfileFile::CreateFailed(words) => result is Err && result->Err_0.is_of(
                    ErrorKind::Internal,
                    "Failed to create seccomp profile: "@ + words@,
                ),
                ProfileFile::WriteFailed(words) => result is Err && result->Err_0.is_of(
                    ErrorKind::Internal,
                    "Failed to write seccomp profile: "@ + words@,
                ),
            },
    {
        match file {
            ProfileFile::Present => Ok(self.profile_path(profile_type, temp_dir)),
            ProfileFile::Written => Ok(self.profile_path(profile_type, temp_dir)),
            ProfileFile::CreateFailed(words) => Err(
                McpError::Internal(
                    String::from_str("Failed to create seccomp profile: ").concat(words.as_str()),
                ),
            ),
            ProfileFile::WriteFailed(words) => Err(
                McpError::Internal(
                    String::from_str("Failed to write seccomp profile: ").concat(words.as_str()),
                ),
            ),
        }
    }

    /// A copy of the manager.
    pub fn duplicate(&self) -> (copy: SeccompProfileManager)
        ensures
            copy.profile_dir is Temporary <==> self.profile_dir is Temporary,
            self.profile_dir is At ==> copy.profile_dir->At_0@ == self.profile_dir->At_0@,
            forall|t: SeccompProfileType, temp: Seq<char>|
                copy.spec_profile_path(t, temp) == self.spec_profile_path(t, temp),
    {
        match &self.profile_dir {
            ProfileDir::Temporary => SeccompProfileManager { profile_dir: ProfileDir::Temporary },
            ProfileDir::At(dir) => SeccompProfileManager { profile_dir: ProfileDir::At(dir.clone()) },
        }
    }
}

impl Default for SeccompProfileManager {
    fn default() -> (manager: SeccompProfileManager)
        ensures
            manager.profile_dir is Temporary,
    {
        SeccompProfileManager { profile_dir: ProfileDir::Temporary }
    }
}

} // verus!
