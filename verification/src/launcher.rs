//! The process launcher's compute parts: where to look for the server
//! executable and what environment to hand the child.
//!
//! The spawn itself, the existence check on disk, the null redirection of
//! the child's output and the platform-specific creation flag are
//! operating-system work the embedding application performs; this module
//! fixes the names, paths and variables it must use.

use vstd::prelude::*;

verus! {

/// The file name of the server executable on a given platform: the bare
/// base name, with the `.exe` extension where the platform wants one.
pub open spec fn spec_executable_file_name(base: Seq<char>, windows: bool) -> Seq<char> {
    if windows {
        base + ".exe"@
    } else {
        base
    }
}

/// The platform-appropriate file name of the server executable.
pub fn executable_file_name(base_name: &str, windows: bool) -> (r: String)
    ensures
        r@ == spec_executable_file_name(base_name@, windows),
{
    let mut s = String::from_str(base_name);
    if windows {
        s.append(".exe");
    }
    s
}

/// The relative paths, under the resource directory, where the server
/// executable is looked for: the primary location first, then the `dist`
/// subdirectory as a fallback.  The first candidate that exists on disk
/// is launched; if neither exists, startup fails with
/// `StartupError::ExecutableNotFound`.
pub fn candidate_relative_paths(base_name: &str, windows: bool) -> (r: Vec<String>)
    ensures
        r@.len() == 2,
        r@[0]@ == spec_executable_file_name(base_name@, windows),
        r@[1]@ == "dist/"@ + spec_executable_file_name(base_name@, windows),
{
    let primary = executable_file_name(base_name, windows);
    let mut fallback = String::from_str("dist/");
    let name = executable_file_name(base_name, windows);
    fallback.append(name.as_str());
    let mut v: Vec<String> = Vec::new();
    v.push(primary);
    v.push(fallback);
    v
}

/// The environment the child process is started with: the production-mode
/// flag, and the URL it must bind, in that order.
pub fn launch_environment(server_url: &str) -> (r: Vec<(String, String)>)
    ensures
        r@.len() == 2,
        r@[0].0@ == "ASPNETCORE_ENVIRONMENT"@,
        r@[0].1@ == "Production"@,
        r@[1].0@ == "ASPNETCORE_URLS"@,
        r@[1].1@ == server_url@,
{
    let mut v: Vec<(String, String)> = Vec::new();
    v.push((String::from_str("ASPNETCORE_ENVIRONMENT"), String::from_str("Production")));
    v.push((String::from_str("ASPNETCORE_URLS"), String::from_str(server_url)));
    v
}

} // verus!
