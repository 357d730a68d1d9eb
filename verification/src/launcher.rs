//! Launch plan: everything the host needs to spawn the sidecar — argument
//! order, environment, output handling, and the platform's detach flags. The
//! spawn itself is the host's; exactly one invocation of the plan may spawn.

use vstd::prelude::*;

use crate::paths::BuildMode;

verus! {

/// The operating-system family the host runs on.
#[derive(Clone, Copy, Debug, PartialEq, Eq, Structural)]
pub enum OsFamily {
    Windows,
    Linux,
    MacOs,
}

/// One environment variable handed to the child.
pub struct EnvVar {
    pub name: &'static str,
    pub value: String,
}

/// Everything a single start attempt spawns with; immutable once built.
pub struct LaunchTarget {
    /// Absolute path of the interpreter binary (the chain's primary).
    pub runtime_path: String,
    /// Absolute path of the sidecar's entry-point script.
    pub script_path: String,
    /// Absolute path of the handshake file the child must write.
    pub port_file_path: String,
    /// The canonicalized project root the child runs in.
    pub working_directory: String,
    /// Extra environment: the module search path and a fixed text encoding.
    pub extra_env: Vec<EnvVar>,
}

/// Build the launch plan. The child receives the script and the handshake
/// file as its two positional arguments, runs in the project root, and sees
/// a module-search-path variable pointing at that root plus a fixed UTF-8
/// I/O encoding.
pub fn build_launch_target(
    runtime_path: String,
    script_path: String,
    port_file_path: String,
    working_directory: String,
) -> (t: LaunchTarget)
    ensures
        t.runtime_path@ == runtime_path@,
        t.script_path@ == script_path@,
        t.port_file_path@ == port_file_path@,
        t.working_directory@ == working_directory@,
        t.extra_env@.len() == 2,
        t.extra_env@[0].name@ == "PYTHONPATH"@,
        t.extra_env@[0].value@ == working_directory@,
        t.extra_env@[1].name@ == "PYTHONIOENCODING"@,
        t.extra_env@[1].value@ == "utf-8"@,
{
    let root_copy = clone_string(&working_directory);
    let mut extra_env: Vec<EnvVar> = Vec::new();
    extra_env.push(EnvVar { name: "PYTHONPATH", value: root_copy });
    extra_env.push(EnvVar { name: "PYTHONIOENCODING", value: utf8_name() });
    LaunchTarget { runtime_path, script_path, port_file_path, working_directory, extra_env }
}

fn clone_string(s: &String) -> (r: String)
    ensures
        r@ == s@,
{
    s.clone()
}

fn utf8_name() -> (r: String)
    ensures
        r@ == "utf-8"@,
{
    let s: &str = "utf-8";
    s.to_string()
}

/// The child's positional arguments, in the order the contract fixes:
/// the script path first, the handshake-file path second.
pub fn child_args(t: &LaunchTarget) -> (args: Vec<String>)
    ensures
        args@.len() == 2,
        args@[0]@ == t.script_path@,
        args@[1]@ == t.port_file_path@,
{
    let mut args: Vec<String> = Vec::new();
    args.push(clone_string(&t.script_path));
    args.push(clone_string(&t.port_file_path));
    args
}

/// Packaged runs suppress the child's standard output and error (no orphaned
/// console windows); development runs inherit them for diagnostics.
pub fn suppress_child_output(mode: BuildMode) -> (r: bool)
    ensures
        r == (mode is Packaged),
{
    match mode {
        BuildMode::Development => false,
        BuildMode::Packaged => true,
    }
}

/// Windows process-creation flag: detach the child from the parent console.
pub const DETACHED_PROCESS: u32 = 0x0000_0200;

/// Windows process-creation flag: create no window for the child.
pub const CREATE_NO_WINDOW: u32 = 0x0000_0008;

/// The creation flags the host passes when spawning: on the Windows family
/// the child is fully detached and windowless, so closing the host never
/// implicitly signals it and explicit cleanup is the only termination path;
/// elsewhere no flags apply.
pub fn creation_flags(os: OsFamily) -> (r: u32)
    ensures
        os is Windows ==> r == DETACHED_PROCESS | CREATE_NO_WINDOW,
        !(os is Windows) ==> r == 0,
{
    match os {
        OsFamily::Windows => DETACHED_PROCESS | CREATE_NO_WINDOW,
        OsFamily::Linux => 0,
        OsFamily::MacOs => 0,
    }
}

} // verus!
