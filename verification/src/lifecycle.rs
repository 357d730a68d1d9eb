//! Lifecycle guard: the one-shot started flag that makes `start` idempotent,
//! and the best-effort cleanup that terminates sidecar processes by name or
//! command-line pattern on host shutdown.

use vstd::prelude::*;

use crate::errors::CleanupError;
use crate::launcher::OsFamily;

verus! {

/// The supervisor's only mutable state: whether the launch sequence already
/// ran. Set exactly once, never reset; a restart requires a host restart.
/// The host wraps one value of this in its mutual-exclusion lock and holds
/// the lock only for the check-and-set.
pub struct SupervisorState {
    pub started: bool,
}

impl SupervisorState {
    /// A fresh supervisor: nothing launched yet.
    pub fn new() -> (s: Self)
        ensures
            !s.started,
    {
        SupervisorState { started: false }
    }

    pub fn is_started(&self) -> (r: bool)
        ensures
            r == self.started,
    {
        self.started
    }

    /// Check-and-set the one-shot flag. Returns whether this caller won the
    /// right to launch; every later call returns `false` and changes nothing.
    pub fn try_begin_start(&mut self) -> (fresh: bool)
        ensures
            final(self).started,
            fresh == !old(self).started,
    {
        let fresh = !self.started;
        self.started = true;
        fresh
    }
}

/// The forceful-termination command cleanup issues, per platform.
pub struct KillCommand {
    pub program: &'static str,
    pub args: Vec<&'static str>,
}

/// Which command terminates stray sidecar processes on each platform:
/// Windows kills by executable name, the Unix family by command-line pattern.
pub fn kill_command(os: OsFamily) -> (cmd: KillCommand)
    ensures
        os is Windows ==> {
            &&& cmd.program@ == "taskkill"@
            &&& cmd.args@.len() == 3
            &&& cmd.args@[0]@ == "/IM"@
            &&& cmd.args@[1]@ == "python.exe"@
            &&& cmd.args@[2]@ == "/F"@
        },
        !(os is Windows) ==> {
            &&& cmd.program@ == "pkill"@
            &&& cmd.args@.len() == 2
            &&& cmd.args@[0]@ == "-f"@
            &&& cmd.args@[1]@ == "python.*main.py"@
        },
{
    match os {
        OsFamily::Windows => {
            let mut args: Vec<&'static str> = Vec::new();
            args.push("/IM");
            args.push("python.exe");
            args.push("/F");
            KillCommand { program: "taskkill", args }
        },
        OsFamily::Linux | OsFamily::MacOs => {
            let mut args: Vec<&'static str> = Vec::new();
            args.push("-f");
            args.push("python.*main.py");
            KillCommand { program: "pkill", args }
        },
    }
}

/// Best-effort cleanup: whatever the termination command reported — it may
/// have found no process at all, because none was ever spawned or the child
/// already exited — the result is success. Cleanup runs during shutdown,
/// where a failure report has no actionable recipient.
pub fn cleanup_outcome(command_succeeded: bool) -> (r: Result<(), CleanupError>)
    ensures
        r == Ok::<(), CleanupError>(()),
{
    let _ = command_succeeded;
    Ok(())
}

} // verus!
