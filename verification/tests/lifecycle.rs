use sidecar_supervisor::launcher::OsFamily;
use sidecar_supervisor::lifecycle::cleanup_outcome;
use sidecar_supervisor::lifecycle::kill_command;
use sidecar_supervisor::lifecycle::SupervisorState;

#[test]
fn fresh_state_not_started() {
    let s = SupervisorState::new();
    assert!(!s.is_started());
}

#[test]
fn one_shot_flag() {
    let mut s = SupervisorState::new();
    assert!(s.try_begin_start());
    assert!(s.is_started());
    assert!(!s.try_begin_start());
    assert!(s.is_started());
}

#[test]
fn windows_kill_command() {
    let cmd = kill_command(OsFamily::Windows);
    assert_eq!(cmd.program, "taskkill");
    assert_eq!(cmd.args, vec!["/IM", "python.exe", "/F"]);
}

#[test]
fn unix_kill_commands() {
    for os in [OsFamily::Linux, OsFamily::MacOs] {
        let cmd = kill_command(os);
        assert_eq!(cmd.program, "pkill");
        assert_eq!(cmd.args, vec!["-f", "python.*main.py"]);
    }
}

#[test]
fn cleanup_never_escalates() {
    // Safe with no child ever spawned: the command finds nothing and may
    // fail; the result is success either way.
    assert_eq!(cleanup_outcome(false), Ok(()));
    assert_eq!(cleanup_outcome(true), Ok(()));
}
