use sidecar_supervisor::errors::StartError;
use sidecar_supervisor::lifecycle::SupervisorState;
use sidecar_supervisor::paths::BuildMode;
use sidecar_supervisor::port::get_port;
use sidecar_supervisor::supervisor::run_start;
use sidecar_supervisor::supervisor::EnvProbe;

fn happy_dev_env() -> EnvProbe {
    EnvProbe {
        mode: BuildMode::Development,
        bundled_runtime_exists: true,
        script_exists: vec![true, false, false],
        spawn_ok: vec![true, true, true],
        stale_handshake_present: false,
        appear_at: Some(0),
    }
}

#[test]
fn start_spawns_once() {
    let mut state = SupervisorState::new();
    let first = run_start(&mut state, &happy_dev_env()).expect("first start succeeds");
    assert!(first.spawned);
    assert!(state.is_started());

    // The second call is a success that spawns nothing and touches no file,
    // whatever it would observe.
    let mut second_env = happy_dev_env();
    second_env.stale_handshake_present = true;
    let second = run_start(&mut state, &second_env).expect("second start is a no-op success");
    assert!(!second.spawned);
    assert!(!second.stale_deleted);
}

#[test]
fn stale_port_never_wins() {
    // A stale handshake file announcing 9999 sits on disk; the fresh child
    // writes 5555. The stale file is deleted before the spawn, so the read
    // after a successful start sees only the fresh content.
    let mut state = SupervisorState::new();
    let mut env = happy_dev_env();
    env.stale_handshake_present = true;
    let report = run_start(&mut state, &env).expect("start succeeds");
    assert!(report.spawned);
    assert!(report.stale_deleted);
    let fresh_file = b"5555";
    assert_eq!(get_port(Some(fresh_file)), Ok(5555));
    assert_ne!(get_port(Some(fresh_file)), Ok(9999));
}

#[test]
fn fallback_entry_launches() {
    // The primary (bundled) invocation cannot be started; the second entry
    // can. The launch uses it, and no earlier entry spawned anything.
    let mut state = SupervisorState::new();
    let mut env = happy_dev_env();
    env.spawn_ok = vec![false, true, false];
    let report = run_start(&mut state, &env).expect("start succeeds via fallback");
    assert!(report.spawned);
    assert_eq!(report.invocation_index, 1);
}

#[test]
fn timeout_when_handshake_never_comes() {
    let mut state = SupervisorState::new();
    let mut env = happy_dev_env();
    env.appear_at = None;
    assert_eq!(run_start(&mut state, &env), Err(StartError::HandshakeTimeout));
}

#[test]
fn timeout_when_handshake_past_budget() {
    let mut state = SupervisorState::new();
    let mut env = happy_dev_env();
    env.appear_at = Some(150);
    assert_eq!(run_start(&mut state, &env), Err(StartError::HandshakeTimeout));
}

#[test]
fn packaged_requires_bundled_runtime() {
    let mut state = SupervisorState::new();
    let env = EnvProbe {
        mode: BuildMode::Packaged,
        bundled_runtime_exists: false,
        script_exists: vec![true, true],
        spawn_ok: vec![true],
        stale_handshake_present: false,
        appear_at: Some(0),
    };
    assert_eq!(run_start(&mut state, &env), Err(StartError::RuntimeNotFound));
}

#[test]
fn packaged_succeeds_with_bundled_runtime() {
    let mut state = SupervisorState::new();
    let env = EnvProbe {
        mode: BuildMode::Packaged,
        bundled_runtime_exists: true,
        script_exists: vec![false, true],
        spawn_ok: vec![true],
        stale_handshake_present: false,
        appear_at: Some(3),
    };
    let report = run_start(&mut state, &env).expect("packaged start succeeds");
    assert!(report.spawned);
    assert_eq!(report.script_index, 1);
    assert_eq!(report.invocation_index, 0);
}

#[test]
fn no_script_layout_matches() {
    let mut state = SupervisorState::new();
    let mut env = happy_dev_env();
    env.script_exists = vec![false, false, false];
    assert_eq!(run_start(&mut state, &env), Err(StartError::PathResolution));
}

#[test]
fn whole_chain_refused() {
    let mut state = SupervisorState::new();
    let mut env = happy_dev_env();
    env.spawn_ok = vec![false, false, false];
    assert_eq!(run_start(&mut state, &env), Err(StartError::Launch));
}

#[test]
fn failed_start_still_sets_flag() {
    // The one-shot flag is set by the attempt, not by its success: a failed
    // start blocks a retry until the host restarts.
    let mut state = SupervisorState::new();
    let mut env = happy_dev_env();
    env.appear_at = None;
    assert_eq!(run_start(&mut state, &env), Err(StartError::HandshakeTimeout));
    assert!(state.is_started());
    let second = run_start(&mut state, &happy_dev_env()).expect("later calls succeed as no-ops");
    assert!(!second.spawned);
}
