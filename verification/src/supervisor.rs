//! The start sequence as one verified decision: guard the one-shot flag,
//! delete any stale handshake file, resolve the runtime and the script, walk
//! the fallback chain, and wait for the port handshake. The host gathers the
//! observations — which paths exist, which invocations the operating system
//! could start, when the handshake file appeared — and every decision taken
//! over them is fixed here, by `start_outcome`.

use vstd::prelude::*;

use crate::errors::StartError;
use crate::handshake::appears_in_time;
use crate::handshake::await_schedule;
use crate::lifecycle::SupervisorState;
use crate::paths::BuildMode;
use crate::paths::first_match;
use crate::paths::first_true;
use crate::paths::lemma_first_true;

verus! {

/// What the host observed while carrying one start attempt out, in the order
/// the sequence needs it. Existence answers line up with
/// `paths::script_candidates` for the mode; spawn answers line up with
/// `interp::launch_chain`, where `true` means the operating system could
/// start that invocation at all.
pub struct EnvProbe {
    pub mode: BuildMode,
    /// Whether the bundled interpreter sits at its expected path.
    pub bundled_runtime_exists: bool,
    /// Per script candidate, whether the probe found it on disk.
    pub script_exists: Vec<bool>,
    /// Per chain entry, whether a spawn of it would be created by the
    /// operating system. Walking the chain stops at the first `true`.
    pub spawn_ok: Vec<bool>,
    /// Whether a handshake file from an earlier run sat at the well-known
    /// path before the attempt. It is deleted before anything spawns.
    pub stale_handshake_present: bool,
    /// The poll index at which the handshake file first exists, if ever.
    pub appear_at: Option<u32>,
}

/// What a successful `start` call did.
#[derive(Clone, Copy, Debug, PartialEq, Eq, Structural)]
pub struct StartReport {
    /// Whether this call spawned the child (`false`: an earlier call had).
    pub spawned: bool,
    /// Which script candidate matched. Meaningful only when `spawned`.
    pub script_index: usize,
    /// Which chain entry the child was spawned with. Meaningful only when
    /// `spawned`.
    pub invocation_index: usize,
    /// Whether a stale handshake file was found and deleted before launch.
    pub stale_deleted: bool,
}

/// The report of a call that found the supervisor already started: it
/// touches nothing and succeeds.
pub open spec fn idle_report() -> StartReport {
    StartReport { spawned: false, script_index: 0, invocation_index: 0, stale_deleted: false }
}

/// The outcome of a first (fresh) start attempt against an environment.
pub open spec fn fresh_outcome(env: EnvProbe) -> Result<StartReport, StartError> {
    if env.mode is Packaged && !env.bundled_runtime_exists {
        Err(StartError::RuntimeNotFound)
    } else {
        match first_true(env.script_exists@) {
            None => Err(StartError::PathResolution),
            Some(w) => match first_true(env.spawn_ok@) {
                None => Err(StartError::Launch),
                Some(j) => if appears_in_time(env.appear_at) {
                    Ok(
                        StartReport {
                            spawned: true,
                            script_index: w as usize,
                            invocation_index: j as usize,
                            stale_deleted: env.stale_handshake_present,
                        },
                    )
                } else {
                    Err(StartError::HandshakeTimeout)
                },
            },
        }
    }
}

/// The outcome of any `start` call: a repeated call is a success that does
/// nothing; a fresh one runs the full sequence.
pub open spec fn start_outcome(started: bool, env: EnvProbe) -> Result<StartReport, StartError> {
    if started {
        Ok(idle_report())
    } else {
        fresh_outcome(env)
    }
}

/// How many child processes a `start` call creates. A handshake timeout
/// still counts one: the child was spawned and only the handshake failed.
pub open spec fn start_spawn_count(started: bool, env: EnvProbe) -> nat {
    if !started && !(env.mode is Packaged && !env.bundled_runtime_exists) && first_true(
        env.script_exists@,
    ) is Some && first_true(env.spawn_ok@) is Some {
        1
    } else {
        0
    }
}

/// Run one `start` call. Acquiring and releasing the host's lock around the
/// check-and-set, the filesystem probes, the stale-file deletion, the spawn
/// attempts and the sleeps are the host's; every decision over what it
/// observed is taken here, and the result is exactly `start_outcome`.
pub fn run_start(state: &mut SupervisorState, env: &EnvProbe) -> (r: Result<
    StartReport,
    StartError,
>)
    ensures
        final(state).started,
        r == start_outcome(old(state).started, *env),
{
    let fresh = state.try_begin_start();
    if !fresh {
        // A previous call launched (or is launching): succeed untouched.
        return Ok(
            StartReport {
                spawned: false,
                script_index: 0,
                invocation_index: 0,
                stale_deleted: false,
            },
        );
    }

    // From here the host has already deleted any stale handshake file: that
    // happens before the runtime is even resolved, so no child can ever race
    // a stale port past this attempt.
    if let BuildMode::Packaged = env.mode {
        if !env.bundled_runtime_exists {
            // Packaged deployments are self-contained: no fallback.
            return Err(StartError::RuntimeNotFound);
        }
    }

    let script_index = match first_match(&env.script_exists) {
        Some(w) => w,
        None => {
            return Err(StartError::PathResolution);
        },
    };

    let invocation_index = match first_match(&env.spawn_ok) {
        Some(j) => j,
        None => {
            return Err(StartError::Launch);
        },
    };

    let outcome = await_schedule(env.appear_at);
    if !outcome.detected {
        return Err(StartError::HandshakeTimeout);
    }

    Ok(
        StartReport {
            spawned: true,
            script_index,
            invocation_index,
            stale_deleted: env.stale_handshake_present,
        },
    )
}

/// Idempotence: whatever the two calls observe, a first start spawns at most
/// one child, and a second start — made once the one-shot flag is set — is a
/// success that spawns nothing and touches no file.
pub proof fn lemma_start_idempotent(first_env: EnvProbe, second_env: EnvProbe)
    ensures
        start_spawn_count(false, first_env) <= 1,
        start_spawn_count(true, second_env) == 0,
        start_outcome(true, second_env) == Ok::<StartReport, StartError>(idle_report()),
        !idle_report().spawned && !idle_report().stale_deleted,
{
}

/// `env` with only the stale-file observation changed.
pub open spec fn with_stale(env: EnvProbe, stale: bool) -> EnvProbe {
    EnvProbe { stale_handshake_present: stale, ..env }
}

/// Pre-start deletion: the stale handshake file is removed before anything
/// can spawn, so whether one existed changes nothing about a start's outcome
/// beyond recording the deletion — which script, which invocation, which
/// error, and whether the start succeeds are all unchanged. A port read
/// after a successful start therefore parses what the fresh child wrote,
/// never the stale file.
pub proof fn lemma_stale_file_never_read(started: bool, env: EnvProbe, stale: bool)
    ensures
        start_outcome(started, env) is Ok <==> start_outcome(started, with_stale(env, stale)) is Ok,
        start_outcome(started, env) matches Err(e) ==> start_outcome(started, with_stale(env, stale))
            == Err::<StartReport, StartError>(e),
        start_outcome(started, env) matches Ok(rep) ==> (start_outcome(
            started,
            with_stale(env, stale),
        ) matches Ok(rep2) && rep2.spawned == rep.spawned && rep2.script_index == rep.script_index
            && rep2.invocation_index == rep.invocation_index),
{
}

/// Fallback chain: when the primary invocation cannot be started but a later
/// entry can, a fresh start succeeds using the earliest startable entry, and
/// every entry before it is one the operating system refused to start at all
/// — none of them left a process behind.
pub proof fn lemma_fallback_chain(env: EnvProbe, later: int)
    requires
        !(env.mode is Packaged && !env.bundled_runtime_exists),
        first_true(env.script_exists@) is Some,
        env.spawn_ok@.len() <= usize::MAX,
        env.spawn_ok@.len() > 0,
        !env.spawn_ok@[0],
        0 <= later < env.spawn_ok@.len(),
        env.spawn_ok@[later],
        appears_in_time(env.appear_at),
    ensures
        start_outcome(false, env) matches Ok(rep) && ({
            &&& rep.spawned
            &&& 0 < rep.invocation_index < env.spawn_ok@.len()
            &&& env.spawn_ok@[rep.invocation_index as int]
            &&& forall|t: int| 0 <= t < rep.invocation_index ==> !env.spawn_ok@[t]
        }),
{
    lemma_first_true(env.spawn_ok@);
    match first_true(env.spawn_ok@) {
        None => {
            assert(!env.spawn_ok@[later]);
        },
        Some(j) => {
            assert(0 <= j < env.spawn_ok@.len());
            assert(env.spawn_ok@[j]);
            assert(j != 0);
            assert(forall|t: int| 0 <= t < j ==> !env.spawn_ok@[t]);
            assert(j as usize as int == j);
        },
    }
}

} // verus!
