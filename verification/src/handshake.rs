//! The port handshake's timing: poll for the handshake file at a fixed
//! interval up to a bounded budget, wait one short grace interval after first
//! detection so the writer can finish flushing, and give up with a timeout
//! otherwise. The host performs the real existence checks and sleeps; the
//! schedule here decides every step and bounds the total wait.

use vstd::prelude::*;

verus! {

/// Milliseconds between two existence checks.
pub const POLL_INTERVAL_MS: u64 = 200;

/// Milliseconds to wait after first detection before reading, letting the
/// writer finish flushing.
pub const GRACE_MS: u64 = 100;

/// The total timeout budget in milliseconds.
pub const TIMEOUT_BUDGET_MS: u64 = 30000;

/// How many existence checks fit in the budget.
pub const MAX_POLLS: u32 = 150;

/// What the poller does after an existence check.
#[derive(Clone, Copy, Debug, PartialEq, Eq, Structural)]
pub enum PollDecision {
    /// The file is there: wait the grace interval, then read it.
    ReadAfterGrace,
    /// Not there yet: sleep one interval and check again.
    SleepAndRetry,
    /// Not there and the budget is spent: report a timeout.
    GiveUp,
}

/// The decision after the check numbered `polls_done` (counting from zero)
/// answered `file_exists`.
pub fn poll_step(polls_done: u32, file_exists: bool) -> (d: PollDecision)
    ensures
        file_exists ==> d == PollDecision::ReadAfterGrace,
        !file_exists && polls_done + 1 < MAX_POLLS ==> d == PollDecision::SleepAndRetry,
        !file_exists && polls_done + 1 >= MAX_POLLS ==> d == PollDecision::GiveUp,
{
    if file_exists {
        PollDecision::ReadAfterGrace
    } else if polls_done < MAX_POLLS - 1 {
        PollDecision::SleepAndRetry
    } else {
        PollDecision::GiveUp
    }
}

/// Whether a file that first exists at check number `appear_at` is detected
/// before the budget runs out.
pub open spec fn appears_in_time(appear_at: Option<u32>) -> bool {
    appear_at matches Some(k) && k < MAX_POLLS
}

/// Sleeping before a detection at check `k` costs `k` intervals plus the
/// grace wait.
pub open spec fn detect_elapsed_ms(k: u32) -> int {
    k * POLL_INTERVAL_MS + GRACE_MS
}

/// A full timeout costs one interval between each pair of the checks.
pub open spec fn timeout_elapsed_ms() -> int {
    (MAX_POLLS - 1) * POLL_INTERVAL_MS
}

/// How one run of the poll loop ends.
#[derive(Clone, Copy, Debug, PartialEq, Eq, Structural)]
pub struct AwaitOutcome {
    /// Whether the handshake file was detected within the budget.
    pub detected: bool,
    /// How many existence checks ran.
    pub polls: u32,
    /// Total milliseconds slept.
    pub elapsed_ms: u64,
}

/// The poll loop over an oracle: the handshake file exists at check `n`
/// exactly when `appear_at` is `Some(k)` with `k <= n`. Detection within the
/// budget yields the poll index and the exact sleep total; otherwise the loop
/// gives up after the last check, never sleeping past the budget by more than
/// one interval.
pub fn await_schedule(appear_at: Option<u32>) -> (r: AwaitOutcome)
    ensures
        appears_in_time(appear_at) ==> {
            &&& r.detected
            &&& r.polls == appear_at->Some_0 + 1
            &&& r.elapsed_ms == detect_elapsed_ms(appear_at->Some_0)
        },
        !appears_in_time(appear_at) ==> {
            &&& !r.detected
            &&& r.polls == MAX_POLLS
            &&& r.elapsed_ms == timeout_elapsed_ms()
        },
        r.elapsed_ms <= TIMEOUT_BUDGET_MS + POLL_INTERVAL_MS,
{
    let mut polls: u32 = 0;
    let mut elapsed: u64 = 0;
    while polls < MAX_POLLS
        invariant
            0 <= polls <= MAX_POLLS,
            polls == 0 ==> elapsed == 0,
            polls > 0 ==> elapsed == (polls - 1) * POLL_INTERVAL_MS,
            appear_at matches Some(k) ==> polls <= k,
        decreases MAX_POLLS - polls,
    {
        // One interval separates this check from the one before it.
        if polls > 0 {
            elapsed = elapsed + POLL_INTERVAL_MS;
        }
        let exists_now = match appear_at {
            Some(k) => polls >= k,
            None => false,
        };
        if exists_now {
            return AwaitOutcome { detected: true, polls: polls + 1, elapsed_ms: elapsed + GRACE_MS };
        }
        polls = polls + 1;
    }
    AwaitOutcome { detected: false, polls, elapsed_ms: elapsed }
}

/// A run that times out never sleeps longer than the budget plus one poll
/// interval.
pub proof fn lemma_timeout_within_budget()
    ensures
        timeout_elapsed_ms() <= TIMEOUT_BUDGET_MS + POLL_INTERVAL_MS,
{
}

} // verus!
