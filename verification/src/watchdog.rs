//! Fail-safe watchdog and the per-tick decision of the control loop.
//!
//! The orchestrator holds one [`LastCommandState`]: the command being acted
//! on and the timestamp of the moment it arrived. Each tick first commits
//! whatever the intake drained — a valid command overwrites the state and
//! advances the clock, an empty drain leaves it alone — and then applies
//! the staleness check: once the last valid command is strictly older than
//! the threshold, the active command is reset to neutral while the
//! timestamp stays put. Absence of input therefore degrades to neutral
//! output, never to holding the last command indefinitely. Timestamps are
//! milliseconds on a monotonic clock.

use vstd::prelude::*;
use crate::codec::Command;

verus! {

/// The most recent valid command together with its arrival time.
#[derive(Clone, Copy, Debug, PartialEq, Eq, Structural)]
pub struct LastCommandState {
    pub active_command: Command,
    /// Monotonic timestamp in milliseconds of the last valid command.
    pub last_update: u64,
}

impl LastCommandState {
    /// The idle state before any datagram arrived: neutral command,
    /// clock at the given start instant.
    pub fn initial(now: u64) -> (s: LastCommandState)
        ensures
            s == (LastCommandState { active_command: Command::neutral_spec(), last_update: now }),
    {
        LastCommandState { active_command: Command::neutral(), last_update: now }
    }
}

/// Whether the last valid command is stale: strictly older than the
/// threshold. Exactly at the threshold it still counts as fresh. A
/// timestamp at or ahead of `now` counts as fresh as well.
pub open spec fn stale(last_update: u64, now: u64, threshold_ms: u64) -> bool {
    now - last_update > threshold_ms
}

/// What the watchdog leaves behind: a stale state has its command zeroed
/// while its timestamp stays, a fresh state passes unchanged.
pub open spec fn apply_spec(state: LastCommandState, now: u64, threshold_ms: u64) -> LastCommandState {
    if stale(state.last_update, now, threshold_ms) {
        LastCommandState { active_command: Command::neutral_spec(), last_update: state.last_update }
    } else {
        state
    }
}

/// Applies the fail-safe check: zeroes the active command once input has
/// been absent for longer than the threshold.
pub fn apply(state: LastCommandState, now: u64, threshold_ms: u64) -> (r: LastCommandState)
    ensures
        r == apply_spec(state, now, threshold_ms),
        r.last_update == state.last_update,
{
    if now > state.last_update && now - state.last_update > threshold_ms {
        LastCommandState { active_command: Command::neutral(), last_update: state.last_update }
    } else {
        state
    }
}

/// What committing a drain result leaves behind: a drained valid command
/// overwrites the active command and advances the clock to `now`; an empty
/// drain changes nothing.
pub open spec fn commit_spec(state: LastCommandState, latest: Option<Command>, now: u64) -> LastCommandState {
    match latest {
        Some(c) => LastCommandState { active_command: c, last_update: now },
        None => state,
    }
}

/// Commits the intake's drain result for this tick.
pub fn commit(state: LastCommandState, latest: Option<Command>, now: u64) -> (r: LastCommandState)
    ensures
        r == commit_spec(state, latest, now),
{
    match latest {
        Some(c) => LastCommandState { active_command: c, last_update: now },
        None => state,
    }
}

/// One decision step of the control loop: commit the drain result, then
/// apply the fail-safe watchdog at the same instant.
pub open spec fn control_tick_spec(
    state: LastCommandState,
    latest: Option<Command>,
    now: u64,
    threshold_ms: u64,
) -> LastCommandState {
    apply_spec(commit_spec(state, latest, now), now, threshold_ms)
}

/// Advances the orchestrator's state by one tick. The returned state's
/// command is what this tick must put on the actuator.
pub fn control_tick(
    state: LastCommandState,
    latest: Option<Command>,
    now: u64,
    threshold_ms: u64,
) -> (r: LastCommandState)
    ensures
        r == control_tick_spec(state, latest, now, threshold_ms),
        latest is Some ==> r.active_command == latest.unwrap() && r.last_update == now,
{
    let committed = commit(state, latest, now);
    apply(committed, now, threshold_ms)
}

} // verus!
