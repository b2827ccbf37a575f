use vstd::prelude::*;

use crate::router::{elapsed_ms, instant_now};

verus! {

/// Milliseconds in a minute.
pub const MS_PER_MINUTE: u64 = 60_000;

/// Since when the API has been failing, if it is failing, in milliseconds
/// on the monotonic clock counted from `origin`.
#[derive(Debug, Clone, Copy)]
pub struct OfflineState {
    pub since_ms: Option<u64>,
    pub origin: std::time::Instant,
}

impl OfflineState {
    /// Online: no failure streak; times are counted from now.
    pub fn new() -> (s: OfflineState)
        ensures
            s.since_ms is None,
    {
        OfflineState { since_ms: None, origin: instant_now() }
    }
}

/// Whole minutes from `since` to `now` (0 when `now` is earlier).
pub open spec fn minutes_between(since: u64, now: u64) -> u64 {
    if now >= since {
        ((now - since) / (MS_PER_MINUTE as int)) as u64
    } else {
        0
    }
}

/// The state after a request outcome: an error starts a failure streak
/// unless one is running; a success ends it.
pub open spec fn offline_after(s: OfflineState, is_error: bool, now: u64) -> OfflineState {
    if is_error {
        if s.since_ms is None {
            OfflineState { since_ms: Some(now), ..s }
        } else {
            s
        }
    } else {
        OfflineState { since_ms: None, ..s }
    }
}

/// How long the API has been offline at `now`, in minutes.
pub open spec fn offline_minutes(s: OfflineState, now: u64) -> Option<u64> {
    match s.since_ms {
        Some(since) => Some(minutes_between(since, now)),
        None => None,
    }
}

/// Records a request outcome at `now` (ms since `origin`); returns the minutes offline
/// after an error, `None` after a success.
pub fn update_offline_state_at(state: &mut OfflineState, is_error: bool, now_ms: u64) -> (mins:
    Option<u64>)
    ensures
        *final(state) == offline_after(*old(state), is_error, now_ms),
        mins == offline_minutes(*final(state), now_ms),
{
    if is_error {
        if state.since_ms.is_none() {
            state.since_ms = Some(now_ms);
        }
        get_offline_duration_min_at(state, now_ms)
    } else {
        state.since_ms = None;
        None
    }
}

/// Minutes offline at `now` (ms since `origin`), `None` when online.
pub fn get_offline_duration_min_at(state: &OfflineState, now_ms: u64) -> (mins: Option<u64>)
    ensures
        mins == offline_minutes(*state, now_ms),
{
    match state.since_ms {
        Some(since) => Some(now_ms.saturating_sub(since) / MS_PER_MINUTE),
        None => None,
    }
}

/// Records a request outcome now (on the state's monotonic clock).
pub fn update_offline_state(state: &mut OfflineState, is_error: bool) -> (mins: Option<u64>)
    ensures
        exists|now: u64|
            *final(state) == offline_after(*old(state), is_error, now) && mins == offline_minutes(
                *final(state),
                now,
            ),
{
    let now = elapsed_ms(&state.origin);
    update_offline_state_at(state, is_error, now)
}

/// Minutes offline now (on the state's monotonic clock), `None` when online.
pub fn get_offline_duration_min(state: &OfflineState) -> (mins: Option<u64>)
    ensures
        exists|now: u64| mins == offline_minutes(*state, now),
        mins is Some <==> state.since_ms is Some,
{
    let now = elapsed_ms(&state.origin);
    get_offline_duration_min_at(state, now)
}

} // verus!
