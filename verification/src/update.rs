use vstd::prelude::*;

verus! {

/// Seconds between automatic update checks.
pub const CHECK_INTERVAL_SECS: u64 = 86_400;

/// The error type of the `self_update` crate.
#[verifier::external_type_specification]
#[verifier::external_body]
pub struct ExUpdateError(self_update::errors::Error);

/// Whether `other` is a newer semantic version than `current`, when both parse.
pub uninterp spec fn version_bump(current: Seq<char>, other: Seq<char>) -> Option<bool>;

/// Compares two version strings.
///
/// Trusted: `self_update::version::bump_is_greater` parses both strings as
/// semantic versions and returns whether `other` is greater than `current`,
/// or an error when either does not parse. The result is named by
/// `version_bump`; a version is never greater than itself.
#[verifier::external_body]
fn bump_is_greater(current: &str, other: &str) -> (res: Result<bool, self_update::errors::Error>)
    ensures
        res is Ok <==> version_bump(current@, other@) is Some,
        res matches Ok(b) ==> version_bump(current@, other@) == Some(b),
        current@ == other@ ==> !(res matches Ok(b) && b),
{
    self_update::version::bump_is_greater(current, other)
}

/// Whether `other` is a newer version than `current`; false when either
/// does not parse as a version.
pub open spec fn is_newer(current: Seq<char>, other: Seq<char>) -> bool {
    version_bump(current, other) == Some(true)
}

/// Whether `other` is a newer version than `current` (false when either
/// does not parse).
pub fn version_is_newer(current: &str, other: &str) -> (newer: bool)
    ensures
        newer == is_newer(current@, other@),
{
    match bump_is_greater(current, other) {
        Ok(b) => b,
        Err(_) => false,
    }
}

/// Persistent update-check state.
#[derive(Debug)]
pub struct UpdateState {
    /// Unix time (s) of the last check.
    pub last_update_check: Option<u64>,
    /// A newer version found by the last check.
    pub latest_available_version: Option<String>,
    /// Whether updates are checked for in the background.
    pub auto_update_check: bool,
    /// Whether the API client fails over between endpoints.
    pub auto_api_failover: bool,
}

impl UpdateState {
    /// Never checked; both switches on.
    pub fn new() -> (s: UpdateState)
        ensures
            s.last_update_check is None,
            s.latest_available_version is None,
            s.auto_update_check,
            s.auto_api_failover,
    {
        UpdateState {
            last_update_check: None,
            latest_available_version: None,
            auto_update_check: true,
            auto_api_failover: true,
        }
    }
}

/// Whether background update checks are on.
pub fn is_auto_check_enabled(state: &UpdateState) -> (on: bool)
    ensures
        on == state.auto_update_check,
{
    state.auto_update_check
}

/// Turns background update checks on or off.
pub fn set_auto_check_enabled(state: &mut UpdateState, enabled: bool)
    ensures
        final(state).auto_update_check == enabled,
        final(state).auto_api_failover == old(state).auto_api_failover,
        final(state).last_update_check == old(state).last_update_check,
        final(state).latest_available_version == old(state).latest_available_version,
{
    state.auto_update_check = enabled;
}

/// Whether API endpoint failover is on.
pub fn is_auto_api_failover_enabled(state: &UpdateState) -> (on: bool)
    ensures
        on == state.auto_api_failover,
{
    state.auto_api_failover
}

/// Turns API endpoint failover on or off.
pub fn set_auto_api_failover_enabled(state: &mut UpdateState, enabled: bool)
    ensures
        final(state).auto_api_failover == enabled,
        final(state).auto_update_check == old(state).auto_update_check,
        final(state).last_update_check == old(state).last_update_check,
        final(state).latest_available_version == old(state).latest_available_version,
{
    state.auto_api_failover = enabled;
}

/// Whether a background check should run at `now` (Unix s): checks must be
/// on and the last one must not lie within the past day.
pub open spec fn check_due(state: &UpdateState, now: u64) -> bool {
    state.auto_update_check && !(state.last_update_check matches Some(last) && now >= last && now
        - last < CHECK_INTERVAL_SECS)
}

/// Whether a background check should run now.
pub fn update_check_due(state: &UpdateState, now_secs: u64) -> (due: bool)
    ensures
        due == check_due(state, now_secs),
{
    if !state.auto_update_check {
        return false;
    }
    match state.last_update_check {
        Some(last) => !(now_secs >= last && now_secs - last < CHECK_INTERVAL_SECS),
        None => true,
    }
}

/// Records a completed check at `now`: the newest released version is kept
/// as pending only when it is newer than the running one.
pub fn record_update_check(
    state: &mut UpdateState,
    now_secs: u64,
    current_version: &str,
    latest_version: String,
)
    ensures
        final(state).last_update_check == Some(now_secs),
        is_newer(current_version@, latest_version@) ==> (final(state).latest_available_version matches Some(v) && v@ == latest_version@),
        !is_newer(current_version@, latest_version@) ==> final(state).latest_available_version is None,
        final(state).auto_update_check == old(state).auto_update_check,
        final(state).auto_api_failover == old(state).auto_api_failover,
{
    state.last_update_check = Some(now_secs);
    if version_is_newer(current_version, latest_version.as_str()) {
        state.latest_available_version = Some(latest_version);
    } else {
        state.latest_available_version = None;
    }
}

/// The pending newer version, if it is still newer than `current_version`.
pub fn latest_checked_version(state: &UpdateState, current_version: &str) -> (v: Option<String>)
    ensures
        v is Some <==> (state.latest_available_version matches Some(l) && is_newer(
            current_version@,
            l@,
        )),
        v matches Some(x) ==> state.latest_available_version matches Some(l) && x@ == l@,
{
    match &state.latest_available_version {
        Some(l) => {
            if version_is_newer(current_version, l.as_str()) {
                Some(l.clone())
            } else {
                None
            }
        },
        None => None,
    }
}

} // verus!
