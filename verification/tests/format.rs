use vimit::format::{format_duration_opt, format_duration_secs};
use vimit::offline::{get_offline_duration_min, update_offline_state, OfflineState};
use vimit::offline::{get_offline_duration_min_at, update_offline_state_at};

#[test]
fn durations_in_each_unit() {
    assert_eq!(format_duration_secs(0), "через 0с");
    assert_eq!(format_duration_secs(-5), "через -5с");
    assert_eq!(format_duration_secs(59), "через 59с");
    assert_eq!(format_duration_secs(60), "через 1м");
    assert_eq!(format_duration_secs(3599), "через 59м");
    assert_eq!(format_duration_secs(3600 + 120), "через 1ч 2м");
    assert_eq!(format_duration_secs(86_400 * 2 + 3600 * 5 + 7), "через 2д 5ч");
    assert_eq!(format_duration_secs(i64::MIN), "через -9223372036854775808с");
    assert_eq!(format_duration_opt(None), "unknown");
    assert_eq!(format_duration_opt(Some(61)), "через 1м");
}

#[test]
fn offline_streak_minutes() {
    let mut s = OfflineState::new();
    assert_eq!(get_offline_duration_min_at(&s, 10), None);
    assert_eq!(update_offline_state_at(&mut s, true, 1_000), Some(0));
    assert_eq!(update_offline_state_at(&mut s, true, 181_000), Some(3));
    assert_eq!(get_offline_duration_min_at(&s, 121_000), Some(2));
    assert_eq!(get_offline_duration_min_at(&s, 0), Some(0));
    assert_eq!(update_offline_state_at(&mut s, false, 200_000), None);
    assert_eq!(s.since_ms, None);
}

#[test]
fn offline_with_clock() {
    let mut s = OfflineState::new();
    assert_eq!(update_offline_state(&mut s, true), Some(0));
    assert!(get_offline_duration_min(&s).is_some());
    assert!(update_offline_state(&mut s, false).is_none());
    assert!(get_offline_duration_min(&s).is_none());
}
