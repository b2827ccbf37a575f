use vimit::paths::{choose_dotenv, DotenvSource};
use vimit::trends::{day_groups, distinct_days, distinct_keys, indices_with_key, snapshot_days};

#[test]
fn days_grouped_in_ascending_order() {
    let days = vec![738_000, 737_999, 738_000, 738_002];
    assert_eq!(distinct_days(&days), vec![737_999, 738_000, 738_002]);
    assert_eq!(distinct_days(&vec![]), Vec::<i64>::new());
}

#[test]
fn window_keys_grouped_in_ascending_order() {
    let keys: Vec<String> = ["week", "5h", "week", "day"].iter().map(|s| s.to_string()).collect();
    assert_eq!(distinct_keys(&keys), vec!["5h".to_string(), "day".to_string(), "week".to_string()]);
    assert_eq!(indices_with_key(&keys, "week"), vec![0, 2]);
    assert_eq!(indices_with_key(&keys, "month"), Vec::<usize>::new());
}

#[test]
fn dotenv_candidates_in_order() {
    assert_eq!(choose_dotenv(Some(true), true, Some(true)), Some(DotenvSource::Explicit));
    assert_eq!(choose_dotenv(Some(false), true, Some(true)), None);
    assert_eq!(choose_dotenv(None, true, Some(true)), Some(DotenvSource::WorkingDir));
    assert_eq!(choose_dotenv(None, false, Some(true)), Some(DotenvSource::ExeDir));
    assert_eq!(choose_dotenv(None, false, Some(false)), None);
    assert_eq!(choose_dotenv(None, false, None), None);
}

#[test]
fn timestamps_become_calendar_days() {
    let ts: Vec<String> = [
        "2024-01-01T00:00:00+00:00",
        "2024-01-01T23:30:00-05:00",
        "not a time",
        "1970-01-01T12:00:00Z",
    ]
    .iter()
    .map(|s| s.to_string())
    .collect();
    assert_eq!(snapshot_days(&ts), vec![Some(738_886), Some(738_886), None, Some(719_163)]);
}

#[test]
fn snapshots_grouped_by_day() {
    let ts: Vec<String> = [
        "2024-01-02T08:00:00+00:00",
        "2024-01-01T10:00:00+00:00",
        "garbage",
        "2024-01-02T09:00:00+00:00",
    ]
    .iter()
    .map(|s| s.to_string())
    .collect();
    assert_eq!(day_groups(&ts), vec![(738_886, vec![1]), (738_887, vec![0, 3])]);
    assert_eq!(day_groups(&vec![]), Vec::<(i64, Vec<usize>)>::new());
}
