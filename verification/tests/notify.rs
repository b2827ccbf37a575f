use vimit::notify::{
    applescript_quote, next_notification, notify_urgency, powershell_quote, worst_level, AlertLevel,
    Notifier,
};
use vimit::strmap::StrMap;

#[test]
fn alert_level_severity_ordering() {
    assert!(AlertLevel::Warning.severity() > AlertLevel::Normal.severity());
    assert!(AlertLevel::Danger.severity() > AlertLevel::Warning.severity());
    assert!(!AlertLevel::Normal.is_escalation_from(AlertLevel::Normal));
    assert!(AlertLevel::Warning.is_escalation_from(AlertLevel::Normal));
    assert!(AlertLevel::Danger.is_escalation_from(AlertLevel::Warning));
    assert!(!AlertLevel::Normal.is_escalation_from(AlertLevel::Danger));
}

#[test]
fn notifications_only_fire_on_escalation() {
    let mut last_levels = StrMap::new();
    let body = || "body".to_string();

    assert_eq!(
        next_notification(&mut last_levels, "5h", "warning", body())
            .unwrap()
            .level,
        AlertLevel::Warning
    );
    assert!(next_notification(&mut last_levels, "5h", "warning", body()).is_none());
    assert_eq!(
        next_notification(&mut last_levels, "5h", "danger", body())
            .unwrap()
            .level,
        AlertLevel::Danger
    );
    assert!(next_notification(&mut last_levels, "5h", "ok", body()).is_none());
    assert_eq!(
        next_notification(&mut last_levels, "5h", "warning", body())
            .unwrap()
            .level,
        AlertLevel::Warning
    );
}

#[test]
fn notification_titles() {
    let mut levels = StrMap::new();
    let w = next_notification(&mut levels, "7d", "warning", "b".to_string()).unwrap();
    assert_eq!(w.title, "NeuroGate: 7d window high usage");
    assert_eq!(w.window, "7d");
    assert_eq!(w.body, "b");
    let d = next_notification(&mut levels, "7d", "danger", "c".to_string()).unwrap();
    assert_eq!(d.title, "NeuroGate: 7d window critical");
    assert!(next_notification(&mut levels, "5h", "normal-ish", "x".to_string()).is_none());
}

#[test]
fn windows_are_tracked_separately() {
    let mut levels = StrMap::new();
    assert!(next_notification(&mut levels, "5h", "warning", String::new()).is_some());
    assert!(next_notification(&mut levels, "24h", "warning", String::new()).is_some());
    assert!(next_notification(&mut levels, "5h", "warning", String::new()).is_none());
}

#[test]
fn disabled_notifier_stays_quiet() {
    let mut n = Notifier::new(false);
    assert!(n.observe("5h", "danger", String::new()).is_none());
    let mut on = Notifier::new(true);
    assert!(on.observe("5h", "danger", String::new()).is_some());
    assert!(on.observe("5h", "danger", String::new()).is_none());
    assert!(on.note_failure());
    assert!(!on.note_failure());
}

#[test]
fn labels_and_urgency() {
    assert_eq!(AlertLevel::Normal.label(), "ok");
    assert_eq!(AlertLevel::Warning.label(), "warning");
    assert_eq!(AlertLevel::Danger.label(), "danger");
    assert_eq!(AlertLevel::from_summary("danger"), AlertLevel::Danger);
    assert_eq!(AlertLevel::from_summary("внимание"), AlertLevel::Normal);
    assert_eq!(notify_urgency(AlertLevel::Danger), "critical");
    assert_eq!(notify_urgency(AlertLevel::Warning), "normal");
    assert_eq!(notify_urgency(AlertLevel::Normal), "low");
}

#[test]
fn quoting_for_helpers() {
    assert_eq!(powershell_quote("it's\r\nfine"), "it''s  fine");
    assert_eq!(applescript_quote(r#"say "hi" \ bye"#), r#""say \"hi\" \\ bye""#);
}

#[test]
fn worst_level_picks_most_severe() {
    assert_eq!(worst_level(&vec![]), "ok");
    assert_eq!(worst_level(&vec!["ok".to_string(), "warning".to_string()]), "warning");
    assert_eq!(
        worst_level(&vec!["danger".to_string(), "warning".to_string(), "ok".to_string()]),
        "danger"
    );
    assert_eq!(worst_level(&vec!["unknown".to_string()]), "ok");
}
