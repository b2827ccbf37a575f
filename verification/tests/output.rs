use vimit::output::{api_status_label, watch_should_stop};
use vimit::paths::{app_file_path, config_base_dir};
use vimit::agents::{AgentProbeFailure, AgentStatus};
use vimit::output::{color_level, exit_code, FailOn, Preset};
use vimit::update::{
    is_auto_api_failover_enabled, is_auto_check_enabled, latest_checked_version,
    record_update_check, set_auto_api_failover_enabled, set_auto_check_enabled, update_check_due,
    version_is_newer, UpdateState,
};

fn levels(v: &[&str]) -> Vec<String> {
    v.iter().map(|s| s.to_string()).collect()
}

#[test]
fn fail_on_warning_catches_warning_and_danger() {
    let windows = levels(&["ok", "danger"]);
    assert_eq!(exit_code(&windows, FailOn::Warning), 2);
    assert_eq!(exit_code(&windows, FailOn::Danger), 3);
    assert_eq!(exit_code(&windows, FailOn::Never), 0);
}

#[test]
fn fail_on_with_warning_only() {
    let windows = levels(&["warning", "ok"]);
    assert_eq!(exit_code(&windows, FailOn::Warning), 2);
    assert_eq!(exit_code(&windows, FailOn::Danger), 0);
    assert_eq!(exit_code(&levels(&[]), FailOn::Warning), 0);
}

#[test]
fn config_names() {
    assert_eq!(FailOn::from_config(Some("warning")), FailOn::Warning);
    assert_eq!(FailOn::from_config(Some("danger")), FailOn::Danger);
    assert_eq!(FailOn::from_config(Some("never")), FailOn::Never);
    assert_eq!(FailOn::from_config(None), FailOn::Never);
    assert_eq!(Preset::from_config(Some("compact")), Preset::Compact);
    assert_eq!(Preset::from_config(Some("mini")), Preset::Mini);
    assert_eq!(Preset::from_config(Some("other")), Preset::Full);
}

#[test]
fn ansi_levels() {
    assert_eq!(color_level("danger"), "\x1b[31mdanger\x1b[0m");
    assert_eq!(color_level("warning"), "\x1b[33mwarning\x1b[0m");
    assert_eq!(color_level("ok"), "\x1b[32mok\x1b[0m");
}

#[test]
fn agent_status_lines() {
    let s = AgentStatus::from_failure(AgentProbeFailure::NotFound);
    assert_eq!(s.summary, "агенты: abtop не найден; задайте ABTOP_BIN");
    assert_eq!(s.token_rate, "токены/мин: нет данных abtop");
    let s = AgentStatus::from_counts(2, 1, "27%", Some("42,0"));
    assert_eq!(s.summary, "агенты: сессий 2, активных 1, контекст макс. 27%");
    assert_eq!(s.token_rate, "токены/мин: 42,0");
}

#[test]
fn update_state_switches_and_schedule() {
    let mut s = UpdateState::new();
    assert!(is_auto_check_enabled(&s));
    assert!(is_auto_api_failover_enabled(&s));
    set_auto_check_enabled(&mut s, false);
    assert!(!is_auto_check_enabled(&s));
    assert!(!update_check_due(&s, 0));
    set_auto_check_enabled(&mut s, true);
    set_auto_api_failover_enabled(&mut s, false);
    assert!(!is_auto_api_failover_enabled(&s));
    assert!(update_check_due(&s, 100));
    record_update_check(&mut s, 100, "1.2.0", "1.3.0".to_string());
    assert!(!update_check_due(&s, 100 + 86_399));
    assert!(update_check_due(&s, 100 + 86_400));
    assert_eq!(latest_checked_version(&s, "1.2.0").unwrap(), "1.3.0");
    assert!(latest_checked_version(&s, "1.3.0").is_none());
    record_update_check(&mut s, 200, "1.3.0", "1.3.0".to_string());
    assert!(s.latest_available_version.is_none());
}

#[test]
fn version_comparison() {
    assert!(version_is_newer("0.9.1", "0.10.0"));
    assert!(!version_is_newer("1.0.0", "1.0.0"));
    assert!(!version_is_newer("1.0.0", "not-a-version"));
}

#[test]
fn watch_loop_stops() {
    assert!(watch_should_stop(0, FailOn::Never, 0));
    assert!(!watch_should_stop(60, FailOn::Never, 2));
    assert!(watch_should_stop(60, FailOn::Warning, 2));
    assert!(!watch_should_stop(60, FailOn::Danger, 0));
    assert_eq!(api_status_label(Some(3)), "offline");
    assert_eq!(api_status_label(None), "online");
}

#[test]
fn config_paths() {
    let base = config_base_dir(false, None, None, Some("/home/u".to_string())).unwrap();
    assert_eq!(
        app_file_path(&base, false, "vimit", "state.json"),
        vec!["/home/u", ".config", "vimit", "state.json"]
    );
    let base = config_base_dir(true, Some("C:\\AppData".to_string()), None, None).unwrap();
    assert_eq!(
        app_file_path(&base, true, "nglimit", "accounts.toml"),
        vec!["C:\\AppData", "nglimit", "nglimit", "accounts.toml"]
    );
    assert_eq!(
        config_base_dir(true, None, Some("C:\\Users\\u".to_string()), None).unwrap(),
        vec!["C:\\Users\\u"]
    );
    assert!(config_base_dir(false, Some("x".to_string()), None, None).is_none());
}

#[test]
fn agent_failure_lines() {
    assert_eq!(
        AgentStatus::from_failure(AgentProbeFailure::Failed).summary,
        "агенты: статус abtop недоступен"
    );
    let s = AgentStatus::from_failure(AgentProbeFailure::InvalidJson);
    assert_eq!(s.summary, "агенты: abtop вернул невалидный JSON");
    assert_eq!(s.token_rate, "токены/мин: нет данных abtop");
    assert_eq!(AgentStatus::from_counts(0, 0, "н/д", None).token_rate, "токены/мин: нет данных abtop");
}
