use vimit::accounts::AccountConfig;
use vimit::config::{
    config_key_aliases, config_value, deprecation_notice, lookup_config,
    remember_deprecated_env_warning, RuntimeConfig, WarningLedger,
};
use vimit::dotenv::{parse_dotenv, unquote_env_value, EnvMap};

#[test]
fn parses_dotenv_without_leaking_comments() {
    let parsed = parse_dotenv(
        r#"
            # comment
            export NEUROGATE_API_KEY="demo"
            NEUROGATE_API_BASE=https://r-api.vibemod.pro
            ABTOP_BIN='abtop'
            "#,
    )
    .unwrap();

    assert_eq!(parsed.get("NEUROGATE_API_KEY").unwrap(), "demo");
    assert_eq!(
        parsed.get("NEUROGATE_API_BASE").unwrap(),
        "https://r-api.vibemod.pro"
    );
    assert_eq!(parsed.get("ABTOP_BIN").unwrap(), "abtop");
}

#[test]
fn dotenv_reports_malformed_line_number() {
    let err = parse_dotenv("A=1\n\n# c\nnot an assignment\nB=2").unwrap_err();
    assert_eq!(err, "line 4 is not KEY=VALUE");
    let err = parse_dotenv("garbage").unwrap_err();
    assert_eq!(err, "line 1 is not KEY=VALUE");
}

#[test]
fn dotenv_later_assignment_wins_and_splits_at_first_equals() {
    let parsed = parse_dotenv("K=1\r\nK = 2\nURL=a=b\n export  X = ' spaced ' \n").unwrap();
    assert_eq!(parsed.get("K").unwrap(), "2");
    assert_eq!(parsed.get("URL").unwrap(), "a=b");
    assert_eq!(parsed.get("X").unwrap(), " spaced ");
    assert!(parsed.get("missing").is_none());
    assert!(parse_dotenv("").unwrap().get("").is_none());
}

#[test]
fn unquote_only_matching_pairs() {
    assert_eq!(unquote_env_value("\"demo\""), "demo");
    assert_eq!(unquote_env_value("'abtop'"), "abtop");
    assert_eq!(unquote_env_value("\"mixed'"), "\"mixed'");
    assert_eq!(unquote_env_value("\""), "\"");
    assert_eq!(unquote_env_value("\"\""), "");
    assert_eq!(unquote_env_value("plain"), "plain");
}

fn map(pairs: &[(&str, &str)]) -> EnvMap {
    let mut m = EnvMap::new();
    for (k, v) in pairs {
        m.insert(k.to_string(), v.to_string());
    }
    m
}

#[test]
fn config_value_prefers_environment_and_current_spelling() {
    let env = map(&[("NEUROGATE_API_KEY", "old-env")]);
    let dotenv = map(&[("VIBEMODE_API_KEY", "new-file")]);
    assert_eq!(config_value("NEUROGATE_API_KEY", &env, &dotenv).unwrap(), "new-file");

    let env = map(&[("VIBEMODE_API_KEY", "from-env")]);
    let dotenv = map(&[("VIBEMODE_API_KEY", "from-file")]);
    assert_eq!(config_value("VIBEMOD_API_KEY", &env, &dotenv).unwrap(), "from-env");

    let env = map(&[("ABTOP_BIN", "")]);
    let dotenv = map(&[("ABTOP_BIN", "/usr/bin/abtop")]);
    assert_eq!(config_value("ABTOP_BIN", &env, &dotenv).unwrap(), "/usr/bin/abtop");
    assert!(config_value("OTHER", &env, &dotenv).is_none());

    let hit = lookup_config("VIBEMODE_API_BASE", &map(&[("NEUROGATE_API_BASE", "x")]), &EnvMap::new())
        .unwrap();
    assert_eq!(hit.key, "NEUROGATE_API_BASE");
    assert_eq!(hit.value, "x");
}

#[test]
fn aliases_for_known_keys() {
    assert_eq!(
        config_key_aliases("NEUROGATE_API_KEY"),
        vec!["VIBEMODE_API_KEY", "VIBEMOD_API_KEY", "NEUROGATE_API_KEY"]
    );
    assert_eq!(config_key_aliases("ABTOP_BIN"), vec!["ABTOP_BIN"]);
}

#[test]
fn deprecation_notice_for_old_prefix() {
    assert_eq!(
        deprecation_notice("NEUROGATE_API_KEY").unwrap(),
        "warning: NEUROGATE_API_KEY is deprecated, rename to VIBEMODE_API_KEY"
    );
    assert!(deprecation_notice("VIBEMODE_API_KEY").is_none());
}

#[test]
fn deprecated_env_warning_is_recorded_once_per_key() {
    let mut ledger = WarningLedger::new();
    let key = "NEUROGATE_TEST_KEY";

    assert!(remember_deprecated_env_warning(&mut ledger, key));
    assert!(!remember_deprecated_env_warning(&mut ledger, key));
    assert!(remember_deprecated_env_warning(&mut ledger, "NEUROGATE_OTHER"));
}

#[test]
fn runtime_config_resolution() {
    let env = EnvMap::new();
    let dotenv = map(&[("NEUROGATE_API_KEY", "demo"), ("ABTOP_BIN", "/opt/abtop")]);
    let c = RuntimeConfig::from_dotenv(None, "VIBEMODE_API_KEY", &env, &dotenv);
    assert_eq!(c.api_base, "https://r-api.vibemod.pro");
    assert_eq!(c.api_key, "demo");
    assert_eq!(c.abtop_bin, "/opt/abtop");

    let c = RuntimeConfig::from_dotenv(Some("https://x".to_string()), "MY_KEY", &env, &EnvMap::new());
    assert_eq!(c.api_base, "https://x");
    assert_eq!(c.api_key, "");
    assert_eq!(c.abtop_bin, "abtop");
}

#[test]
fn runtime_config_for_account() {
    let dotenv = map(&[("WORK_KEY", "w"), ("VIBEMODE_API_KEY", "default")]);
    let acct = AccountConfig {
        api_key_env: Some("WORK_KEY".to_string()),
        api_base: Some("https://work".to_string()),
    };
    let c = RuntimeConfig::for_account(Some(&acct), &EnvMap::new(), &dotenv);
    assert_eq!(c.api_key, "w");
    assert_eq!(c.api_base, "https://work");
    let c = RuntimeConfig::for_account(None, &EnvMap::new(), &dotenv);
    assert_eq!(c.api_key, "default");
    assert_eq!(c.api_base, "https://r-api.vibemod.pro");
}

#[test]
fn comment_lines_change_nothing() {
    let with = parse_dotenv("A=1\n  # B=2\n#C\nD='x'").unwrap();
    let without = parse_dotenv("A=1\nD='x'").unwrap();
    for key in ["A", "B", "C", "D"] {
        assert_eq!(with.get(key), without.get(key));
    }
    assert_eq!(with.keys(), without.keys());
}

#[test]
fn environment_wins_over_file_for_same_spelling() {
    let env = map(&[("ABTOP_BIN", "/env/abtop")]);
    let dotenv = map(&[("ABTOP_BIN", "/file/abtop")]);
    assert_eq!(config_value("ABTOP_BIN", &env, &dotenv).unwrap(), "/env/abtop");
    let only_old = map(&[("NEUROGATE_API_KEY", "legacy")]);
    assert_eq!(config_value("VIBEMODE_API_KEY", &only_old, &EnvMap::new()).unwrap(), "legacy");
}
