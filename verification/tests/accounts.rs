use vimit::accounts::{AccountConfig, AccountsConfig};

#[test]
fn resolve_returns_error_for_unknown() {
    let accounts = AccountsConfig::new();
    assert!(accounts.resolve("nonexistent").is_err());
}

#[test]
fn list_names_sorted() {
    let mut config = AccountsConfig::new();
    config.accounts.insert(
        "prod".to_string(),
        AccountConfig {
            api_key_env: Some("PROD_KEY".to_string()),
            api_base: None,
        },
    );
    config.accounts.insert(
        "dev".to_string(),
        AccountConfig {
            api_key_env: Some("DEV_KEY".to_string()),
            api_base: Some("https://dev.example.com".to_string()),
        },
    );
    assert_eq!(config.list_names(), vec!["dev", "prod"]);
}

#[test]
fn resolve_returns_account() {
    let mut config = AccountsConfig::new();
    config.accounts.insert(
        "main".to_string(),
        AccountConfig {
            api_key_env: None,
            api_base: Some("https://api.example.com".to_string()),
        },
    );
    let acct = config.resolve("main").unwrap();
    assert_eq!(acct.api_base.unwrap(), "https://api.example.com");
    assert!(acct.api_key_env.is_none());
}

#[test]
fn resolve_error_names_the_account() {
    let config = AccountsConfig::new();
    assert_eq!(
        config.resolve("staging").unwrap_err(),
        "account 'staging' not found in accounts file"
    );
}

#[test]
fn list_names_dedups_and_orders_by_code_point() {
    let mut config = AccountsConfig::new();
    for name in ["zeta", "Alpha", "beta", "alpha", "beta"] {
        config.accounts.insert(
            name.to_string(),
            AccountConfig { api_key_env: None, api_base: None },
        );
    }
    assert_eq!(config.list_names(), vec!["Alpha", "alpha", "beta", "zeta"]);
}

#[test]
fn later_insert_replaces_account() {
    let mut config = AccountsConfig::new();
    config.accounts.insert(
        "main".to_string(),
        AccountConfig { api_key_env: Some("A".to_string()), api_base: None },
    );
    config.accounts.insert(
        "main".to_string(),
        AccountConfig { api_key_env: Some("B".to_string()), api_base: None },
    );
    assert_eq!(config.resolve("main").unwrap().api_key_env.unwrap(), "B");
    assert_eq!(config.list_names(), vec!["main"]);
}
