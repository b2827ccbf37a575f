use vimit::api::{
    backoff_delay_ms, check_api_key, http_status_error, is_retryable_error, me_outcome, me_url,
    on_fetch_error_at, on_fetch_success, retry_endpoint, MeReply, RetryAction,
    MAX_RETRIES,
};
use vimit::router::Router;

fn urls(v: &[&str]) -> Vec<String> {
    v.iter().map(|s| s.to_string()).collect()
}

#[test]
fn router_drops_duplicate_of_initial_base() {
    let r = Router::new("https://r-api.vibemod.pro".to_string(), Router::default_fallbacks());
    assert_eq!(r.active_endpoint(), "https://r-api.vibemod.pro");
    assert_eq!(r.active_label(), "r-api");
    assert_eq!(Router::default_fallbacks(), vec!["https://r-api.vibemod.pro", "https://api.vibemod.pro"]);
}

#[test]
fn router_fails_over_after_three_failures() {
    let mut r = Router::new("https://custom.example".to_string(), Router::default_fallbacks());
    assert_eq!(r.active_label(), "custom");
    assert!(!r.record_failure_at(1_000));
    assert!(!r.record_failure_at(2_000));
    assert!(r.record_failure_at(3_000));
    assert_eq!(r.active_endpoint(), "https://r-api.vibemod.pro");
    r.record_success();
    assert!(!r.record_failure_at(4_000));
    assert!(!r.record_failure_at(5_000));
    assert!(r.record_failure_at(6_000));
    assert_eq!(r.active_endpoint(), "https://api.vibemod.pro");
    assert_eq!(r.active_label(), "api");
    // both others cool down for a minute; the third endpoint keeps failing
    assert!(!r.record_failure_at(7_000));
    assert!(!r.record_failure_at(8_000));
    assert!(r.record_failure_at(9_000));
    assert_eq!(r.active_endpoint(), "https://api.vibemod.pro");
    // after the cooldown the first endpoint is available again
    assert!(r.record_failure_at(70_000));
    assert_eq!(r.active_endpoint(), "https://custom.example");
}

#[test]
fn single_endpoint_router_stays() {
    let mut r = Router::new("https://only".to_string(), urls(&["https://only"]));
    for t in 0..5 {
        r.record_failure_at(t);
    }
    assert_eq!(r.active_endpoint(), "https://only");
}

#[test]
fn retryable_errors() {
    assert!(is_retryable_error("VibeMode /v1/me returned HTTP 429"));
    assert!(is_retryable_error("VibeMode /v1/me returned HTTP 503\n  hint: x"));
    assert!(is_retryable_error("cannot reach VibeMode API: dns"));
    assert!(is_retryable_error("operation timed out"));
    assert!(is_retryable_error("connection refused"));
    assert!(!is_retryable_error("VibeMode /v1/me returned HTTP 401"));
}

#[test]
fn url_and_status_messages() {
    assert_eq!(me_url("https://r-api.vibemod.pro//"), "https://r-api.vibemod.pro/v1/me");
    assert_eq!(me_url("https://x"), "https://x/v1/me");
    assert_eq!(
        http_status_error(401),
        "VibeMode /v1/me returned HTTP 401\n  hint: check your VIBEMODE_API_KEY"
    );
    assert_eq!(http_status_error(418), "VibeMode /v1/me returned HTTP 418");
    assert_eq!(
        http_status_error(502),
        "VibeMode /v1/me returned HTTP 502\n  hint: server error — try again later or check status.vibemod.pro"
    );
    assert!(check_api_key("").is_err());
    assert!(check_api_key("k").is_ok());
}

#[test]
fn retry_decisions() {
    let mut r = Router::new("https://custom.example".to_string(), Router::default_fallbacks());
    match on_fetch_error_at(&mut r, 0, "HTTP 401", 0, 0) {
        RetryAction::Fail(m) => assert_eq!(m, "HTTP 401"),
        _ => panic!("permanent errors stop"),
    }
    match on_fetch_error_at(&mut r, 0, "HTTP 500", 0, 1234) {
        RetryAction::SleepMs(ms) => assert_eq!(ms, 1000 + 234),
        _ => panic!("first transient error backs off"),
    }
    match on_fetch_error_at(&mut r, 1, "HTTP 500", 0, 999) {
        RetryAction::SleepMs(ms) => assert_eq!(ms, 2000 + 499),
        _ => panic!("second transient error backs off"),
    }
    match on_fetch_error_at(&mut r, 2, "HTTP 500", 0, 0) {
        RetryAction::RetryNow => {}
        _ => panic!("third failure fails over and retries at once"),
    }
    assert_eq!(retry_endpoint(&r, 3, "https://custom.example"), "https://r-api.vibemod.pro");
    assert_eq!(retry_endpoint(&r, 0, "https://custom.example"), "https://custom.example");
    match on_fetch_error_at(&mut r, MAX_RETRIES, "HTTP 500", 0, 0) {
        RetryAction::Fail(m) => assert_eq!(m, "HTTP 500 (after 4 retries)"),
        _ => panic!("last attempt stops"),
    }
    assert_eq!(on_fetch_success(&mut r), "r-api");
    assert_eq!(backoff_delay_ms(2, 10_000), 4000 + 0);
}

#[test]
fn backoff_stays_within_half_the_delay() {
    for attempt in 0..MAX_RETRIES {
        let delay = 1000u64 << attempt;
        for random in [0u64, 1, 249, 499, 500, 777, u64::MAX] {
            let ms = backoff_delay_ms(attempt, random);
            assert!(ms >= delay && ms <= delay + delay / 2 && ms < delay + 500);
            assert_eq!(ms, delay + (random % 500).min(delay / 2));
        }
    }
}

#[test]
fn router_cooldown_on_monotonic_clock() {
    let mut r = Router::new("https://r-api.vibemod.pro".to_string(), Router::default_fallbacks());
    assert!(!r.record_failure());
    assert!(!r.record_failure());
    assert!(r.record_failure());
    assert_eq!(r.active_label(), "api");
    assert!(!r.record_failure());
    assert!(!r.record_failure());
    // the first endpoint is still within its minute of cooldown
    assert!(r.record_failure());
    assert_eq!(r.active_label(), "api");
}

#[test]
fn fetch_outcome_never_depends_on_key() {
    let replies = || {
        vec![
            MeReply::Unreachable("connection refused".to_string()),
            MeReply::Status(401),
            MeReply::Status(503),
            MeReply::InvalidJson("expected value".to_string()),
            MeReply::NotObject,
            MeReply::Object,
        ]
    };
    for (a, b) in replies().into_iter().zip(replies()) {
        assert_eq!(me_outcome("key-one", a), me_outcome("other-key", b));
    }
    assert_eq!(
        me_outcome("", MeReply::Object),
        Err("VIBEMODE_API_KEY is required unless --demo or --mock is used".to_string())
    );
    assert_eq!(
        me_outcome("k", MeReply::Unreachable("timed out".to_string())),
        Err("cannot reach VibeMode API: timed out".to_string())
    );
    assert_eq!(
        me_outcome("k", MeReply::Status(404)),
        Err("VibeMode /v1/me returned HTTP 404\n  hint: check VIBEMODE_API_BASE".to_string())
    );
    assert_eq!(
        me_outcome("k", MeReply::InvalidJson("eof".to_string())),
        Err("VibeMode /v1/me returned invalid JSON: eof".to_string())
    );
    assert_eq!(
        me_outcome("k", MeReply::NotObject),
        Err("VibeMode /v1/me returned a non-object JSON payload".to_string())
    );
    assert_eq!(me_outcome("k", MeReply::Object), Ok(()));
}
