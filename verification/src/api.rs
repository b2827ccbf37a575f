use vstd::prelude::*;

use crate::router::Router;
use crate::text::{
    chars_of, int_text, push_i64_text, push_str, seq_contains, str_contains, string_of,
};

verus! {

/// Number of retries after the first attempt.
pub const MAX_RETRIES: u32 = 3;

/// Base back-off delay before the first retry, in milliseconds.
pub const BASE_DELAY_MS: u64 = 1000;

/// A uniformly random `u64`.
///
/// Trusted: calls `rand::random::<u64>()`. Nothing is stated of the value.
#[verifier::external_body]
pub(crate) fn random_u64() -> u64 {
    rand::random::<u64>()
}

/// Errors worth retrying: rate limiting, server errors and transport trouble.
pub open spec fn retryable(error: Seq<char>) -> bool {
    ||| seq_contains(error, "HTTP 429"@)
    ||| seq_contains(error, "HTTP 5"@)
    ||| seq_contains(error, "cannot reach"@)
    ||| seq_contains(error, "timed out"@)
    ||| seq_contains(error, "connection"@)
}

/// Whether a fetch error is transient and worth another attempt.
pub fn is_retryable_error(error: &str) -> (res: bool)
    ensures
        res == retryable(error@),
{
    str_contains(error, "HTTP 429") || str_contains(error, "HTTP 5") || str_contains(
        error,
        "cannot reach",
    ) || str_contains(error, "timed out") || str_contains(error, "connection")
}

/// `s` without its trailing `c` characters.
pub open spec fn trim_end_char(s: Seq<char>, c: char) -> Seq<char>
    decreases s.len(),
{
    if s.len() > 0 && s.last() == c {
        trim_end_char(s.drop_last(), c)
    } else {
        s
    }
}

/// The `/v1/me` URL under an API base.
pub open spec fn me_url_text(api_base: Seq<char>) -> Seq<char> {
    trim_end_char(api_base, '/') + "/v1/me"@
}

/// The `/v1/me` URL under `api_base`, whatever slashes the base ends with.
pub fn me_url(api_base: &str) -> (url: String)
    ensures
        url@ == me_url_text(api_base@),
{
    let v = chars_of(api_base);
    let mut end = v.len();
    assert(v@.take(end as int) == v@);
    while end > 0 && v[end - 1] == '/'
        invariant
            end <= v.len(),
            trim_end_char(v@, '/') == trim_end_char(v@.take(end as int), '/'),
        decreases end,
    {
        assert(v@.take(end as int).drop_last() == v@.take(end - 1));
        end = end - 1;
    }
    assert(v@.subrange(0, end as int) == v@.take(end as int));
    let mut url = string_of(&v, 0, end);
    push_str(&mut url, "/v1/me");
    url
}

/// Message given when no API key is configured.
pub open spec fn missing_key_message() -> Seq<char> {
    "VIBEMODE_API_KEY is required unless --demo or --mock is used"@
}

/// Refuses an empty API key before any request is made.
pub fn check_api_key(api_key: &str) -> (res: Result<(), String>)
    ensures
        res is Err <==> api_key@.len() == 0,
        res matches Err(e) ==> e@ == missing_key_message(),
{
    if api_key.is_empty() {
        let mut e = String::new();
        push_str(&mut e, "VIBEMODE_API_KEY is required unless --demo or --mock is used");
        Err(e)
    } else {
        Ok(())
    }
}

/// The hint shown for an HTTP error status (empty when there is none).
pub open spec fn status_hint(code: u16) -> Seq<char> {
    if code == 401 {
        "check your VIBEMODE_API_KEY"@
    } else if code == 403 {
        "your API key does not have access"@
    } else if code == 404 {
        "check VIBEMODE_API_BASE"@
    } else if code == 429 {
        "rate limited — try --watch with a longer interval"@
    } else if code >= 500 {
        "server error — try again later or check status.vibemod.pro"@
    } else {
        Seq::empty()
    }
}

/// The error for a non-success HTTP status from `/v1/me`.
pub open spec fn status_error_text(code: u16) -> Seq<char> {
    "VibeMode /v1/me returned HTTP "@ + int_text(code as int) + if status_hint(code).len() == 0 {
        Seq::<char>::empty()
    } else {
        "\n  hint: "@ + status_hint(code)
    }
}

/// The hint for an HTTP error status.
pub fn status_hint_text(code: u16) -> (hint: String)
    ensures
        hint@ == status_hint(code),
{
    let mut h = String::new();
    if code == 401 {
        push_str(&mut h, "check your VIBEMODE_API_KEY");
    } else if code == 403 {
        push_str(&mut h, "your API key does not have access");
    } else if code == 404 {
        push_str(&mut h, "check VIBEMODE_API_BASE");
    } else if code == 429 {
        push_str(&mut h, "rate limited — try --watch with a longer interval");
    } else if code >= 500 {
        push_str(&mut h, "server error — try again later or check status.vibemod.pro");
    }
    h
}

/// The error message for a non-success HTTP status from `/v1/me`.
pub fn http_status_error(code: u16) -> (msg: String)
    ensures
        msg@ == status_error_text(code),
{
    let hint = status_hint_text(code);
    let mut m = String::new();
    push_str(&mut m, "VibeMode /v1/me returned HTTP ");
    push_i64_text(&mut m, code as i64);
    if !hint.as_str().is_empty() {
        push_str(&mut m, "\n  hint: ");
        push_str(&mut m, hint.as_str());
    }
    m
}

/// What the transport gave back for one `/v1/me` request.
pub enum MeReply {
    /// The request could not be sent or answered; the transport's error text.
    Unreachable(String),
    /// The server answered with this non-success HTTP status.
    Status(u16),
    /// A success whose body is not JSON; the parser's error text.
    InvalidJson(String),
    /// A success whose JSON body is not an object.
    NotObject,
    /// A success with a JSON object body.
    Object,
}

/// The outcome of a `/v1/me` fetch with `api_key`, given the transport's
/// reply: an empty key is refused (and no request is made); otherwise the
/// reply decides, and no error text holds the key.
pub open spec fn me_outcome_text(api_key: Seq<char>, reply: MeReply) -> Result<(), Seq<char>> {
    if api_key.len() == 0 {
        Err(missing_key_message())
    } else {
        match reply {
            MeReply::Unreachable(e) => Err("cannot reach VibeMode API: "@ + e@),
            MeReply::Status(code) => Err(status_error_text(code)),
            MeReply::InvalidJson(e) => Err("VibeMode /v1/me returned invalid JSON: "@ + e@),
            MeReply::NotObject => Err("VibeMode /v1/me returned a non-object JSON payload"@),
            MeReply::Object => Ok(()),
        }
    }
}

/// Decides a `/v1/me` fetch from the key and the transport's reply.
pub fn me_outcome(api_key: &str, reply: MeReply) -> (res: Result<(), String>)
    ensures
        match res {
            Ok(()) => me_outcome_text(api_key@, reply) == Ok::<(), Seq<char>>(()),
            Err(e) => me_outcome_text(api_key@, reply) == Err::<(), Seq<char>>(e@),
        },
{
    check_api_key(api_key)?;
    match reply {
        MeReply::Unreachable(e) => {
            let mut m = String::new();
            push_str(&mut m, "cannot reach VibeMode API: ");
            push_str(&mut m, e.as_str());
            Err(m)
        },
        MeReply::Status(code) => Err(http_status_error(code)),
        MeReply::InvalidJson(e) => {
            let mut m = String::new();
            push_str(&mut m, "VibeMode /v1/me returned invalid JSON: ");
            push_str(&mut m, e.as_str());
            Err(m)
        },
        MeReply::NotObject => {
            let mut m = String::new();
            push_str(&mut m, "VibeMode /v1/me returned a non-object JSON payload");
            Err(m)
        },
        MeReply::Object => Ok(()),
    }
}

/// What the fetch loop does after an attempt failed.
pub enum RetryAction {
    /// Stop and report this error.
    Fail(String),
    /// Try again at once (the router has just failed over).
    RetryNow,
    /// Wait this many milliseconds, then try again.
    SleepMs(u64),
}

/// Back-off before the retry that follows attempt `attempt`: the base delay
/// doubled per attempt, plus a jitter of `random % 500` capped at half the delay.
pub open spec fn backoff_ms(attempt: nat, random: nat) -> int {
    let delay: int = BASE_DELAY_MS * pow2(attempt);
    let jitter: int = if random % 500 < delay / 2 {
        (random % 500) as int
    } else {
        delay / 2
    };
    delay + jitter
}

/// `2^n`.
pub open spec fn pow2(n: nat) -> nat
    decreases n,
{
    if n == 0 {
        1
    } else {
        2 * pow2((n - 1) as nat)
    }
}

/// The error reported after the last attempt.
pub open spec fn exhausted_text(error: Seq<char>, attempt: nat) -> Seq<char> {
    error + " (after "@ + int_text(attempt + 1int) + " retr"@ + if attempt == 0 {
        "y)"@
    } else {
        "ies)"@
    }
}

/// The back-off delay for the retry after attempt `attempt` (`< MAX_RETRIES`).
pub fn backoff_delay_ms(attempt: u32, random: u64) -> (ms: u64)
    requires
        attempt < MAX_RETRIES,
    ensures
        ms == backoff_ms(attempt as nat, random as nat),
{
    proof {
        assert(pow2(0) == 1);
        assert(pow2(1) == 2);
        assert(pow2(2) == 4);
        assert((1u64 << 0u32) == 1u64) by (bit_vector);
        assert((1u64 << 1u32) == 2u64) by (bit_vector);
        assert((1u64 << 2u32) == 4u64) by (bit_vector);
    }
    let delay: u64 = BASE_DELAY_MS * (1u64 << attempt);
    let jitter = if random % 500 < delay / 2 {
        random % 500
    } else {
        delay / 2
    };
    delay + jitter
}


/// The endpoint for attempt `attempt`: the configured base first, the
/// router's active endpoint on retries.
pub fn retry_endpoint(router: &Router, attempt: u32, api_base: &str) -> (ep: String)
    requires
        router@.wf(),
    ensures
        attempt == 0 ==> ep@ == api_base@,
        attempt != 0 ==> ep@ == router@.endpoints[router@.current as int],
{
    if attempt == 0 {
        api_base.to_owned()
    } else {
        router.active_endpoint().to_owned()
    }
}

/// Records a successful fetch on the router and returns the active
/// endpoint's label.
pub fn on_fetch_success(router: &mut Router) -> (label: String)
    requires
        old(router)@.wf(),
    ensures
        final(router)@ == old(router)@.after_success(),
        final(router)@.wf(),
        label@ == crate::router::endpoint_label(
            old(router)@.endpoints[old(router)@.current as int],
        ),
{
    router.record_success();
    router.active_label().to_owned()
}

/// The decision after attempt `attempt` failed with `error`, at time `now`
/// (ms on the router's monotonic clock) and with the random value `random` for the jitter.
///
/// A permanent error stops at once and leaves the router alone. A transient
/// one is recorded on the router; then the loop retries at once when the
/// router failed over (and attempts remain), stops after the last attempt
/// with a note of the count, and otherwise backs off.
pub fn on_fetch_error_at(
    router: &mut Router,
    attempt: u32,
    error: &str,
    now: u64,
    random: u64,
) -> (action: RetryAction)
    requires
        old(router)@.wf(),
        attempt <= MAX_RETRIES,
    ensures
        final(router)@.wf(),
        !retryable(error@) ==> final(router)@ == old(router)@ && (action matches RetryAction::Fail(
            m,
        ) && m@ == error@),
        retryable(error@) ==> final(router)@ == old(router)@.after_failure(now as nat),
        retryable(error@) && old(router)@.failure_trips() && attempt < MAX_RETRIES ==> action
            is RetryNow,
        retryable(error@) && !(old(router)@.failure_trips() && attempt < MAX_RETRIES) && attempt
            == MAX_RETRIES ==> (action matches RetryAction::Fail(m) && m@ == exhausted_text(
            error@,
            attempt as nat,
        )),
        retryable(error@) && !(old(router)@.failure_trips() && attempt < MAX_RETRIES) && attempt
            < MAX_RETRIES ==> (action matches RetryAction::SleepMs(ms) && ms == backoff_ms(
            attempt as nat,
            random as nat,
        )),
{
    if !is_retryable_error(error) {
        return RetryAction::Fail(error.to_owned());
    }
    let tripped = router.record_failure_at(now);
    if tripped && attempt < MAX_RETRIES {
        return RetryAction::RetryNow;
    }
    if attempt == MAX_RETRIES {
        let mut m = error.to_owned();
        push_str(&mut m, " (after ");
        push_i64_text(&mut m, attempt as i64 + 1);
        push_str(&mut m, " retr");
        if attempt == 0 {
            push_str(&mut m, "y)");
        } else {
            push_str(&mut m, "ies)");
        }
        return RetryAction::Fail(m);
    }
    RetryAction::SleepMs(backoff_delay_ms(attempt, random))
}

/// `on_fetch_error_at` with the router's monotonic clock read now and a fresh random jitter.
pub fn on_fetch_error(router: &mut Router, attempt: u32, error: &str) -> (action: RetryAction)
    requires
        old(router)@.wf(),
        attempt <= MAX_RETRIES,
    ensures
        final(router)@.wf(),
        !retryable(error@) ==> final(router)@ == old(router)@ && (action matches RetryAction::Fail(
            m,
        ) && m@ == error@),
        retryable(error@) ==> exists|now: nat|
            now <= u64::MAX && final(router)@ == old(router)@.after_failure(now),
        retryable(error@) && old(router)@.failure_trips() && attempt < MAX_RETRIES ==> action
            is RetryNow,
        retryable(error@) && attempt == MAX_RETRIES ==> (action matches RetryAction::Fail(m)
            && m@ == exhausted_text(error@, attempt as nat)),
        retryable(error@) && !(old(router)@.failure_trips() && attempt < MAX_RETRIES) && attempt
            < MAX_RETRIES ==> (action matches RetryAction::SleepMs(ms) && exists|random: nat|
            random <= u64::MAX && ms == backoff_ms(attempt as nat, random)),
{
    let now = router.now_ms();
    let random = random_u64();
    on_fetch_error_at(router, attempt, error, now, random)
}

} // verus!
