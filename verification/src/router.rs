use vstd::prelude::*;

use crate::text::{seq_contains, str_contains};

verus! {

/// Primary VibeMode API base.
pub const DEFAULT_API_BASE: &'static str = "https://r-api.vibemod.pro";

/// Alternative VibeMode API base reachable through a VPN.
pub const VPN_API_BASE: &'static str = "https://api.vibemod.pro";

/// Consecutive failures after which an endpoint is marked degraded.
pub const FAILURE_THRESHOLD: u32 = 3;

/// How long a degraded endpoint is skipped, in milliseconds.
pub const COOLDOWN_MS: u64 = 60_000;

/// Declares `std::time::Instant`, a reading of the monotonic clock, so that
/// it can be held and passed around; nothing inside it is visible.
#[verifier::external_type_specification]
#[verifier::external_body]
pub struct ExInstant(std::time::Instant);

/// A reading of the monotonic clock.
///
/// Trusted: calls `Instant::now`. Nothing is stated of the value: it is
/// whatever the clock says.
#[verifier::external_body]
pub(crate) fn instant_now() -> std::time::Instant {
    std::time::Instant::now()
}

/// Milliseconds elapsed on the monotonic clock since `origin`.
///
/// Trusted: calls `Instant::elapsed` on `origin` and takes the whole
/// milliseconds of the `Duration` it returns. Nothing is stated of the
/// value: it is whatever the clock says.
#[verifier::external_body]
pub(crate) fn elapsed_ms(origin: &std::time::Instant) -> u64 {
    origin.elapsed().as_millis() as u64
}

/// Abstract state of a [`Router`].
pub struct RouterModel {
    /// Endpoint base URLs, the first one being the initial base.
    pub endpoints: Seq<Seq<char>>,
    /// Consecutive failures per endpoint.
    pub failures: Seq<nat>,
    /// Per endpoint, the time (ms since `origin`) until which it is skipped.
    pub degraded_until: Seq<Option<nat>>,
    /// Index of the active endpoint.
    pub current: nat,
    /// The monotonic-clock reading from which times are counted.
    pub origin: std::time::Instant,
}

/// Index `offset` places after `current`, wrapping around `len`.
pub open spec fn wrap_index(current: nat, offset: nat, len: nat) -> nat {
    if current + offset < len {
        current + offset
    } else {
        (current + offset - len) as nat
    }
}

impl RouterModel {
    /// The lengths agree and the active index is in range.
    pub open spec fn wf(self) -> bool {
        &&& self.endpoints.len() >= 1
        &&& self.failures.len() == self.endpoints.len()
        &&& self.degraded_until.len() == self.endpoints.len()
        &&& self.current < self.endpoints.len()
        &&& forall|i: int| 0 <= i < self.failures.len() ==> #[trigger] self.failures[i] <= u32::MAX
        &&& forall|i: int|
            0 <= i < self.degraded_until.len() ==> (#[trigger] self.degraded_until[i] matches Some(
                u,
            ) ==> u <= u64::MAX)
    }

    /// Endpoint `i` is still cooling down at time `now`.
    pub open spec fn is_degraded(self, i: nat, now: nat) -> bool {
        self.degraded_until[i as int] matches Some(until) && now < until
    }

    /// The first endpoint at an offset of at least `offset` from the active
    /// one that is not cooling down; the active one when there is none.
    pub open spec fn failover_target(self, now: nat, offset: nat) -> nat
        decreases self.endpoints.len() - offset,
    {
        if offset >= self.endpoints.len() {
            self.current
        } else if !self.is_degraded(wrap_index(self.current, offset, self.endpoints.len()), now) {
            wrap_index(self.current, offset, self.endpoints.len())
        } else {
            self.failover_target(now, offset + 1)
        }
    }

    /// The model after a successful request: the active endpoint's failure
    /// count and cooldown are cleared.
    pub open spec fn after_success(self) -> RouterModel {
        RouterModel {
            failures: self.failures.update(self.current as int, 0),
            degraded_until: self.degraded_until.update(self.current as int, None),
            ..self
        }
    }

    /// The active endpoint's failure count after one more failure
    /// (saturating at `u32::MAX`).
    pub open spec fn bumped_failures(self) -> nat {
        if self.failures[self.current as int] + 1 > u32::MAX {
            u32::MAX as nat
        } else {
            self.failures[self.current as int] + 1
        }
    }

    /// Whether one more failure reaches the threshold.
    pub open spec fn failure_trips(self) -> bool {
        self.bumped_failures() >= FAILURE_THRESHOLD
    }

    /// The model after a failed request at time `now`: the count grows; when
    /// it reaches the threshold the endpoint cools down for `COOLDOWN_MS` and
    /// the router moves to the next endpoint that is not cooling down.
    pub open spec fn after_failure(self, now: nat) -> RouterModel {
        let counted = RouterModel {
            failures: self.failures.update(self.current as int, self.bumped_failures()),
            ..self
        };
        if self.failure_trips() {
            let until = if now + COOLDOWN_MS > u64::MAX {
                u64::MAX as nat
            } else {
                (now + COOLDOWN_MS) as nat
            };
            let marked = RouterModel {
                degraded_until: self.degraded_until.update(self.current as int, Some(until)),
                ..counted
            };
            RouterModel { current: marked.failover_target(now, 1), ..marked }
        } else {
            counted
        }
    }
}

/// Endpoint list built by `Router::new`: the initial base, then the
/// fallbacks that differ from it, in order.
pub open spec fn endpoint_list(initial: Seq<char>, fallbacks: Seq<Seq<char>>) -> Seq<Seq<char>>
    decreases fallbacks.len(),
{
    if fallbacks.len() == 0 {
        seq![initial]
    } else if fallbacks.last() == initial {
        endpoint_list(initial, fallbacks.drop_last())
    } else {
        endpoint_list(initial, fallbacks.drop_last()).push(fallbacks.last())
    }
}

/// Short label of an endpoint URL.
pub open spec fn endpoint_label(url: Seq<char>) -> Seq<char> {
    if seq_contains(url, "r-api"@) {
        "r-api"@
    } else if seq_contains(url, "api.vibe"@) {
        "api"@
    } else {
        "custom"@
    }
}

/// Chooses the API endpoint, counts consecutive failures and fails over to
/// the next endpoint that is not cooling down.
pub struct Router {
    endpoints: Vec<String>,
    failures: Vec<u32>,
    degraded_until: Vec<Option<u64>>,
    current: usize,
    origin: std::time::Instant,
}

impl View for Router {
    type V = RouterModel;

    closed spec fn view(&self) -> RouterModel {
        RouterModel {
            endpoints: self.endpoints@.map_values(|s: String| s@),
            failures: self.failures@.map_values(|f: u32| f as nat),
            degraded_until: self.degraded_until@.map_values(
                |d: Option<u64>|
                    match d {
                        Some(u) => Some(u as nat),
                        None => None,
                    },
            ),
            current: self.current as nat,
            origin: self.origin,
        }
    }
}

impl Router {
    /// A router over `initial_base` followed by the fallbacks that differ from
    /// it; no failures, nothing cooling down, the initial base active.
    pub fn new(initial_base: String, fallbacks: Vec<String>) -> (r: Router)
        ensures
            r@.endpoints == endpoint_list(initial_base@, fallbacks@.map_values(|s: String| s@)),
            r@.failures == Seq::new(r@.endpoints.len(), |i: int| 0nat),
            r@.degraded_until == Seq::new(r@.endpoints.len(), |i: int| None::<nat>),
            r@.current == 0,
            r@.wf(),
    {
        let ghost fb = fallbacks@.map_values(|s: String| s@);
        let mut endpoints: Vec<String> = Vec::new();
        endpoints.push(initial_base);
        let mut i: usize = 0;
        while i < fallbacks.len()
            invariant
                i <= fallbacks.len(),
                fb == fallbacks@.map_values(|s: String| s@),
                endpoints@.len() >= 1,
                endpoints@.map_values(|s: String| s@) == endpoint_list(initial_base@, fb.take(i as int)),
            decreases fallbacks.len() - i,
        {
            assert(fb.take(i + 1).drop_last() == fb.take(i as int));
            if fallbacks[i] != endpoints[0] {
                endpoints.push(fallbacks[i].clone());
            }
            proof {
                assert(endpoint_list(initial_base@, fb.take(i as int))[0] == initial_base@) by {
                    lemma_endpoint_list_first(initial_base@, fb.take(i as int));
                }
            }
            i = i + 1;
        }
        assert(fb.take(fallbacks.len() as int) == fb);
        let count = endpoints.len();
        let mut failures: Vec<u32> = Vec::new();
        let mut degraded_until: Vec<Option<u64>> = Vec::new();
        let mut k: usize = 0;
        while k < count
            invariant
                k <= count,
                failures@.len() == k,
                degraded_until@.len() == k,
                forall|j: int| 0 <= j < k ==> failures@[j] == 0,
                forall|j: int| 0 <= j < k ==> degraded_until@[j] is None,
            decreases count - k,
        {
            failures.push(0);
            degraded_until.push(None);
            k = k + 1;
        }
        let origin = instant_now();
        let r = Router { endpoints, failures, degraded_until, current: 0, origin };
        assert(r@.failures =~= Seq::new(r@.endpoints.len(), |i: int| 0nat));
        assert(r@.degraded_until =~= Seq::new(r@.endpoints.len(), |i: int| None::<nat>));
        r
    }

    /// The built-in endpoints: the primary base, then the VPN base.
    pub fn default_fallbacks() -> (v: Vec<String>)
        ensures
            v@.len() == 2,
            v@[0]@ == DEFAULT_API_BASE@,
            v@[1]@ == VPN_API_BASE@,
    {
        let mut v: Vec<String> = Vec::new();
        v.push(DEFAULT_API_BASE.to_owned());
        v.push(VPN_API_BASE.to_owned());
        v
    }

    /// The base URL of the active endpoint.
    pub fn active_endpoint(&self) -> (res: &str)
        requires
            self@.wf(),
        ensures
            res@ == self@.endpoints[self@.current as int],
    {
        self.endpoints[self.current].as_str()
    }

    /// `r-api`, `api` or `custom`, after the active endpoint's URL.
    pub fn active_label(&self) -> (res: &'static str)
        requires
            self@.wf(),
        ensures
            res@ == endpoint_label(self@.endpoints[self@.current as int]),
    {
        let url = self.active_endpoint();
        if str_contains(url, "r-api") {
            "r-api"
        } else if str_contains(url, "api.vibe") {
            "api"
        } else {
            "custom"
        }
    }

    /// Records a successful request on the active endpoint.
    pub fn record_success(&mut self)
        requires
            old(self)@.wf(),
        ensures
            final(self)@.wf(),
            final(self)@ == old(self)@.after_success(),
    {
        let c = self.current;
        self.failures.set(c, 0);
        self.degraded_until.set(c, None);
        proof {
            assert(self@.failures =~= old(self)@.after_success().failures);
            assert(self@.degraded_until =~= old(self)@.after_success().degraded_until);
            assert(self@.endpoints =~= old(self)@.endpoints);
        }
    }

    /// Milliseconds elapsed on the monotonic clock since the router was made.
    pub(crate) fn now_ms(&self) -> u64 {
        elapsed_ms(&self.origin)
    }

    /// Records a failed request at time `now` (ms since the router's
    /// monotonic-clock origin); returns whether the active endpoint reached
    /// the threshold (and the router failed over).
    pub fn record_failure_at(&mut self, now: u64) -> (tripped: bool)
        requires
            old(self)@.wf(),
        ensures
            final(self)@.wf(),
            tripped == old(self)@.failure_trips(),
            final(self)@ == old(self)@.after_failure(now as nat),
    {
        let c = self.current;
        let bumped = self.failures[c].saturating_add(1);
        self.failures.set(c, bumped);
        assert(self@.failures =~= old(self)@.failures.update(c as int, old(self)@.bumped_failures()));
        assert(self@.endpoints =~= old(self)@.endpoints);
        assert(self@.degraded_until =~= old(self)@.degraded_until);
        if bumped >= FAILURE_THRESHOLD {
            let until = now.saturating_add(COOLDOWN_MS);
            self.degraded_until.set(c, Some(until));
            let ghost marked = self@;
            assert(marked.degraded_until =~= old(self)@.degraded_until.update(
                c as int,
                Some(until as nat),
            ));
            proof {
                assert(marked.wf());
                lemma_failover_target_in_range(marked, now as nat, 1);
            }
            self.failover_at(now);
            true
        } else {
            assert(self@.wf());
            false
        }
    }

    /// Records a failed request now; returns whether the router failed over.
    pub fn record_failure(&mut self) -> (tripped: bool)
        requires
            old(self)@.wf(),
        ensures
            final(self)@.wf(),
            tripped == old(self)@.failure_trips(),
            exists|now: nat| now <= u64::MAX && final(self)@ == old(self)@.after_failure(now),
    {
        let now = self.now_ms();
        self.record_failure_at(now)
    }

    /// Moves to the first endpoint after the active one that is not cooling
    /// down at time `now`; stays when every other endpoint is cooling down.
    fn failover_at(&mut self, now: u64)
        requires
            old(self)@.wf(),
        ensures
            final(self)@ == (RouterModel {
                current: old(self)@.failover_target(now as nat, 1),
                ..old(self)@
            }),
    {
        let len = self.endpoints.len();
        let ghost m = self@;
        let mut offset: usize = 1;
        while offset < len
            invariant
                1 <= offset <= len,
                len == self.endpoints.len(),
                self.current < len,
                self.degraded_until.len() == len,
                self@ == m,
                m == old(self)@,
                m.wf(),
                m.failover_target(now as nat, 1) == m.failover_target(now as nat, offset as nat),
            decreases len - offset,
        {
            let idx = if offset < len - self.current {
                self.current + offset
            } else {
                offset - (len - self.current)
            };
            let degraded = match self.degraded_until[idx] {
                Some(until) => now < until,
                None => false,
            };
            assert(idx as nat == wrap_index(m.current, offset as nat, len as nat));
            assert(m.degraded_until[idx as int] == match self.degraded_until@[idx as int] {
                Some(u) => Some(u as nat),
                None => None::<nat>,
            });
            assert(degraded == m.is_degraded(idx as nat, now as nat));
            if !degraded {
                assert(m.failover_target(now as nat, offset as nat) == idx as nat);
                self.current = idx;
                assert(self@.failures =~= m.failures);
                assert(self@.degraded_until =~= m.degraded_until);
                assert(self@.endpoints =~= m.endpoints);
                assert(self@ == (RouterModel { current: idx as nat, ..m }));
                return;
            }
            offset = offset + 1;
        }
    }
}

/// The failover target is a valid endpoint index.
pub proof fn lemma_failover_target_in_range(m: RouterModel, now: nat, offset: nat)
    requires
        m.wf(),
    ensures
        m.failover_target(now, offset) < m.endpoints.len(),
    decreases m.endpoints.len() - offset,
{
    if offset < m.endpoints.len() {
        lemma_failover_target_in_range(m, now, offset + 1);
    }
}

/// Endpoint lists start with the initial base.
pub proof fn lemma_endpoint_list_first(initial: Seq<char>, fallbacks: Seq<Seq<char>>)
    ensures
        endpoint_list(initial, fallbacks).len() >= 1,
        endpoint_list(initial, fallbacks)[0] == initial,
    decreases fallbacks.len(),
{
    if fallbacks.len() > 0 {
        lemma_endpoint_list_first(initial, fallbacks.drop_last());
    }
}

} // verus!
