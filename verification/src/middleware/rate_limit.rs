//! A per-endpoint request budget over a fixed window of one second.
//!
//! The limiter never waits or queues: it answers whether a request fits the
//! budget of the endpoint's current window, and how long a rejected caller
//! would have to wait for the next one.

use crate::utils::text::{decimal, push_decimal};
use vstd::hash_map::StringHashMap;
use vstd::prelude::*;
use vstd::string::StringExecFns;

verus! {

/// A point on the monotonic clock.
#[verifier::external_type_specification]
#[verifier::external_body]
pub struct ExInstant(std::time::Instant);

/// The point the monotonic clock stands at.
///
/// Trusted: the body calls `std::time::Instant::now`. Nothing is promised of
/// the value.
#[verifier::external_body]
fn clock_origin() -> std::time::Instant {
    std::time::Instant::now()
}

/// The milliseconds that have passed on the monotonic clock since `origin`.
///
/// Trusted: the body calls `std::time::Instant::elapsed` and converts with
/// `Duration::as_millis`. Nothing is promised of the value: two calls may
/// return anything, in any order.
#[verifier::external_body]
fn elapsed_millis(origin: &std::time::Instant) -> u128 {
    origin.elapsed().as_millis()
}

/// Reads the monotonic clock: the milliseconds since `origin` as the clock
/// gave them, brought into 64 bits. Of the reading itself nothing is promised.
fn millis_since(origin: &std::time::Instant) -> (r: u64)
    ensures
        exists|elapsed: u128| r == saturated_millis(elapsed),
{
    let elapsed = elapsed_millis(origin);
    let r = saturate_millis(elapsed);
    r
}

/// The length of a budget window, in milliseconds.
pub const WINDOW_MS: u64 = 1000;

/// The budget of one endpoint: how many requests its current window has
/// admitted, when that window began, and how many it may admit.
#[derive(Clone, Copy, Debug)]
pub struct RateLimit {
    pub count: u32,
    pub window_start: u64,
    pub max_per_second: u32,
}

/// What a limiter is, mathematically: a budget for every endpoint it has seen
/// and the ceiling it gives to one it has not.
pub struct RateLimiterView {
    pub limits: Map<Seq<char>, RateLimit>,
    pub default_limit: u32,
}

/// Milliseconds from `start` to `now`; a clock that stepped back counts as no
/// time at all.
pub open spec fn elapsed_ms(now: u64, start: u64) -> int {
    if now >= start {
        now - start
    } else {
        0
    }
}

/// Whether the window of `e` is over at `now`.
pub open spec fn window_elapsed(e: RateLimit, now: u64) -> bool {
    elapsed_ms(now, e.window_start) >= WINDOW_MS
}

/// The budget an endpoint starts with when it is first seen at `now`.
pub open spec fn fresh_limit(now: u64, max_per_second: u32) -> RateLimit {
    RateLimit { count: 0, window_start: now, max_per_second }
}

/// The budget of `endpoint` before a request at `now`: the stored one, or a
/// fresh one under the default ceiling.
pub open spec fn limit_of(v: RateLimiterView, endpoint: Seq<char>, now: u64) -> RateLimit {
    if v.limits.contains_key(endpoint) {
        v.limits[endpoint]
    } else {
        fresh_limit(now, v.default_limit)
    }
}

/// `e` as a request at `now` finds it: a window that is over gives way to a
/// new, empty one that begins at `now`.
pub open spec fn refreshed(e: RateLimit, now: u64) -> RateLimit {
    if window_elapsed(e, now) {
        RateLimit { count: 0, window_start: now, max_per_second: e.max_per_second }
    } else {
        e
    }
}

/// Whether a request at `now` fits the budget `e`.
pub open spec fn admits(e: RateLimit, now: u64) -> bool {
    refreshed(e, now).count < refreshed(e, now).max_per_second
}

/// `e` after a request at `now`: charged by one if the request was admitted.
pub open spec fn charged(e: RateLimit, now: u64) -> RateLimit {
    let r = refreshed(e, now);
    if r.count < r.max_per_second {
        RateLimit { count: (r.count + 1) as u32, window_start: r.window_start, max_per_second: r.max_per_second }
    } else {
        r
    }
}

/// The budget left in the window after an admitted request at `now`.
pub open spec fn remaining_after(e: RateLimit, now: u64) -> int {
    refreshed(e, now).max_per_second - refreshed(e, now).count - 1
}

/// How long a caller rejected at `now` has to wait for the next window.
pub open spec fn retry_after_ms(e: RateLimit, now: u64) -> int {
    WINDOW_MS - elapsed_ms(now, refreshed(e, now).window_start)
}

/// The text of a rejection.
pub open spec fn rejection_message(endpoint: Seq<char>, wait_ms: nat) -> Seq<char> {
    "Rate limit exceeded for "@ + endpoint + ". Try again in "@ + decimal(wait_ms) + " ms"@
}

/// The answer a request at `now` is owed.
pub open spec fn check_result(e: RateLimit, endpoint: Seq<char>, now: u64, r: Result<u32, String>) -> bool {
    if admits(e, now) {
        r == Ok::<u32, String>(remaining_after(e, now) as u32)
    } else {
        r is Err && r->Err_0@ == rejection_message(endpoint, retry_after_ms(e, now) as nat)
    }
}

/// What a request for `endpoint` at `now` does to a limiter and returns.
pub open spec fn check_outcome(
    before: RateLimiterView,
    endpoint: Seq<char>,
    now: u64,
    after: RateLimiterView,
    r: Result<u32, String>,
) -> bool {
    let e = limit_of(before, endpoint, now);
    &&& after.default_limit == before.default_limit
    &&& after.limits == before.limits.insert(endpoint, charged(e, now))
    &&& check_result(e, endpoint, now, r)
}

/// The budget `endpoint` has left at `now`, without charging it.
pub open spec fn remaining_at(v: RateLimiterView, endpoint: Seq<char>, now: u64) -> int {
    if v.limits.contains_key(endpoint) {
        let e = v.limits[endpoint];
        if window_elapsed(e, now) {
            e.max_per_second as int
        } else if e.count <= e.max_per_second {
            e.max_per_second - e.count
        } else {
            0
        }
    } else {
        v.default_limit as int
    }
}

/// The limits after `endpoint` gets the ceiling `max_per_second` at `now`: a
/// known endpoint keeps its count and window, an unknown one starts fresh.
pub open spec fn with_limit(v: RateLimiterView, endpoint: Seq<char>, max_per_second: u32, now: u64) -> RateLimiterView {
    let e = if v.limits.contains_key(endpoint) {
        RateLimit {
            count: v.limits[endpoint].count,
            window_start: v.limits[endpoint].window_start,
            max_per_second,
        }
    } else {
        fresh_limit(now, max_per_second)
    };
    RateLimiterView { limits: v.limits.insert(endpoint, e), default_limit: v.default_limit }
}

/// The budget `e` after requests at each of `times`, in order.
pub open spec fn after_requests(e: RateLimit, times: Seq<u64>) -> RateLimit
    decreases times.len(),
{
    if times.len() == 0 {
        e
    } else {
        charged(after_requests(e, times.drop_last()), times.last())
    }
}

/// Whether `t` falls into the window that began at `start`.
pub open spec fn in_window(start: u64, t: u64) -> bool {
    start <= t && t - start < WINDOW_MS
}

/// Whoever is rejected is told to wait for more than nothing and for no more
/// than one window.
pub proof fn law_retry_wait_bounded(e: RateLimit, now: u64)
    ensures
        0 < retry_after_ms(e, now) <= WINDOW_MS,
{
}

/// In an empty window with ceiling `N`, the first `N` requests are each
/// admitted: the `k`-th of them leaves a budget of `N - k`, and after `k`
/// requests the window stands at a count of `k`.
pub proof fn law_budget_counts_down(e: RateLimit, times: Seq<u64>)
    requires
        e.count == 0,
        times.len() <= e.max_per_second,
        forall|i: int| 0 <= i < times.len() ==> in_window(e.window_start, #[trigger] times[i]),
    ensures
        after_requests(e, times) == (RateLimit {
            count: times.len() as u32,
            window_start: e.window_start,
            max_per_second: e.max_per_second,
        }),
        times.len() > 0 ==> admits(after_requests(e, times.drop_last()), times.last())
            && remaining_after(after_requests(e, times.drop_last()), times.last())
            == e.max_per_second - times.len(),
    decreases times.len(),
{
    if times.len() > 0 {
        let earlier = times.drop_last();
        assert forall|i: int| 0 <= i < earlier.len() implies in_window(
            e.window_start,
            #[trigger] earlier[i],
        ) by {
            assert(earlier[i] == times[i]);
        }
        law_budget_counts_down(e, earlier);
        assert(in_window(e.window_start, times[times.len() - 1]));
    }
}

/// Once a window with ceiling `N` has admitted `N` requests, a further request
/// inside it is rejected, charges nothing, and is told to wait for no more
/// than one window.
pub proof fn law_full_window_rejects(e: RateLimit, times: Seq<u64>, t: u64)
    requires
        e.count == 0,
        times.len() == e.max_per_second,
        forall|i: int| 0 <= i < times.len() ==> in_window(e.window_start, #[trigger] times[i]),
        in_window(e.window_start, t),
    ensures
        !admits(after_requests(e, times), t),
        charged(after_requests(e, times), t) == after_requests(e, times),
        0 < retry_after_ms(after_requests(e, times), t) <= WINDOW_MS,
{
    law_budget_counts_down(e, times);
}

/// Once the window is over, a request is admitted again whatever the window
/// had admitted, provided the ceiling is not zero.
pub proof fn law_next_window_admits(e: RateLimit, t: u64)
    requires
        e.max_per_second > 0,
        t >= e.window_start + WINDOW_MS,
    ensures
        admits(e, t),
        remaining_after(e, t) == e.max_per_second - 1,
        charged(e, t) == (RateLimit { count: 1, window_start: t, max_per_second: e.max_per_second }),
{
}

/// An admitted request never takes a window past its ceiling.
pub proof fn law_admitted_within_ceiling(e: RateLimit, now: u64)
    requires
        admits(e, now),
    ensures
        charged(e, now).count <= charged(e, now).max_per_second,
        remaining_after(e, now) == charged(e, now).max_per_second - charged(e, now).count,
{
}

/// Request budgets by endpoint name. Times are milliseconds on a clock of the
/// caller's choosing; the functions that read the clock themselves count from
/// the moment the limiter was made.
pub struct RateLimiter {
    limits: StringHashMap<RateLimit>,
    default_limit: u32,
    origin: std::time::Instant,
}

impl View for RateLimiter {
    type V = RateLimiterView;

    closed spec fn view(&self) -> RateLimiterView {
        RateLimiterView { limits: self.limits@, default_limit: self.default_limit }
    }
}

fn rejection_text(endpoint: &str, wait_ms: u64) -> (r: String)
    ensures
        r@ == rejection_message(endpoint@, wait_ms as nat),
{
    let mut out = String::from_str("Rate limit exceeded for ");
    out.append(endpoint);
    out.append(". Try again in ");
    push_decimal(&mut out, wait_ms);
    out.append(" ms");
    out
}

impl RateLimiter {
    /// A limiter that has seen no endpoint and gives each new one the ceiling
    /// `default_limit`.
    pub fn new(default_limit: u32) -> (r: Self)
        ensures
            r@.limits == Map::<Seq<char>, RateLimit>::empty(),
            r@.default_limit == default_limit,
    {
        RateLimiter { limits: StringHashMap::new(), default_limit, origin: clock_origin() }
    }

    /// The time on the limiter's own clock: a reading of the milliseconds
    /// since it was made, brought into 64 bits. Of the reading nothing holds.
    pub fn now(&self) -> (r: u64)
        ensures
            exists|elapsed: u128| r == saturated_millis(elapsed),
    {
        millis_since(&self.origin)
    }

    /// Asks for one request of `endpoint` at the time `now`, in milliseconds.
    ///
    /// A window that is over is replaced by an empty one beginning at `now`,
    /// whether the request is then admitted or not. If the window is full the
    /// request is rejected, with the wait until the next window in the
    /// message, and nothing is charged; otherwise the window is charged by one
    /// and the budget that is left is returned. Under a ceiling of 0 every
    /// window is full from its start, so every request is rejected.
    pub fn check_and_update_at(&mut self, endpoint: &str, now: u64) -> (r: Result<u32, String>)
        ensures
            check_outcome(old(self)@, endpoint@, now, final(self)@, r),
    {
        let mut limit = match self.limits.get(endpoint) {
            Some(stored) => *stored,
            None => RateLimit { count: 0, window_start: now, max_per_second: self.default_limit },
        };
        let mut elapsed: u64 = if now >= limit.window_start {
            now - limit.window_start
        } else {
            0
        };
        if elapsed >= WINDOW_MS {
            limit.count = 0;
            limit.window_start = now;
            elapsed = 0;
        }
        if limit.count >= limit.max_per_second {
            self.limits.insert(endpoint.to_owned(), limit);
            return Err(rejection_text(endpoint, WINDOW_MS - elapsed));
        }
        limit.count = limit.count + 1;
        let remaining = limit.max_per_second - limit.count;
        self.limits.insert(endpoint.to_owned(), limit);
        Ok(remaining)
    }

    /// Asks for one request of `endpoint` now. The clock is read once; the
    /// outcome is that of [`RateLimiter::check_and_update_at`] at the time it
    /// showed.
    pub fn check_and_update(&mut self, endpoint: &str) -> (r: Result<u32, String>)
        ensures
            exists|now: u64| check_outcome(old(self)@, endpoint@, now, final(self)@, r),
    {
        let now = millis_since(&self.origin);
        let r = self.check_and_update_at(endpoint, now);
        assert(check_outcome(old(self)@, endpoint@, now, self@, r));
        r
    }

    /// Gives `endpoint` the ceiling `max_per_second`. An endpoint that is known
    /// keeps its count and its window; one that is not starts a window at
    /// `now`.
    pub fn set_limit_at(&mut self, endpoint: &str, max_per_second: u32, now: u64)
        ensures
            final(self)@ == with_limit(old(self)@, endpoint@, max_per_second, now),
    {
        let limit = match self.limits.get(endpoint) {
            Some(stored) => RateLimit {
                count: stored.count,
                window_start: stored.window_start,
                max_per_second,
            },
            None => RateLimit { count: 0, window_start: now, max_per_second },
        };
        self.limits.insert(endpoint.to_owned(), limit);
    }

    /// Gives `endpoint` the ceiling `max_per_second`, reading the clock for the
    /// window of an endpoint that was not known.
    pub fn set_limit(&mut self, endpoint: &str, max_per_second: u32)
        ensures
            exists|now: u64| final(self)@ == with_limit(old(self)@, endpoint@, max_per_second, now),
    {
        let now = millis_since(&self.origin);
        self.set_limit_at(endpoint, max_per_second, now);
        assert(self@ == with_limit(old(self)@, endpoint@, max_per_second, now));
    }

    /// The budget `endpoint` has left at `now`: its whole ceiling once its
    /// window is over, the default ceiling if it was never seen.
    pub fn get_remaining_at(&self, endpoint: &str, now: u64) -> (r: u32)
        ensures
            r == remaining_at(self@, endpoint@, now),
    {
        match self.limits.get(endpoint) {
            Some(stored) => {
                let elapsed: u64 = if now >= stored.window_start {
                    now - stored.window_start
                } else {
                    0
                };
                if elapsed >= WINDOW_MS {
                    stored.max_per_second
                } else if stored.count <= stored.max_per_second {
                    stored.max_per_second - stored.count
                } else {
                    0
                }
            },
            None => self.default_limit,
        }
    }

    /// The budget `endpoint` has left at the time the clock shows.
    pub fn get_remaining(&self, endpoint: &str) -> (r: u32)
        ensures
            exists|now: u64| r == remaining_at(self@, endpoint@, now),
    {
        let now = millis_since(&self.origin);
        let r = self.get_remaining_at(endpoint, now);
        assert(r == remaining_at(self@, endpoint@, now));
        r
    }
}

/// A number of milliseconds in 64 bits: the number itself where it fits, else
/// the greatest number that does.
pub open spec fn saturated_millis(elapsed: u128) -> u64 {
    if elapsed <= u64::MAX {
        elapsed as u64
    } else {
        u64::MAX
    }
}

/// Brings a number of milliseconds, as a clock gave it, into 64 bits.
pub fn saturate_millis(elapsed: u128) -> (r: u64)
    ensures
        r == saturated_millis(elapsed),
{
    if elapsed <= u64::MAX as u128 {
        elapsed as u64
    } else {
        u64::MAX
    }
}

} // verus!
