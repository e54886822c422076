//! Market-data subscriptions: which symbols are subscribed, and whether a new
//! subscription fits the request budget.
//!
//! Subscribing is a call into the gateway; it is the caller's. What is
//! decided here is whether that call is made at all, and what is remembered
//! and told once it has succeeded.

use crate::events::emitter::{emitted, AppEvent, AppEventView, EmitterView, EventEmitter};
use crate::middleware::rate_limit::{
    admits,
    charged,
    limit_of,
    rejection_message,
    remaining_after,
    retry_after_ms,
    RateLimit,
    RateLimiter,
    RateLimiterView,
};
use crate::utils::table::StringTable;
use vstd::prelude::*;
use vstd::string::StringExecFns;

verus! {

/// How long a reader waits for the first data of a new subscription, in
/// milliseconds.
pub const DATA_WAIT_MS: u64 = 100;

/// How long to wait between two subscriptions of a bulk, in milliseconds.
pub const BULK_DELAY_MS: u64 = 50;

/// The endpoint whose budget subscriptions are charged to.
pub open spec fn market_data_endpoint() -> Seq<char> {
    "market_data"@
}

/// What the caller has to do about a subscription.
#[derive(Debug)]
pub enum SubscribeStep {
    /// The budget is spent: report `message`.
    Rejected { message: String },
    /// The symbol is subscribed already: nothing to do.
    AlreadySubscribed { remaining: u32 },
    /// Subscribe at the gateway and report with [`MarketService::subscribed`].
    Subscribe { remaining: u32 },
}

/// A [`SubscribeStep`] as plain values.
pub enum SubscribeStepView {
    Rejected { message: Seq<char> },
    AlreadySubscribed { remaining: u32 },
    Subscribe { remaining: u32 },
}

impl View for SubscribeStep {
    type V = SubscribeStepView;

    open spec fn view(&self) -> SubscribeStepView {
        match self {
            SubscribeStep::Rejected { message } => SubscribeStepView::Rejected { message: message@ },
            SubscribeStep::AlreadySubscribed { remaining } => SubscribeStepView::AlreadySubscribed {
                remaining: *remaining,
            },
            SubscribeStep::Subscribe { remaining } => SubscribeStepView::Subscribe {
                remaining: *remaining,
            },
        }
    }
}

/// What is to be done about subscribing `symbol` at `now`, when the budget of
/// the endpoint stands at `e`. The budget is asked first, so that a request
/// for a symbol that is subscribed already is charged as well.
pub open spec fn subscribe_decision(
    subscriptions: Map<Seq<char>, i32>,
    symbol: Seq<char>,
    e: RateLimit,
    now: u64,
) -> SubscribeStepView {
    if !admits(e, now) {
        SubscribeStepView::Rejected {
            message: rejection_message(market_data_endpoint(), retry_after_ms(e, now) as nat),
        }
    } else if subscriptions.contains_key(symbol) {
        SubscribeStepView::AlreadySubscribed { remaining: remaining_after(e, now) as u32 }
    } else {
        SubscribeStepView::Subscribe { remaining: remaining_after(e, now) as u32 }
    }
}

/// What a reader is told when no data has come for `symbol`.
pub open spec fn no_data_message(symbol: Seq<char>) -> Seq<char> {
    "No market data available for "@ + symbol
}

/// What is reported of a subscription that was made.
pub open spec fn subscribed_message(symbol: Seq<char>) -> Seq<char> {
    "Subscribed to market data for "@ + symbol
}

/// The number under which a subscription made at `now_ms` is kept: the low 32
/// bits of the clock reading, read as a signed number.
pub open spec fn request_id_of(now_ms: u64) -> i32 {
    let low = now_ms % 0x1_0000_0000;
    if low >= 0x8000_0000 {
        (low - 0x1_0000_0000) as i32
    } else {
        low as i32
    }
}

/// The events that tell of the end of each of `symbols`, in order.
pub open spec fn unsubscribed_events(symbols: Seq<Seq<char>>) -> Seq<AppEventView> {
    symbols.map_values(|s: Seq<char>| AppEventView::MarketDataUnsubscribed { symbol: s })
}

/// The subscriptions of a session.
pub struct MarketService {
    active_subscriptions: StringTable<i32>,
}

impl View for MarketService {
    type V = Map<Seq<char>, i32>;

    closed spec fn view(&self) -> Map<Seq<char>, i32> {
        self.active_subscriptions@
    }
}

impl MarketService {
    /// The subscribed symbols, in the order in which they were subscribed.
    pub closed spec fn symbols(&self) -> Seq<Seq<char>> {
        Seq::new(
            self.active_subscriptions.spec_len(),
            |i: int| self.active_subscriptions.spec_key(i),
        )
    }

    /// No subscriptions.
    pub fn new() -> (r: Self)
        ensures
            r@ == Map::<Seq<char>, i32>::empty(),
    {
        MarketService { active_subscriptions: StringTable::new() }
    }

    /// Whether `symbol` is subscribed.
    pub fn is_subscribed(&self, symbol: &str) -> (r: bool)
        ensures
            r == self@.contains_key(symbol@),
    {
        self.active_subscriptions.contains_key(symbol)
    }

    /// Decides about subscribing `symbol` at `now`, in milliseconds, charging
    /// the budget of the market-data endpoint.
    pub fn subscribe_with_rate_limit(&self, limiter: &mut RateLimiter, symbol: &str, now: u64) -> (r:
        SubscribeStep)
        ensures
            final(limiter)@ == (RateLimiterView {
                limits: old(limiter)@.limits.insert(
                    market_data_endpoint(),
                    charged(limit_of(old(limiter)@, market_data_endpoint(), now), now),
                ),
                default_limit: old(limiter)@.default_limit,
            }),
            r@ == subscribe_decision(
                self@,
                symbol@,
                limit_of(old(limiter)@, market_data_endpoint(), now),
                now,
            ),
    {
        match limiter.check_and_update_at("market_data", now) {
            Err(message) => SubscribeStep::Rejected { message },
            Ok(remaining) => {
                if self.active_subscriptions.contains_key(symbol) {
                    SubscribeStep::AlreadySubscribed { remaining }
                } else {
                    SubscribeStep::Subscribe { remaining }
                }
            },
        }
    }

    /// The number under which a subscription made at `now_ms` is kept.
    pub fn request_id(now_ms: u64) -> (r: i32)
        ensures
            r == request_id_of(now_ms),
    {
        let low: u64 = now_ms % 0x1_0000_0000;
        if low >= 0x8000_0000 {
            (low as i64 - 0x1_0000_0000) as i32
        } else {
            low as i32
        }
    }

    /// Remembers that `symbol` was subscribed under `request_id`, and tells
    /// the observers.
    pub fn subscribed(&mut self, emitter: &mut EventEmitter, symbol: &str, request_id: i32)
        ensures
            final(self)@ == old(self)@.insert(symbol@, request_id),
            final(emitter)@ == emitted(
                old(emitter)@,
                AppEventView::MarketDataSubscribed { symbol: symbol@ },
            ),
    {
        self.active_subscriptions.insert(symbol.to_owned(), request_id);
        let _ = emitter.emit(AppEvent::MarketDataSubscribed { symbol: symbol.to_owned() });
    }

    /// Forgets the subscription of `symbol`. If there was one the observers
    /// are told. Returns whether there was one.
    pub fn unsubscribe(&mut self, emitter: &mut EventEmitter, symbol: &str) -> (r: bool)
        ensures
            r == old(self)@.contains_key(symbol@),
            final(self)@ == old(self)@.remove(symbol@),
            final(emitter)@ == if r {
                emitted(old(emitter)@, AppEventView::MarketDataUnsubscribed { symbol: symbol@ })
            } else {
                old(emitter)@
            },
    {
        match self.active_subscriptions.remove(symbol) {
            Some(_) => {
                let _ = emitter.emit(AppEvent::MarketDataUnsubscribed { symbol: symbol.to_owned() });
                true
            },
            None => false,
        }
    }

    /// The subscribed symbols, each once, in the order in which they were
    /// subscribed.
    pub fn get_active_subscriptions(&self) -> (r: Vec<String>)
        ensures
            r@.map_values(|s: String| s@) == self.symbols(),
            self@.dom().finite(),
            r@.len() == self@.dom().len(),
            forall|i: int| 0 <= i < r@.len() ==> self@.contains_key(#[trigger] r@[i]@),
            forall|i: int, j: int| 0 <= i < j < r@.len() ==> r@[i]@ != r@[j]@,
            forall|k: Seq<char>| self@.contains_key(k) ==> self.symbols().contains(k),
    {
        let n = self.active_subscriptions.len();
        let mut out: Vec<String> = Vec::new();
        let mut i: usize = 0;
        while i < n
            invariant
                i <= n,
                n == self.active_subscriptions.spec_len(),
                out@.len() == i,
                forall|j: int| 0 <= j < i ==> (#[trigger] out@[j])@ == self.active_subscriptions.spec_key(j),
            decreases n - i,
        {
            out.push(self.active_subscriptions.key_at(i).clone());
            i = i + 1;
        }
        proof {
            assert(out@.map_values(|s: String| s@) =~= self.symbols());
            assert forall|j: int| 0 <= j < out@.len() implies self@.contains_key(
                #[trigger] out@[j]@,
            ) by {
                assert(self@.contains_key(self.active_subscriptions.spec_key(j)));
            }
            assert forall|k: Seq<char>| self@.contains_key(k) implies self.symbols().contains(k) by {
                let p = choose|p: int|
                    0 <= p < self.active_subscriptions.spec_len()
                        && #[trigger] self.active_subscriptions.spec_key(p) == k;
                assert(self.symbols()[p] == k);
            }
        }
        out
    }

    /// Forgets every subscription, telling the observers of each, in the
    /// order in which they were subscribed.
    pub fn clear_all_subscriptions(&mut self, emitter: &mut EventEmitter)
        ensures
            final(self)@ == Map::<Seq<char>, i32>::empty(),
            final(emitter)@ == if old(emitter)@.attached {
                EmitterView {
                    attached: true,
                    pending: old(emitter)@.pending + unsubscribed_events(old(self).symbols()),
                }
            } else {
                old(emitter)@
            },
    {
        let symbols = self.get_active_subscriptions();
        let ghost names = old(self).symbols();
        let ghost before = old(self)@;
        let mut j: usize = 0;
        while j < symbols.len()
            invariant
                j <= symbols@.len(),
                symbols@.map_values(|s: String| s@) == names,
                forall|a: int, b: int| 0 <= a < b < symbols@.len() ==> symbols@[a]@ != symbols@[b]@,
                forall|a: int| 0 <= a < symbols@.len() ==> before.contains_key(#[trigger] symbols@[a]@),
                forall|k: Seq<char>| before.contains_key(k) ==> names.contains(k),
                self@ == before.remove_keys(names.take(j as int).to_set()),
                emitter@ == if old(emitter)@.attached {
                    EmitterView {
                        attached: true,
                        pending: old(emitter)@.pending + unsubscribed_events(names.take(j as int)),
                    }
                } else {
                    old(emitter)@
                },
            decreases symbols@.len() - j,
        {
            let ghost name = symbols@[j as int]@;
            let ghost prev = names.take(j as int);
            let ghost next = names.take(j + 1);
            proof {
                assert(names[j as int] == name);
                assert(before.contains_key(name));
                assert(!prev.to_set().contains(name)) by {
                    if prev.contains(name) {
                        let a = choose|a: int| 0 <= a < prev.len() && #[trigger] prev[a] == name;
                        assert(names[a] == symbols@[a]@);
                    }
                }
            }
            let was = self.unsubscribe(emitter, symbols[j].as_str());
            proof {
                assert(was);
                assert(next =~= prev.push(name));
                assert(next.to_set() =~= prev.to_set().insert(name)) by {
                    assert forall|k: Seq<char>| next.to_set().contains(k) <==> prev.to_set().insert(
                        name,
                    ).contains(k) by {
                        if next.contains(k) {
                            let a = choose|a: int| 0 <= a < next.len() && #[trigger] next[a] == k;
                            if a < j {
                                assert(prev[a] == k);
                            }
                        }
                        if prev.contains(k) {
                            let a = choose|a: int| 0 <= a < prev.len() && #[trigger] prev[a] == k;
                            assert(next[a] == k);
                        }
                        if k == name {
                            assert(next[j as int] == k);
                        }
                    }
                }
                assert(self@ =~= before.remove_keys(next.to_set()));
                assert(unsubscribed_events(next) =~= unsubscribed_events(prev).push(
                    AppEventView::MarketDataUnsubscribed { symbol: name },
                ));
                if old(emitter)@.attached {
                    assert(emitter@.pending =~= old(emitter)@.pending + unsubscribed_events(next));
                }
            }
            j = j + 1;
        }
        proof {
            assert(names.take(names.len() as int) =~= names);
            assert(self@ =~= Map::<Seq<char>, i32>::empty()) by {
                assert forall|k: Seq<char>| !self@.contains_key(k) by {
                    if before.contains_key(k) {
                        assert(names.contains(k));
                        assert(names.to_set().contains(k));
                    }
                }
            }
        }
    }

    /// What a reader is told when no data has come for `symbol`.
    pub fn no_data(symbol: &str) -> (r: String)
        ensures
            r@ == no_data_message(symbol@),
    {
        String::from_str("No market data available for ").concat(symbol)
    }

    /// What is reported of a subscription that was made.
    pub fn subscribed_report(symbol: &str) -> (r: String)
        ensures
            r@ == subscribed_message(symbol@),
    {
        String::from_str("Subscribed to market data for ").concat(symbol)
    }
}

} // verus!
