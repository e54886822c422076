//! The state of a session: the connection manager, the request budgets, the
//! caches of market data and positions, and the queue of events.
//!
//! `H` is the handle to a live session, `S` a market-data snapshot and `D` the
//! figures of a position. The state keeps them; it reads none of them.

use crate::events::emitter::{
    emitted,
    status_event,
    AppEvent,
    AppEventView,
    EmitterView,
    EventEmitter,
};
use crate::ibkr::client::{next_client_id, one_more, ClientModel, IbkrClient, Phase};
use crate::ibkr::types::connection::{ConnectionConfig, ConnectionConfigView};
use crate::ibkr::types::positions::Position;
use crate::middleware::rate_limit::{RateLimit, RateLimiter};
use crate::utils::helpers::current_timestamp_ms;
use crate::utils::table::StringTable;
use vstd::hash_map::StringHashMap;
use vstd::prelude::*;

verus! {

/// The ceiling a session gives to an endpoint that was given none.
pub const DEFAULT_RATE_LIMIT: u32 = 50;

/// After this many seconds cached positions are refreshed before they are
/// trusted.
pub const POSITION_MAX_AGE_SECS: i64 = 30;

/// What is known of the connection: whether the last attempt left a session,
/// when it was made, in milliseconds since the epoch, and how many attempts
/// have failed since one succeeded.
#[derive(Debug, Clone, Copy, PartialEq, Eq, Structural)]
pub struct ConnectionInfo {
    pub connected: bool,
    pub last_attempt: Option<i64>,
    pub retry_count: u32,
}

/// Whole seconds in `millis` milliseconds, rounded towards zero.
pub open spec fn whole_seconds(millis: int) -> int {
    if millis >= 0 {
        millis / 1000
    } else {
        -((-millis) / 1000)
    }
}

/// Whether data stamped `stamp` is stale at `now` under a greatest age of
/// `max_age_secs`: data that was never stamped is; stamped data is once its
/// age in whole seconds has reached the greatest age.
pub open spec fn stale_at(stamp: Option<i64>, max_age_secs: i64, now: i64) -> bool {
    match stamp {
        Some(t) => whole_seconds(now - t) >= max_age_secs,
        None => true,
    }
}

/// Positions that were never cached are stale, whatever the clock shows and
/// whatever age is allowed.
pub proof fn law_stale_before_first_refresh(max_age_secs: i64, now: i64)
    ensures
        stale_at(None, max_age_secs, now),
{
}

/// Right after a refresh the positions are fresh, if any age at all is
/// allowed.
pub proof fn law_fresh_after_refresh(max_age_secs: i64, now: i64)
    requires
        max_age_secs >= 1,
    ensures
        !stale_at(Some(now), max_age_secs, now),
{
}

/// The positions stay fresh until the greatest age is reached, and are stale
/// from then on.
pub proof fn law_stale_once_age_is_reached(stamp: i64, max_age_secs: i64, now: i64)
    requires
        max_age_secs >= 1,
        now >= stamp,
    ensures
        stale_at(Some(stamp), max_age_secs, now) <==> now - stamp >= max_age_secs * 1000,
{
}

/// The positions of `list` by their symbols: of two with one symbol the later
/// one stays.
pub open spec fn by_symbol<D>(list: Seq<Position<D>>) -> Map<Seq<char>, Position<D>>
    decreases list.len(),
{
    if list.len() == 0 {
        Map::empty()
    } else {
        by_symbol(list.drop_last()).insert(list.last().symbol@, list.last())
    }
}

/// Every position of `m` stands under its own symbol.
pub open spec fn keyed_by_symbol<D>(m: Map<Seq<char>, Position<D>>) -> bool {
    forall|k: Seq<char>| m.contains_key(k) ==> (#[trigger] m[k]).symbol@ == k
}

/// Positions listed by symbol stand under their own symbols, and a list of
/// one position gives a map of exactly that position.
pub proof fn law_by_symbol<D>(list: Seq<Position<D>>)
    ensures
        keyed_by_symbol(by_symbol(list)),
        by_symbol(list).dom().finite(),
        by_symbol(list).dom().len() <= list.len(),
        list.len() == 1 ==> by_symbol(list) == Map::<Seq<char>, Position<D>>::empty().insert(
            list[0].symbol@,
            list[0],
        ),
        forall|i: int| 0 <= i < list.len() ==> by_symbol(list).contains_key(#[trigger] list[i].symbol@),
    decreases list.len(),
{
    if list.len() > 0 {
        law_by_symbol(list.drop_last());
        assert forall|i: int| 0 <= i < list.len() implies by_symbol(list).contains_key(
            #[trigger] list[i].symbol@,
        ) by {
            if i < list.len() - 1 {
                assert(list.drop_last()[i] == list[i]);
            }
        }
        if list.len() == 1 {
            assert(list.drop_last().len() == 0);
        }
    }
}

/// A position cache as plain values.
pub struct PositionCacheView<D> {
    pub positions: Map<Seq<char>, Position<D>>,
    pub last_refresh: Option<i64>,
}

/// The positions as they were last fetched, by symbol, and when that was.
pub struct PositionCache<D> {
    positions: StringTable<Position<D>>,
    last_refresh: Option<i64>,
}

impl<D> View for PositionCache<D> {
    type V = PositionCacheView<D>;

    closed spec fn view(&self) -> PositionCacheView<D> {
        PositionCacheView { positions: self.positions@, last_refresh: self.last_refresh }
    }
}

impl<D> PositionCache<D> {
    #[verifier::type_invariant]
    closed spec fn inv(&self) -> bool {
        keyed_by_symbol(self.positions@)
    }

    /// A cache that was never filled.
    pub fn new() -> (r: Self)
        ensures
            r@ == (PositionCacheView::<D> { positions: Map::empty(), last_refresh: None }),
    {
        PositionCache { positions: StringTable::new(), last_refresh: None }
    }

    /// Puts `positions` in place of all that was cached, stamped `now`.
    pub fn replace_all(&mut self, positions: Vec<Position<D>>, now: i64)
        ensures
            final(self)@ == (PositionCacheView {
                positions: by_symbol(positions@),
                last_refresh: Some(now),
            }),
    {
        let mut table: StringTable<Position<D>> = StringTable::new();
        let ghost all = positions@;
        for p in it: positions
            invariant
                it.seq() == all,
                table@ == by_symbol(all.take(it.index() as int)),
        {
            let ghost i = it.index() as int;
            table.insert(p.symbol.clone(), p);
            proof {
                assert(all.take(i + 1).drop_last() =~= all.take(i));
            }
        }
        proof {
            assert(all.take(all.len() as int) =~= all);
            law_by_symbol(all);
        }
        self.positions = table;
        self.last_refresh = Some(now);
    }

    /// The cached positions, each once, in no particular order.
    pub fn list(&self) -> (r: Vec<&Position<D>>)
        ensures
            self@.positions.dom().finite(),
            r@.len() == self@.positions.dom().len(),
            forall|i: int|
                0 <= i < r@.len() ==> self@.positions.contains_key((#[trigger] r@[i]).symbol@)
                    && self@.positions[r@[i].symbol@] == *r@[i],
            forall|i: int, j: int| 0 <= i < j < r@.len() ==> r@[i].symbol@ != r@[j].symbol@,
    {
        proof {
            use_type_invariant(self);
        }
        let n = self.positions.len();
        let mut out: Vec<&Position<D>> = Vec::new();
        let mut i: usize = 0;
        while i < n
            invariant
                i <= n,
                n == self.positions.spec_len(),
                self.positions.listed(),
                keyed_by_symbol(self.positions@),
                out@.len() == i,
                forall|j: int| 0 <= j < i ==> *(#[trigger] out@[j]) == self.positions.spec_value(j),
            decreases n - i,
        {
            out.push(self.positions.value_at(i));
            i = i + 1;
        }
        proof {
            assert forall|j: int| 0 <= j < out@.len() implies self@.positions.contains_key(
                (#[trigger] out@[j]).symbol@,
            ) && self@.positions[out@[j].symbol@] == *out@[j] && out@[j].symbol@
                == self.positions.spec_key(j) by {
                assert(self.positions@.contains_key(self.positions.spec_key(j)));
            }
        }
        out
    }

    /// When the positions were last put in, if ever.
    pub fn last_refresh(&self) -> (r: Option<i64>)
        ensures
            r == self@.last_refresh,
    {
        self.last_refresh
    }

    /// Whether the cached positions are stale at `now` under a greatest age of
    /// `max_age_secs` seconds.
    pub fn is_stale(&self, max_age_secs: i64, now: i64) -> (r: bool)
        ensures
            r == stale_at(self@.last_refresh, max_age_secs, now),
    {
        match self.last_refresh {
            Some(stamp) => {
                let passed: i128 = now as i128 - stamp as i128;
                if passed >= 0 {
                    passed / 1000 >= max_age_secs as i128
                } else {
                    -((-passed) / 1000) >= max_age_secs as i128
                }
            },
            None => true,
        }
    }
}

/// A market-data cache as plain values.
pub struct MarketDataCacheView<S> {
    pub snapshots: Map<Seq<char>, S>,
    pub last_updated: Map<Seq<char>, i64>,
}

/// The last snapshot of every symbol that sent one, and when it came.
#[verifier::reject_recursive_types(S)]
pub struct MarketDataCache<S> {
    snapshots: StringHashMap<S>,
    last_updated: StringHashMap<i64>,
}

impl<S> View for MarketDataCache<S> {
    type V = MarketDataCacheView<S>;

    closed spec fn view(&self) -> MarketDataCacheView<S> {
        MarketDataCacheView { snapshots: self.snapshots@, last_updated: self.last_updated@ }
    }
}

impl<S> MarketDataCache<S> {
    /// An empty cache.
    pub fn new() -> (r: Self)
        ensures
            r@ == (MarketDataCacheView::<S> { snapshots: Map::empty(), last_updated: Map::empty() }),
    {
        MarketDataCache { snapshots: StringHashMap::new(), last_updated: StringHashMap::new() }
    }

    /// Puts `snapshot` in place of the last one of `symbol`, stamped `now`.
    pub fn store(&mut self, symbol: &str, snapshot: S, now: i64)
        ensures
            final(self)@ == (MarketDataCacheView {
                snapshots: old(self)@.snapshots.insert(symbol@, snapshot),
                last_updated: old(self)@.last_updated.insert(symbol@, now),
            }),
    {
        self.snapshots.insert(symbol.to_owned(), snapshot);
        self.last_updated.insert(symbol.to_owned(), now);
    }

    /// The last snapshot of `symbol`, if one was stored.
    pub fn get(&self, symbol: &str) -> (r: Option<&S>)
        ensures
            match r {
                Some(s) => self@.snapshots.contains_key(symbol@) && *s == self@.snapshots[symbol@],
                None => !self@.snapshots.contains_key(symbol@),
            },
    {
        self.snapshots.get(symbol)
    }

    /// When the last snapshot of `symbol` was stored, if one was.
    pub fn updated_at(&self, symbol: &str) -> (r: Option<i64>)
        ensures
            match r {
                Some(t) => self@.last_updated.contains_key(symbol@) && t == self@.last_updated[symbol@],
                None => !self@.last_updated.contains_key(symbol@),
            },
    {
        match self.last_updated.get(symbol) {
            Some(t) => Some(*t),
            None => None,
        }
    }
}

/// The state of a session.
#[verifier::reject_recursive_types(S)]
pub struct IbkrState<H, S, D> {
    pub client: IbkrClient<H>,
    pub event_emitter: EventEmitter,
    pub rate_limiter: RateLimiter,
    pub connected: bool,
    pub last_attempt: Option<i64>,
    pub market_data_cache: MarketDataCache<S>,
    pub position_cache: PositionCache<D>,
}

/// What noting the end of an attempt at `now` does to a session: the status
/// and the time are kept, a success clears the count of failed attempts, and
/// the observers are told; all else stays.
pub open spec fn status_noted<H, S, D>(
    before: IbkrState<H, S, D>,
    after: IbkrState<H, S, D>,
    connected: bool,
    now: i64,
) -> bool {
    &&& after.connected == connected
    &&& after.last_attempt == Some(now)
    &&& after.client@ == (ClientModel {
        client: before.client@.client,
        config: before.client@.config,
        phase: before.client@.phase,
        retry_count: if connected {
            0
        } else {
            before.client@.retry_count
        },
    })
    &&& after.event_emitter@ == emitted(before.event_emitter@, status_event(connected))
    &&& after.rate_limiter@ == before.rate_limiter@
    &&& after.market_data_cache@ == before.market_data_cache@
    &&& after.position_cache@ == before.position_cache@
}

/// What caching a snapshot of `symbol` at `now` does to a session: the
/// snapshot takes the place of the last one of the symbol, stamped `now`, and
/// the observers are told, with `data`, the snapshot as JSON text; all else
/// stays.
pub open spec fn snapshot_cached<H, S, D>(
    before: IbkrState<H, S, D>,
    after: IbkrState<H, S, D>,
    symbol: Seq<char>,
    snapshot: S,
    data: Seq<char>,
    now: i64,
) -> bool {
    &&& after.market_data_cache@ == (MarketDataCacheView {
        snapshots: before.market_data_cache@.snapshots.insert(symbol, snapshot),
        last_updated: before.market_data_cache@.last_updated.insert(symbol, now),
    })
    &&& after.event_emitter@ == emitted(
        before.event_emitter@,
        AppEventView::MarketDataUpdate { symbol, data },
    )
    &&& after.client@ == before.client@
    &&& after.connected == before.connected
    &&& after.last_attempt == before.last_attempt
    &&& after.rate_limiter@ == before.rate_limiter@
    &&& after.position_cache@ == before.position_cache@
}

/// What caching `positions` at `now` does to a session: they take the place
/// of all cached positions, under one stamp, and the observers are told; all
/// else stays.
pub open spec fn positions_cached<H, S, D>(
    before: IbkrState<H, S, D>,
    after: IbkrState<H, S, D>,
    positions: Seq<Position<D>>,
    now: i64,
) -> bool {
    &&& after.position_cache@ == (PositionCacheView {
        positions: by_symbol(positions),
        last_refresh: Some(now),
    })
    &&& after.event_emitter@ == emitted(before.event_emitter@, AppEventView::PositionsRefreshed)
    &&& after.client@ == before.client@
    &&& after.connected == before.connected
    &&& after.last_attempt == before.last_attempt
    &&& after.rate_limiter@ == before.rate_limiter@
    &&& after.market_data_cache@ == before.market_data_cache@
}

impl<H, S, D> IbkrState<H, S, D> {
    /// A session that was never connected, for the gateway that `config`
    /// names: budgets of [`DEFAULT_RATE_LIMIT`] requests a second, empty
    /// caches, no event waiting.
    pub fn new(config: ConnectionConfig) -> (r: Self)
        ensures
            r.client@ == (ClientModel::<H> {
                client: None,
                config: config@,
                phase: Phase::Idle,
                retry_count: 0,
            }),
            r.event_emitter@ == (EmitterView { attached: false, pending: Seq::empty() }),
            r.rate_limiter@.default_limit == DEFAULT_RATE_LIMIT,
            r.rate_limiter@.limits == Map::<Seq<char>, RateLimit>::empty(),
            !r.connected,
            r.last_attempt is None,
            r.market_data_cache@ == (MarketDataCacheView::<S> {
                snapshots: Map::empty(),
                last_updated: Map::empty(),
            }),
            r.position_cache@ == (PositionCacheView::<D> {
                positions: Map::empty(),
                last_refresh: None,
            }),
    {
        IbkrState {
            client: IbkrClient::new(config),
            event_emitter: EventEmitter::new(),
            rate_limiter: RateLimiter::new(DEFAULT_RATE_LIMIT),
            connected: false,
            last_attempt: None,
            market_data_cache: MarketDataCache::new(),
            position_cache: PositionCache::new(),
        }
    }

    /// What is known of the connection.
    pub fn connection_info(&self) -> (r: ConnectionInfo)
        ensures
            r == (ConnectionInfo {
                connected: self.connected,
                last_attempt: self.last_attempt,
                retry_count: self.client@.retry_count,
            }),
    {
        ConnectionInfo {
            connected: self.connected,
            last_attempt: self.last_attempt,
            retry_count: self.client.retry_count(),
        }
    }

    /// Notes how an attempt on the connection ended at `now`: whether it left
    /// a session. After a success no failed attempt is on the count. The
    /// observers are told.
    pub fn update_connection_status_at(&mut self, connected: bool, now: i64)
        ensures
            status_noted(*old(self), *final(self), connected, now),
    {
        self.connected = connected;
        self.last_attempt = Some(now);
        if connected {
            self.client.reset_retry_count();
        }
        let _ = self.event_emitter.emit(AppEvent::connection_status(connected));
    }

    /// Notes how an attempt on the connection ended, at the time the clock
    /// shows.
    pub fn update_connection_status(&mut self, connected: bool)
        ensures
            exists|now: i64| status_noted(*old(self), *final(self), connected, now),
    {
        let now = current_timestamp_ms();
        self.update_connection_status_at(connected, now);
        assert(status_noted(*old(self), *self, connected, now));
    }

    /// Counts one more failed attempt.
    pub fn increment_retry_count(&mut self)
        ensures
            final(self).client@ == (ClientModel {
                client: old(self).client@.client,
                config: old(self).client@.config,
                phase: old(self).client@.phase,
                retry_count: one_more(old(self).client@.retry_count),
            }),
            final(self).connected == old(self).connected,
            final(self).last_attempt == old(self).last_attempt,
            final(self).event_emitter@ == old(self).event_emitter@,
            final(self).rate_limiter@ == old(self).rate_limiter@,
            final(self).market_data_cache@ == old(self).market_data_cache@,
            final(self).position_cache@ == old(self).position_cache@,
    {
        self.client.increment_retry_count();
    }

    /// Moves on to the next client identity for the next session.
    pub fn increment_client_id(&mut self)
        ensures
            final(self).client@ == (ClientModel {
                client: old(self).client@.client,
                config: ConnectionConfigView {
                    host: old(self).client@.config.host,
                    port: old(self).client@.config.port,
                    client_id: next_client_id(old(self).client@.config.client_id),
                },
                phase: old(self).client@.phase,
                retry_count: old(self).client@.retry_count,
            }),
            final(self).connected == old(self).connected,
            final(self).last_attempt == old(self).last_attempt,
            final(self).event_emitter@ == old(self).event_emitter@,
            final(self).rate_limiter@ == old(self).rate_limiter@,
            final(self).market_data_cache@ == old(self).market_data_cache@,
            final(self).position_cache@ == old(self).position_cache@,
    {
        self.client.increment_client_id();
    }

    /// Caches `snapshot` as the last one of `symbol`, stamped `now`, and tells
    /// the observers. `data` is the snapshot as JSON text, for them.
    pub fn cache_market_data_at(&mut self, symbol: String, snapshot: S, data: String, now: i64)
        ensures
            snapshot_cached(*old(self), *final(self), symbol@, snapshot, data@, now),
    {
        self.market_data_cache.store(symbol.as_str(), snapshot, now);
        let _ = self.event_emitter.emit(AppEvent::MarketDataUpdate { symbol, data });
    }

    /// Caches `snapshot` as the last one of `symbol`, stamped by the clock.
    pub fn cache_market_data(&mut self, symbol: String, snapshot: S, data: String)
        ensures
            exists|now: i64|
                snapshot_cached(*old(self), *final(self), symbol@, snapshot, data@, now),
    {
        let now = current_timestamp_ms();
        self.cache_market_data_at(symbol, snapshot, data, now);
        assert(snapshot_cached(*old(self), *self, symbol@, snapshot, data@, now));
    }

    /// The last snapshot of `symbol`, however old.
    pub fn get_cached_market_data(&self, symbol: &str) -> (r: Option<&S>)
        ensures
            match r {
                Some(s) => self.market_data_cache@.snapshots.contains_key(symbol@) && *s
                    == self.market_data_cache@.snapshots[symbol@],
                None => !self.market_data_cache@.snapshots.contains_key(symbol@),
            },
    {
        self.market_data_cache.get(symbol)
    }

    /// Puts `positions` in place of all cached positions, stamped `now`, and
    /// tells the observers.
    pub fn cache_positions_at(&mut self, positions: Vec<Position<D>>, now: i64)
        ensures
            positions_cached(*old(self), *final(self), positions@, now),
    {
        self.position_cache.replace_all(positions, now);
        let _ = self.event_emitter.emit(AppEvent::PositionsRefreshed);
    }

    /// Puts `positions` in place of all cached positions, stamped by the
    /// clock.
    pub fn cache_positions(&mut self, positions: Vec<Position<D>>)
        ensures
            exists|now: i64| positions_cached(*old(self), *final(self), positions@, now),
    {
        let now = current_timestamp_ms();
        self.cache_positions_at(positions, now);
        assert(positions_cached(*old(self), *self, positions@, now));
    }

    /// The cached positions, each once, in no particular order.
    pub fn get_cached_positions(&self) -> (r: Vec<&Position<D>>)
        ensures
            self.position_cache@.positions.dom().finite(),
            r@.len() == self.position_cache@.positions.dom().len(),
            forall|i: int|
                0 <= i < r@.len() ==> self.position_cache@.positions.contains_key(
                    (#[trigger] r@[i]).symbol@,
                ) && self.position_cache@.positions[r@[i].symbol@] == *r@[i],
            forall|i: int, j: int| 0 <= i < j < r@.len() ==> r@[i].symbol@ != r@[j].symbol@,
    {
        self.position_cache.list()
    }

    /// Whether the cached positions are stale at `now` under a greatest age of
    /// `cache_duration_secs` seconds.
    pub fn is_cache_stale_at(&self, cache_duration_secs: i64, now: i64) -> (r: bool)
        ensures
            r == stale_at(self.position_cache@.last_refresh, cache_duration_secs, now),
    {
        self.position_cache.is_stale(cache_duration_secs, now)
    }

    /// Whether the cached positions are stale at the time the clock shows.
    pub fn is_cache_stale(&self, cache_duration_secs: i64) -> (r: bool)
        ensures
            exists|now: i64| r == stale_at(self.position_cache@.last_refresh, cache_duration_secs, now),
    {
        let now = current_timestamp_ms();
        let r = self.is_cache_stale_at(cache_duration_secs, now);
        assert(r == stale_at(self.position_cache@.last_refresh, cache_duration_secs, now));
        r
    }
}

} // verus!
