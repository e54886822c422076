use quantum_kapital::events::AppEvent;
use quantum_kapital::ibkr::client::{ConnectStep, OpenOutcome};
use quantum_kapital::ibkr::error::IbkrError;
use quantum_kapital::ibkr::state::{ConnectionInfo, IbkrState, PositionCache};
use quantum_kapital::ibkr::types::{ConnectionConfig, Position};

#[derive(Debug, Clone, PartialEq)]
struct Figures {
    position: f64,
    market_price: f64,
    market_value: f64,
    average_cost: f64,
    unrealized_pnl: f64,
    realized_pnl: f64,
}

#[derive(Debug, Clone, PartialEq)]
struct Quote {
    bid_price: Option<f64>,
    ask_price: Option<f64>,
}

fn position(symbol: &str, size: f64) -> Position<Figures> {
    Position {
        symbol: symbol.to_string(),
        figures: Figures {
            position: size,
            market_price: 150.0,
            market_value: 15000.0,
            average_cost: 145.0,
            unrealized_pnl: 500.0,
            realized_pnl: 0.0,
        },
        account: "DU123456".to_string(),
        contract_type: "STK".to_string(),
        currency: "USD".to_string(),
        exchange: "NASDAQ".to_string(),
        local_symbol: symbol.to_string(),
    }
}

type State = IbkrState<Vec<String>, Quote, Figures>;

#[test]
fn a_whole_session() {
    let mut state: State = IbkrState::new(ConnectionConfig::default());
    state.event_emitter.set_app_handle();

    // connect
    assert!(matches!(state.client.connect(), ConnectStep::Open { .. }));
    let accounts = vec!["DU123456".to_string()];
    assert!(matches!(
        state.client.open_finished(OpenOutcome::Opened(accounts)),
        ConnectStep::Done(Ok(()))
    ));
    state.update_connection_status_at(true, 1_000);
    assert!(state.client.is_connected());

    // accounts of the single-account session
    let accounts = state.client.handle().unwrap().clone();
    assert_eq!(accounts, vec!["DU123456".to_string()]);

    // an empty position set
    assert!(state.get_cached_positions().is_empty());
    state.cache_positions_at(Vec::new(), 1_500);
    assert!(state.get_cached_positions().is_empty());

    // one cached position comes back as it went in
    state.cache_positions_at(vec![position("AAPL", 100.0)], 2_000);
    let cached = state.get_cached_positions();
    assert_eq!(cached.len(), 1);
    assert_eq!(cached[0].symbol, "AAPL");
    assert_eq!(cached[0].figures.position, 100.0);
    assert_eq!(cached[0].figures, position("AAPL", 100.0).figures);
    assert_eq!(cached[0].account, "DU123456");

    // disconnect
    assert!(matches!(state.client.disconnect(), ConnectStep::Drop { .. }));
    assert!(matches!(state.client.drop_finished(), ConnectStep::Sleep { millis: 1000 }));
    assert!(matches!(state.client.grace_elapsed(), ConnectStep::Done(Ok(()))));
    state.update_connection_status_at(false, 3_000);
    state.increment_client_id();

    assert!(matches!(state.client.handle(), Err(IbkrError::NotConnected)));
    assert!(!state.client.get_connection_status(None).connected);
    assert_eq!(state.client.config().client_id, 101);
    assert_eq!(
        state.connection_info(),
        ConnectionInfo { connected: false, last_attempt: Some(3_000), retry_count: 0 }
    );

    let events = state.event_emitter.take_pending();
    let names: Vec<&str> = events.iter().map(|e| e.name()).collect();
    assert_eq!(
        names,
        vec![
            "connection-status-changed",
            "positions-refreshed",
            "positions-refreshed",
            "connection-status-changed"
        ]
    );
}

#[test]
fn position_cache_staleness() {
    let mut state: State = IbkrState::new(ConnectionConfig::default());
    assert!(state.is_cache_stale_at(30, 0));
    assert!(state.is_cache_stale_at(30, 1_000_000));
    assert!(state.is_cache_stale(30));

    state.cache_positions_at(vec![position("AAPL", 100.0)], 10_000);
    assert!(!state.is_cache_stale_at(30, 10_000));
    assert!(!state.is_cache_stale_at(30, 39_999));
    assert!(state.is_cache_stale_at(30, 40_000));
    assert!(state.is_cache_stale_at(30, 100_000));
    assert!(!state.is_cache_stale_at(30, 5_000));
    assert!(state.is_cache_stale_at(0, 10_000));
    assert!(!state.is_cache_stale_at(1, 9_000));
    assert!(state.is_cache_stale_at(-1, 9_500));
    assert!(state.is_cache_stale_at(-1, 9_000));
    assert!(!state.is_cache_stale_at(-1, 8_000));

    state.cache_positions(vec![position("AAPL", 100.0)]);
    assert!(!state.is_cache_stale(30));
}

#[test]
fn cache_positions_replaces_the_whole_set() {
    let mut cache: PositionCache<Figures> = PositionCache::new();
    assert_eq!(cache.last_refresh(), None);
    cache.replace_all(vec![position("AAPL", 1.0), position("MSFT", 2.0), position("AAPL", 3.0)], 5);
    let mut listed: Vec<(String, f64)> =
        cache.list().iter().map(|p| (p.symbol.clone(), p.figures.position)).collect();
    listed.sort_by(|a, b| a.0.cmp(&b.0));
    assert_eq!(listed, vec![("AAPL".to_string(), 3.0), ("MSFT".to_string(), 2.0)]);
    assert_eq!(cache.last_refresh(), Some(5));

    cache.replace_all(vec![position("TSLA", 9.0)], 6);
    let listed: Vec<String> = cache.list().iter().map(|p| p.symbol.clone()).collect();
    assert_eq!(listed, vec!["TSLA".to_string()]);
    assert_eq!(cache.last_refresh(), Some(6));
}

#[test]
fn market_data_is_overwritten_never_evicted() {
    let mut state: State = IbkrState::new(ConnectionConfig::default());
    state.event_emitter.set_app_handle();
    assert!(state.get_cached_market_data("AAPL").is_none());
    state.cache_market_data_at(
        "AAPL".to_string(),
        Quote { bid_price: Some(150.25), ask_price: Some(150.5) },
        "{\"bid_price\":150.25,\"ask_price\":150.5}".to_string(),
        1,
    );
    state.cache_market_data_at(
        "AAPL".to_string(),
        Quote { bid_price: Some(151.0), ask_price: None },
        "{\"bid_price\":151.0}".to_string(),
        2,
    );
    state.cache_market_data(
        "MSFT".to_string(),
        Quote { bid_price: None, ask_price: None },
        "{}".to_string(),
    );
    assert_eq!(
        state.get_cached_market_data("AAPL"),
        Some(&Quote { bid_price: Some(151.0), ask_price: None })
    );
    assert_eq!(state.market_data_cache.updated_at("AAPL"), Some(2));
    assert!(state.market_data_cache.updated_at("MSFT").is_some());
    assert_eq!(state.market_data_cache.updated_at("TSLA"), None);
    let events = state.event_emitter.take_pending();
    assert_eq!(events.len(), 3);
    assert!(matches!(
        &events[0],
        AppEvent::MarketDataUpdate { symbol, data }
            if symbol == "AAPL" && data == "{\"bid_price\":150.25,\"ask_price\":150.5}"
    ));
    assert!(matches!(
        &events[1],
        AppEvent::MarketDataUpdate { symbol, data }
            if symbol == "AAPL" && data == "{\"bid_price\":151.0}"
    ));
    assert!(matches!(
        &events[2],
        AppEvent::MarketDataUpdate { symbol, data } if symbol == "MSFT" && data == "{}"
    ));
    assert_eq!(state.event_emitter.pending_len(), 0);
}

#[test]
fn status_updates_and_retry_counts() {
    let mut state: State = IbkrState::new(ConnectionConfig::default());
    assert_eq!(
        state.connection_info(),
        ConnectionInfo { connected: false, last_attempt: None, retry_count: 0 }
    );
    state.increment_retry_count();
    state.increment_retry_count();
    state.update_connection_status_at(false, 77);
    assert_eq!(
        state.connection_info(),
        ConnectionInfo { connected: false, last_attempt: Some(77), retry_count: 2 }
    );
    state.update_connection_status_at(true, 78);
    assert_eq!(
        state.connection_info(),
        ConnectionInfo { connected: true, last_attempt: Some(78), retry_count: 0 }
    );
    state.update_connection_status(false);
    assert!(!state.connection_info().connected);
    // nobody attached: the events were dropped
    assert_eq!(state.event_emitter.pending_len(), 0);
    assert_eq!(state.rate_limiter.get_remaining_at("anything", 0), 50);
}

#[test]
fn events_without_an_application_are_lost() {
    let mut state: State = IbkrState::new(ConnectionConfig::default());
    assert_eq!(
        state.event_emitter.emit(AppEvent::PositionsRefreshed),
        Err("App handle not initialized".to_string())
    );
    state.event_emitter.set_app_handle();
    assert_eq!(state.event_emitter.emit(AppEvent::connection_status(true)), Ok(()));
    let events = state.event_emitter.take_pending();
    assert!(matches!(
        &events[0],
        AppEvent::ConnectionStatusChanged { connected: true, message } if message == "Connected to IBKR"
    ));
    assert!(matches!(
        AppEvent::connection_status(false),
        AppEvent::ConnectionStatusChanged { connected: false, message } if message == "Disconnected from IBKR"
    ));
}
