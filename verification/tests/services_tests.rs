use quantum_kapital::events::{AppEvent, EventEmitter};
use quantum_kapital::ibkr::error::IbkrError;
use quantum_kapital::ibkr::state::PositionCache;
use quantum_kapital::ibkr::types::OrderType;
use quantum_kapital::middleware::RateLimiter;
use quantum_kapital::services::account_service::{
    AccountService, PositionsSource, RetryPolicy, RetryStep, SummaryField, RETRY_DELAY_MS,
};
use quantum_kapital::services::cache_service::CacheService;
use quantum_kapital::services::financial_data_service::{FinancialDataService, FundamentalsQuery};
use quantum_kapital::services::market_service::{
    MarketService, SubscribeStep, BULK_DELAY_MS, DATA_WAIT_MS,
};
use quantum_kapital::services::trading_service::TradingService;

fn attached() -> EventEmitter {
    let mut emitter = EventEmitter::new();
    emitter.set_app_handle();
    emitter
}

#[test]
fn retries_stop_at_the_bound() {
    let (mut policy, first) = RetryPolicy::begin(3);
    assert!(matches!(first, RetryStep::Attempt));
    assert!(matches!(
        policy.attempt_failed("timeout"),
        RetryStep::WaitThenAttempt { millis: 2000 }
    ));
    assert!(matches!(
        policy.attempt_failed("timeout"),
        RetryStep::WaitThenAttempt { millis: RETRY_DELAY_MS }
    ));
    match policy.attempt_failed("Not connected") {
        RetryStep::GiveUp { message } => {
            assert_eq!(message, "Failed after 3 retries: Not connected")
        }
        other => panic!("expected to give up, got {:?}", other),
    }
    assert_eq!(policy.retries, 3);
    // a further failure is not counted
    assert!(matches!(policy.attempt_failed("again"), RetryStep::GiveUp { .. }));
    assert_eq!(policy.retries, 3);
}

#[test]
fn no_attempt_is_made_when_none_is_allowed() {
    let (policy, first) = RetryPolicy::begin(0);
    assert_eq!(policy.retries, 0);
    match first {
        RetryStep::GiveUp { message } => assert_eq!(message, "Failed after 0 retries: "),
        other => panic!("expected to give up, got {:?}", other),
    }
    let (mut single, first) = RetryPolicy::begin(1);
    assert!(matches!(first, RetryStep::Attempt));
    match single.attempt_failed("API error: x") {
        RetryStep::GiveUp { message } => assert_eq!(message, "Failed after 1 retries: API error: x"),
        other => panic!("expected to give up, got {:?}", other),
    }
}

#[test]
fn summary_tags() {
    assert_eq!(AccountService::summary_field("TotalCashValue"), Some(SummaryField::CashBalance));
    assert_eq!(AccountService::summary_field("NetLiquidation"), Some(SummaryField::TotalValue));
    assert_eq!(
        AccountService::summary_field("GrossPositionValue"),
        Some(SummaryField::SecuritiesValue)
    );
    assert_eq!(AccountService::summary_field("BuyingPower"), Some(SummaryField::BuyingPower));
    assert_eq!(
        AccountService::summary_field("ExcessLiquidity"),
        Some(SummaryField::ExcessLiquidity)
    );
    assert_eq!(AccountService::summary_field("UnrealizedPnL"), None);
    assert_eq!(AccountService::summary_field("netliquidation"), None);
}

#[test]
fn accounts_are_announced() {
    let mut emitter = attached();
    let accounts = vec!["DU123456".to_string(), "DU789012".to_string()];
    AccountService::accounts_retrieved(&mut emitter, &accounts);
    let events = emitter.take_pending();
    assert_eq!(events.len(), 1);
    assert!(matches!(&events[0], AppEvent::AccountsListChanged { accounts: a } if *a == accounts));
    assert_eq!(events[0].name(), "accounts-list-changed");
}

#[test]
fn positions_come_from_the_cache_for_thirty_seconds() {
    let mut cache: PositionCache<u8> = PositionCache::new();
    assert_eq!(AccountService::positions_source(&cache, 0), PositionsSource::Gateway);
    cache.replace_all(Vec::new(), 1_000);
    assert_eq!(AccountService::positions_source(&cache, 1_000), PositionsSource::Cache);
    assert_eq!(AccountService::positions_source(&cache, 30_999), PositionsSource::Cache);
    assert_eq!(AccountService::positions_source(&cache, 31_000), PositionsSource::Gateway);
}

#[test]
fn subscriptions_are_charged_and_tracked() {
    let mut limiter = RateLimiter::new(50);
    let mut emitter = attached();
    let mut market = MarketService::new();

    match market.subscribe_with_rate_limit(&mut limiter, "AAPL", 0) {
        SubscribeStep::Subscribe { remaining } => assert_eq!(remaining, 49),
        other => panic!("expected to subscribe, got {:?}", other),
    }
    market.subscribed(&mut emitter, "AAPL", 17);
    assert!(market.is_subscribed("AAPL"));

    match market.subscribe_with_rate_limit(&mut limiter, "AAPL", 10) {
        SubscribeStep::AlreadySubscribed { remaining } => assert_eq!(remaining, 48),
        other => panic!("expected to be subscribed, got {:?}", other),
    }
    assert!(matches!(
        market.subscribe_with_rate_limit(&mut limiter, "MSFT", 20),
        SubscribeStep::Subscribe { remaining: 47 }
    ));
    market.subscribed(&mut emitter, "MSFT", 18);
    assert_eq!(market.get_active_subscriptions(), vec!["AAPL".to_string(), "MSFT".to_string()]);

    assert!(market.unsubscribe(&mut emitter, "AAPL"));
    assert!(!market.unsubscribe(&mut emitter, "AAPL"));
    assert!(!market.is_subscribed("AAPL"));
    let names: Vec<&str> = emitter.take_pending().iter().map(|e| e.name()).collect();
    assert_eq!(
        names,
        vec!["market-data-subscribed", "market-data-subscribed", "market-data-unsubscribed"]
    );
}

#[test]
fn a_spent_budget_rejects_the_subscription() {
    let mut limiter = RateLimiter::new(50);
    limiter.set_limit_at("market_data", 1, 0);
    let market = MarketService::new();
    assert!(matches!(
        market.subscribe_with_rate_limit(&mut limiter, "AAPL", 100),
        SubscribeStep::Subscribe { remaining: 0 }
    ));
    match market.subscribe_with_rate_limit(&mut limiter, "MSFT", 400) {
        SubscribeStep::Rejected { message } => {
            assert_eq!(message, "Rate limit exceeded for market_data. Try again in 600 ms")
        }
        other => panic!("expected a rejection, got {:?}", other),
    }
}

#[test]
fn clearing_subscriptions_announces_each() {
    let mut emitter = attached();
    let mut market = MarketService::new();
    market.subscribed(&mut emitter, "AAPL", 1);
    market.subscribed(&mut emitter, "MSFT", 2);
    market.subscribed(&mut emitter, "TSLA", 3);
    emitter.take_pending();
    market.clear_all_subscriptions(&mut emitter);
    assert!(market.get_active_subscriptions().is_empty());
    let events = emitter.take_pending();
    let symbols: Vec<String> = events
        .iter()
        .map(|e| match e {
            AppEvent::MarketDataUnsubscribed { symbol } => symbol.clone(),
            other => panic!("unexpected event {:?}", other),
        })
        .collect();
    assert_eq!(symbols, vec!["AAPL".to_string(), "MSFT".to_string(), "TSLA".to_string()]);
}

#[test]
fn market_service_texts_and_numbers() {
    assert_eq!(MarketService::no_data("AAPL"), "No market data available for AAPL");
    assert_eq!(MarketService::subscribed_report("AAPL"), "Subscribed to market data for AAPL");
    assert_eq!(DATA_WAIT_MS, 100);
    assert_eq!(BULK_DELAY_MS, 50);
    assert_eq!(MarketService::request_id(5), 5);
    assert_eq!(MarketService::request_id(1_700_000_000_000), 1_700_000_000_000i64 as i32);
    assert_eq!(MarketService::request_id(0x8000_0000), i32::MIN);
    assert_eq!(MarketService::request_id(0xFFFF_FFFF), -1);
    assert_eq!(MarketService::request_id(0x1_0000_0000), 0);
}

#[test]
fn valid_orders_pass() {
    // valid limit order
    assert_eq!(
        TradingService::<u8>::validate_order("AAPL", 100.0 > 0.0, OrderType::Limit, Some(150.0 > 0.0)),
        Ok(())
    );
    // market order needs no price
    assert_eq!(
        TradingService::<u8>::validate_order("AAPL", 50.0 > 0.0, OrderType::Market, None),
        Ok(())
    );
}

#[test]
fn orders_are_checked_in_order() {
    assert_eq!(
        TradingService::<u8>::validate_order("AAPL$", false, OrderType::Limit, None),
        Err("Invalid symbol: AAPL$".to_string())
    );
    assert_eq!(
        TradingService::<u8>::validate_order("AAPL", false, OrderType::Limit, None),
        Err("Quantity must be positive".to_string())
    );
    assert_eq!(
        TradingService::<u8>::validate_order("AAPL", true, OrderType::Limit, None),
        Err("Limit orders require a positive price".to_string())
    );
    assert_eq!(
        TradingService::<u8>::validate_order("AAPL", true, OrderType::StopLimit, Some(false)),
        Err("Limit orders require a positive price".to_string())
    );
    assert_eq!(
        TradingService::<u8>::validate_order("AAPL", true, OrderType::Stop, Some(false)),
        Ok(())
    );
}

#[test]
fn only_valid_orders_are_charged() {
    let mut limiter = RateLimiter::new(50);
    limiter.set_limit_at("place_order", 1, 0);
    assert!(TradingService::<u8>::place_order_with_validation(
        &mut limiter,
        "",
        true,
        OrderType::Market,
        None,
        10
    )
    .is_err());
    assert_eq!(limiter.get_remaining_at("place_order", 10), 1);
    assert_eq!(
        TradingService::<u8>::place_order_with_validation(
            &mut limiter,
            "AAPL",
            true,
            OrderType::Market,
            None,
            20
        ),
        Ok(())
    );
    assert_eq!(
        TradingService::<u8>::place_order_with_validation(
            &mut limiter,
            "AAPL",
            true,
            OrderType::Market,
            None,
            30
        ),
        Err("Rate limit exceeded for place_order. Try again in 970 ms".to_string())
    );
}

#[test]
fn orders_are_tracked_until_cancelled() {
    let mut emitter = attached();
    let mut trading: TradingService<&str> = TradingService::new();
    trading.order_placed(&mut emitter, 12345, "AAPL", "Submitted");
    assert_eq!(trading.get(12345), Some(&"Submitted"));
    assert_eq!(trading.get_pending_orders(), vec![&"Submitted"]);
    assert!(trading.update_order_status(&mut emitter, 12345, "Partly", None));
    assert!(trading.update_order_status(&mut emitter, 12345, "Filled", Some("100.0".to_string())));
    assert!(!trading.update_order_status(&mut emitter, 1, "Filled", Some("5.0".to_string())));
    assert_eq!(trading.get(12345), Some(&"Filled"));
    assert_eq!(trading.cancel_order(&mut emitter, 12345), Ok(()));
    assert_eq!(
        trading.cancel_order(&mut emitter, 12345),
        Err("Order 12345 not found in tracking".to_string())
    );
    assert_eq!(
        trading.cancel_order(&mut emitter, -7),
        Err("Order -7 not found in tracking".to_string())
    );
    assert!(trading.get_pending_orders().is_empty());
    let events = emitter.take_pending();
    assert!(matches!(&events[0], AppEvent::OrderPlaced { order_id: 12345, symbol } if symbol == "AAPL"));
    assert!(matches!(
        &events[1],
        AppEvent::OrderFilled { order_id: 12345, filled_qty } if filled_qty == "100.0"
    ));
    assert!(matches!(&events[2], AppEvent::OrderCancelled { order_id: 12345 }));
    assert_eq!(events.len(), 3);
}

#[test]
fn a_failed_order_is_announced() {
    let mut emitter = attached();
    let text = TradingService::<u8>::order_failed(&mut emitter, &IbkrError::NotConnected);
    assert_eq!(text, "Not connected");
    let events = emitter.take_pending();
    assert!(matches!(
        &events[0],
        AppEvent::OrderError { order_id: None, error } if error == "Not connected"
    ));
}

#[test]
fn order_types_and_their_codes() {
    assert_eq!(OrderType::Market.gateway_code().unwrap(), "MKT");
    assert_eq!(OrderType::Limit.gateway_code().unwrap(), "LMT");
    match OrderType::Stop.gateway_code() {
        Err(IbkrError::RequestFailed(m)) => assert_eq!(m, "Order type not implemented"),
        other => panic!("expected RequestFailed, got {:?}", other),
    }
    assert!(matches!(OrderType::StopLimit.gateway_code(), Err(IbkrError::RequestFailed(_))));
    assert!(OrderType::Limit.requires_price());
    assert!(OrderType::StopLimit.requires_price());
    assert!(!OrderType::Market.requires_price());
    assert!(!OrderType::Stop.requires_price());
}

#[test]
fn errors_inside_a_good_answer_are_found() {
    assert_eq!(FinancialDataService::check_api_error("{\"Symbol\": \"AAPL\"}"), Ok(()));
    assert_eq!(
        FinancialDataService::check_api_error("{\"Error Message\": \"Invalid API call.\"}"),
        Err("Alpha Vantage API error: Invalid API call.".to_string())
    );
    assert_eq!(
        FinancialDataService::check_api_error("{\"Note\": \"5 calls per minute\"}"),
        Err("API rate limit reached. Please try again later.".to_string())
    );
    assert_eq!(
        FinancialDataService::check_api_error("{\"Information\": \"premium endpoint\"}"),
        Err("Alpha Vantage API: premium endpoint".to_string())
    );
    assert_eq!(
        FinancialDataService::check_api_error(
            "{\"Information\": \"i\", \"Note\": \"n\", \"Error Message\": \"e\"}"
        ),
        Err("Alpha Vantage API error: e".to_string())
    );
    // a member that holds no string is no message
    assert_eq!(FinancialDataService::check_api_error("{\"Note\": 5}"), Ok(()));
    // what is no JSON holds no message
    assert_eq!(FinancialDataService::check_api_error("<html>"), Ok(()));
    assert_eq!(
        FinancialDataService::api_error(None, Some("n".to_string()), Some("i".to_string())),
        Err("API rate limit reached. Please try again later.".to_string())
    );
}

#[test]
fn keys_and_addresses() {
    assert_eq!(FinancialDataService::cache_key("aapl", FundamentalsQuery::Overview), "AAPL_overview");
    assert_eq!(
        FinancialDataService::cache_key("Brk.b", FundamentalsQuery::IncomeStatement),
        "BRK.B_income_statement"
    );
    assert_eq!(FinancialDataService::cache_key("NVDA", FundamentalsQuery::Earnings), "NVDA_earnings");
    let service = FinancialDataService::new("demo".to_string());
    assert_eq!(
        service.request_url(FundamentalsQuery::Overview, "aapl"),
        "https://www.alphavantage.co/query?function=OVERVIEW&symbol=aapl&apikey=demo"
    );
    assert_eq!(
        service.request_url(FundamentalsQuery::IncomeStatement, "IBM"),
        "https://www.alphavantage.co/query?function=INCOME_STATEMENT&symbol=IBM&apikey=demo"
    );
    assert_eq!(
        service.request_url(FundamentalsQuery::Earnings, "IBM"),
        "https://www.alphavantage.co/query?function=EARNINGS&symbol=IBM&apikey=demo"
    );
    assert_eq!(FinancialDataService::status_error("404 Not Found"), "API request failed: 404 Not Found");
    assert_eq!(
        FinancialDataService::no_history_error("XYZ"),
        "No historical financial data available for XYZ. This ticker may be too new or not have sufficient financial reporting history."
    );
    assert_eq!(FinancialDataService::ticker("AAPL_income_statement"), "AAPL");
    assert_eq!(FinancialDataService::ticker("AAPL"), "AAPL");
    assert_eq!(FinancialDataService::ticker("_x"), "");
}

#[test]
fn fiscal_years() {
    assert_eq!(FinancialDataService::fiscal_year("2024-09-30"), Some(2024));
    assert_eq!(FinancialDataService::fiscal_year("2024"), Some(2024));
    assert_eq!(FinancialDataService::fiscal_year("+7-01-01"), Some(7));
    assert_eq!(FinancialDataService::fiscal_year("-2024-01-01"), None);
    assert_eq!(FinancialDataService::fiscal_year(""), None);
    assert_eq!(FinancialDataService::fiscal_year("20x4-01-01"), None);
    assert_eq!(FinancialDataService::fiscal_year(" 2024-01-01"), None);
    assert_eq!(FinancialDataService::fiscal_year("4294967295-1"), Some(u32::MAX));
    assert_eq!(FinancialDataService::fiscal_year("4294967296-1"), None);
    assert_eq!(FinancialDataService::fiscal_year("+"), None);
    assert_eq!(FinancialDataService::fiscal_year("99999999999999999999999"), None);
}

#[test]
fn answers_are_read_through_the_cache() {
    let mut cache = CacheService::with_ttl("cache", 60);
    cache.write_at("AAPL_overview", "{\"Symbol\":\"AAPL\"}", 100);
    assert_eq!(
        FinancialDataService::cached_answer(Some(&cache), "AAPL_overview", 120),
        Some("{\"Symbol\":\"AAPL\"}".to_string())
    );
    assert_eq!(FinancialDataService::cached_answer(Some(&cache), "AAPL_overview", 160), None);
    assert_eq!(FinancialDataService::cached_answer(Some(&cache), "MSFT_overview", 120), None);
    assert_eq!(FinancialDataService::cached_answer(None, "AAPL_overview", 120), None);
}

#[test]
fn the_latest_reports_are_picked_in_order() {
    let years = vec![2021, 2019, 2024, 2020, 2023, 2022, 2018];
    assert_eq!(FinancialDataService::latest_years(&years, 5), vec![3, 0, 5, 4, 2]);
    assert_eq!(FinancialDataService::latest_years(&years, 0), Vec::<usize>::new());
    assert_eq!(FinancialDataService::latest_years(&years, 1), vec![2]);
    assert_eq!(FinancialDataService::latest_years(&years, 7), vec![6, 1, 3, 0, 5, 4, 2]);
    assert_eq!(FinancialDataService::latest_years(&years, 100), vec![6, 1, 3, 0, 5, 4, 2]);
    assert_eq!(FinancialDataService::latest_years(&Vec::new(), 5), Vec::<usize>::new());
}

#[test]
fn reports_of_one_year_keep_their_order() {
    let years = vec![2024, 2023, 2024, 2023, 2024];
    assert_eq!(FinancialDataService::latest_years(&years, 5), vec![1, 3, 0, 2, 4]);
    assert_eq!(FinancialDataService::latest_years(&years, 2), vec![2, 4]);
    assert_eq!(FinancialDataService::latest_years(&years, 4), vec![3, 0, 2, 4]);
}

#[test]
fn cached_tickers_come_once_and_in_order() {
    let keys: Vec<String> = [
        "NVDA_overview",
        "AAPL_earnings",
        "NVDA_earnings",
        "AAPL_overview",
        "BRK.B_income_statement",
        "AAPL_income_statement",
        "AA_overview",
        "plain",
    ]
    .iter()
    .map(|k| k.to_string())
    .collect();
    let tickers = FinancialDataService::cached_tickers(&keys);
    assert_eq!(tickers, vec!["AA", "AAPL", "BRK.B", "NVDA", "plain"]);
    let mut sorted = tickers.clone();
    sorted.sort();
    assert_eq!(tickers, sorted);
    assert_eq!(FinancialDataService::cached_tickers(&Vec::new()), Vec::<String>::new());
}

#[test]
fn an_account_summary_is_announced_with_its_report() {
    let mut emitter = attached();
    AccountService::summary_reported(&mut emitter, "DU123456", "{\"total_value\":100000.0}".to_string());
    let events = emitter.take_pending();
    assert_eq!(events.len(), 1);
    assert!(matches!(
        &events[0],
        AppEvent::AccountUpdate { account_id, data }
            if account_id == "DU123456" && data == "{\"total_value\":100000.0}"
    ));
    assert_eq!(events[0].name(), "account-update");
}
