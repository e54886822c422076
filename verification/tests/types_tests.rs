use quantum_kapital::config::settings::{
    ApiConfig, GoogleSheetsConfig, LoggingConfig, UiConfig,
};
use quantum_kapital::config::{AppConfig, IbkrConfig};
use quantum_kapital::google_sheets::types::get_spreadsheet_url;
use quantum_kapital::google_sheets::{SheetsConfig, SheetsError};
use quantum_kapital::ibkr::account_updates::{
    get_account_summary, get_positions, is_end, listed_position, portfolio_from, position_account,
    positions_account, summary_from, AccountUpdate,
};
use quantum_kapital::ibkr::types::{AccountValue, ConnectionConfig, FundamentalReportType};
use quantum_kapital::middleware::logging::{elapsed_between, CommandLogger, LogLevel, LogRecord};
use quantum_kapital::utils::helpers::{extract_json_field, format_timestamp, sanitize_for_logging};

fn fields(record: &LogRecord) -> Vec<(String, String)> {
    record.fields.iter().map(|f| (f.name.clone(), f.value.clone())).collect()
}

fn pair(name: &str, value: &str) -> (String, String) {
    (name.to_string(), value.to_string())
}

#[test]
fn settings_give_the_connection() {
    let config = ConnectionConfig::from(IbkrConfig::default());
    assert_eq!(config.host, "127.0.0.1");
    assert_eq!(config.port, 4004);
    assert_eq!(config.client_id, 100);
}

#[test]
fn default_settings() {
    let config = AppConfig::default();
    assert_eq!(config.ibkr.default_host, "127.0.0.1");
    assert_eq!(config.ibkr.default_port, 4004);
    assert_eq!(config.ibkr.default_client_id, 100);
    assert_eq!(config.ibkr.connection_timeout_ms, 30000);
    assert_eq!(config.ibkr.reconnect_interval_ms, 5000);
    assert_eq!(config.ibkr.max_reconnect_attempts, 3);
    assert_eq!(config.ibkr.rate_limit_per_second, 50);
    assert_eq!(config.logging.level, "info");
    assert_eq!(config.logging.file_path, None);
    assert_eq!(config.logging.max_file_size_mb, 10);
    assert_eq!(config.logging.max_files, 5);
    assert!(config.logging.console_output);
    assert_eq!(config.ui.theme, "dark");
    assert_eq!(config.ui.default_refresh_interval_ms, 1000);
    assert!(config.ui.show_notifications);
    assert!(config.ui.auto_save_layout);
    assert_eq!(config.api.alpha_vantage_api_key, None);
    assert_eq!(config.google_sheets.spreadsheet_id, None);
    assert_eq!(config.google_sheets.spreadsheet_name, "Quantum Kapital Analysis");
    assert!(!config.google_sheets.auto_export);
    assert_eq!(config.google_sheets.last_export_timestamp, None);
    assert_eq!(LoggingConfig::default().level, "info");
    assert_eq!(UiConfig::default().theme, "dark");
    assert_eq!(ApiConfig::default().alpha_vantage_api_key, None);
    assert_eq!(GoogleSheetsConfig::default().spreadsheet_name, "Quantum Kapital Analysis");
    let direct = ConnectionConfig::default();
    assert_eq!((direct.host.as_str(), direct.port, direct.client_id), ("127.0.0.1", 4002, 100));
    let sheets = SheetsConfig::default();
    assert_eq!(sheets.spreadsheet_id, None);
    assert_eq!(sheets.spreadsheet_name, "Quantum Kapital Analysis");
}

#[test]
fn report_names() {
    assert_eq!(FundamentalReportType::ReportsFinSummary.as_str(), "ReportsFinSummary");
    assert_eq!(FundamentalReportType::ReportsFinStatements.as_str(), "ReportsFinStatements");
    assert_eq!(FundamentalReportType::ReportsOwnership.as_str(), "ReportsOwnership");
    assert_eq!(FundamentalReportType::ReportSnapshot.as_str(), "ReportSnapshot");
    assert_eq!(FundamentalReportType::CalendarReport.as_str(), "CalendarReport");
}

#[test]
fn sheets_errors_and_addresses() {
    assert_eq!(SheetsError::AuthError("x".to_string()).to_string(), "Authentication failed: x");
    assert_eq!(SheetsError::ApiError("x".to_string()).to_string(), "API error: x");
    assert_eq!(SheetsError::ConfigError("x".to_string()).to_string(), "Configuration error: x");
    assert_eq!(SheetsError::DataError("x".to_string()).to_string(), "Data error: x");
    assert_eq!(SheetsError::IoError("x".to_string()).to_string(), "IO error: x");
    assert_eq!(SheetsError::GoogleError("x".to_string()).to_string(), "Google API error: x");
    assert_eq!(get_spreadsheet_url("abc123"), "https://docs.google.com/spreadsheets/d/abc123/edit");
}

#[test]
fn log_lines() {
    let start = CommandLogger::log_command_start("ibkr_connect", "{}");
    assert_eq!(start.level, LogLevel::Info);
    assert_eq!(start.message, "Command started");
    assert_eq!(fields(&start), vec![pair("command", "ibkr_connect"), pair("args", "{}")]);

    let ok = CommandLogger::log_command_success("ibkr_connect", 1250);
    assert_eq!(ok.level, LogLevel::Info);
    assert_eq!(ok.message, "Command completed successfully");
    assert_eq!(fields(&ok), vec![pair("command", "ibkr_connect"), pair("duration_ms", "1250")]);

    let failed = CommandLogger::log_command_error("ibkr_connect", "Not connected", 3);
    assert_eq!(failed.level, LogLevel::Error);
    assert_eq!(failed.message, "Command failed");
    assert_eq!(
        fields(&failed),
        vec![pair("command", "ibkr_connect"), pair("error", "Not connected"), pair("duration_ms", "3")]
    );

    let request = CommandLogger::log_api_request("overview", "GET", "symbol=AAPL");
    assert_eq!(request.level, LogLevel::Debug);
    assert_eq!(request.message, "API request");
    assert_eq!(
        fields(&request),
        vec![pair("endpoint", "overview"), pair("method", "GET"), pair("params", "symbol=AAPL")]
    );

    let response = CommandLogger::log_api_response("overview", "200", 87);
    assert_eq!(response.level, LogLevel::Debug);
    assert_eq!(response.message, "API response");
    assert_eq!(
        fields(&response),
        vec![pair("endpoint", "overview"), pair("status", "200"), pair("duration_ms", "87")]
    );

    let warning = CommandLogger::log_rate_limit_warning("market_data", 9);
    assert_eq!(warning.level, LogLevel::Warn);
    assert_eq!(warning.message, "Approaching rate limit");
    assert_eq!(fields(&warning), vec![pair("endpoint", "market_data"), pair("remaining", "9")]);
}

#[test]
fn log_decisions() {
    assert!(CommandLogger::budget_warning("market_data", 9).is_some());
    assert!(CommandLogger::budget_warning("market_data", 0).is_some());
    assert!(CommandLogger::budget_warning("market_data", 10).is_none());
    let done = CommandLogger::log_command_end("cmd", None, 1_000, 1_500);
    assert_eq!(done.message, "Command completed successfully");
    assert_eq!(fields(&done)[1], pair("duration_ms", "500"));
    let failed = CommandLogger::log_command_end("cmd", Some("boom"), 1_000, 900);
    assert_eq!(failed.message, "Command failed");
    assert_eq!(fields(&failed)[1], pair("error", "boom"));
    assert_eq!(fields(&failed)[2], pair("duration_ms", "0"));
    assert_eq!(elapsed_between(i64::MIN, i64::MAX), u64::MAX);
    assert_eq!(elapsed_between(5, 5), 0);
}

#[test]
fn timestamps_as_text() {
    assert_eq!(format_timestamp(0), Some("1970-01-01 00:00:00 UTC".to_string()));
    assert_eq!(format_timestamp(1_705_314_600_000), Some("2024-01-15 10:30:00 UTC".to_string()));
    assert_eq!(format_timestamp(-1), Some("1969-12-31 23:59:59 UTC".to_string()));
    assert_eq!(format_timestamp(i64::MAX), None);
}

#[test]
fn logs_hide_accounts_and_tokens() {
    assert_eq!(sanitize_for_logging("id DU123456 ok"), "id [ACCOUNT] ok");
    assert_eq!(sanitize_for_logging("account DU123456"), "[ACCOUNT] [ACCOUNT]");
    assert_eq!(sanitize_for_logging("id 42"), "id 42");
    assert_eq!(
        sanitize_for_logging("key abcdefghijklmnopqrstuvwxyz_0123456789 end"),
        "key [TOKEN] end"
    );
    assert_eq!(sanitize_for_logging(""), "");
}

#[test]
fn json_paths() {
    let json = "{\"a\": {\"b\": {\"c\": 42, \"s\": \"text\"}}, \"n\": null, \"\": 1}";
    assert_eq!(extract_json_field(json, "a.b.c"), Some("42".to_string()));
    assert_eq!(extract_json_field(json, "a.b.s"), Some("\"text\"".to_string()));
    assert_eq!(extract_json_field(json, "a.b"), Some("{\"c\":42,\"s\":\"text\"}".to_string()));
    assert_eq!(extract_json_field(json, "n"), Some("null".to_string()));
    assert_eq!(extract_json_field(json, ""), Some("1".to_string()));
    assert_eq!(extract_json_field(json, "a.x.c"), None);
    assert_eq!(extract_json_field(json, "a.b.c.d"), None);
    assert_eq!(extract_json_field(json, "a."), None);
    assert_eq!(extract_json_field("not json", "a"), None);
    assert_eq!(extract_json_field("[1, 2]", "0"), None);
}

fn value(key: &str, value: &str) -> AccountUpdate<u32> {
    AccountUpdate::AccountValue(AccountValue {
        key: key.to_string(),
        value: value.to_string(),
        currency: "USD".to_string(),
        account: "other".to_string(),
    })
}

#[test]
fn values_before_the_end_mark_make_the_summary() {
    let updates = vec![
        value("NetLiquidation", "100000.0"),
        AccountUpdate::PortfolioValue(7),
        AccountUpdate::UpdateTime("10:30".to_string()),
        value("TotalCashValue", "50000.0"),
        AccountUpdate::End,
        value("BuyingPower", "200000.0"),
    ];
    let summary = get_account_summary("DU123456", &updates);
    assert_eq!(summary.len(), 2);
    let net_liq = summary.iter().find(|s| s.tag == "NetLiquidation");
    assert!(net_liq.is_some());
    assert_eq!(net_liq.unwrap().value, "100000.0");
    assert_eq!(net_liq.unwrap().account, "DU123456");
    assert_eq!(net_liq.unwrap().currency, "USD");
    assert_eq!(summary[1].tag, "TotalCashValue");
}

#[test]
fn a_stream_without_positions() {
    let updates: Vec<AccountUpdate<u32>> = vec![value("NetLiquidation", "1"), AccountUpdate::End];
    let positions = get_positions(&updates);
    assert_eq!(positions.len(), 0);
    let none: Vec<AccountUpdate<u32>> = Vec::new();
    assert_eq!(get_positions(&none).len(), 0);
    assert!(get_account_summary("DU123456", &none).is_empty());
    assert_eq!(positions_account(&Vec::new()), None);
    assert_eq!(
        positions_account(&vec!["DU123456".to_string(), "DU789012".to_string()]),
        Some(&"DU123456".to_string())
    );
}

#[test]
fn positions_before_the_end_mark() {
    let updates = vec![
        AccountUpdate::PortfolioValue(1),
        value("NetLiquidation", "1"),
        AccountUpdate::PortfolioValue(2),
        AccountUpdate::End,
        AccountUpdate::PortfolioValue(3),
    ];
    assert_eq!(get_positions(&updates), vec![&1, &2]);
    let unended = vec![AccountUpdate::PortfolioValue(1), AccountUpdate::PortfolioValue(2)];
    assert_eq!(get_positions(&unended), vec![&1, &2]);
    assert!(is_end(&AccountUpdate::<u32>::End));
    assert!(!is_end(&AccountUpdate::PortfolioValue(1)));
    assert_eq!(portfolio_from(&AccountUpdate::PortfolioValue(9)), Some(&9));
    assert_eq!(portfolio_from(&AccountUpdate::<u32>::End), None);
    assert!(summary_from("a", &AccountUpdate::PortfolioValue(9)).is_none());
    assert_eq!(summary_from("a", &value("k", "v")).unwrap().tag, "k");
}

#[test]
fn a_position_is_booked_to_its_own_account_or_the_one_asked_for() {
    assert_eq!(position_account(Some("U7654321".to_string()), "DU123456"), "U7654321");
    assert_eq!(position_account(None, "DU123456"), "DU123456");
    assert_eq!(position_account(Some(String::new()), "DU123456"), "");

    let listed = listed_position(
        None,
        "DU123456",
        "AAPL".to_string(),
        (100.0f64, 15000.0f64),
        "STK".to_string(),
        "USD".to_string(),
        "NASDAQ".to_string(),
        "AAPL".to_string(),
    );
    assert_eq!(listed.account, "DU123456");
    assert_eq!(listed.symbol, "AAPL");
    assert_eq!(listed.figures, (100.0, 15000.0));
    assert_eq!(listed.contract_type, "STK");
    assert_eq!(listed.currency, "USD");
    assert_eq!(listed.exchange, "NASDAQ");
    assert_eq!(listed.local_symbol, "AAPL");

    let own = listed_position(
        Some("U7654321".to_string()),
        "DU123456",
        "MSFT".to_string(),
        50u32,
        "STK".to_string(),
        "USD".to_string(),
        "SMART".to_string(),
        "MSFT".to_string(),
    );
    assert_eq!(own.account, "U7654321");
    assert_eq!(own.figures, 50);
}
