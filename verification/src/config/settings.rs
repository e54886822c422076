//! The settings of the application and the values they start with.

use vstd::prelude::*;
use vstd::string::StringExecFns;

verus! {

/// All settings.
#[derive(Debug, Clone)]
pub struct AppConfig {
    pub ibkr: IbkrConfig,
    pub logging: LoggingConfig,
    pub ui: UiConfig,
    pub api: ApiConfig,
    pub google_sheets: GoogleSheetsConfig,
}

/// How the gateway is reached and how hard it may be driven.
#[derive(Debug, Clone)]
pub struct IbkrConfig {
    pub default_host: String,
    pub default_port: u16,
    pub default_client_id: i32,
    pub connection_timeout_ms: u64,
    pub reconnect_interval_ms: u64,
    pub max_reconnect_attempts: u32,
    pub rate_limit_per_second: u32,
}

/// Where the log goes and how much of it is kept.
#[derive(Debug, Clone)]
pub struct LoggingConfig {
    pub level: String,
    pub file_path: Option<String>,
    pub max_file_size_mb: u64,
    pub max_files: u32,
    pub console_output: bool,
}

/// How the user interface behaves.
#[derive(Debug, Clone)]
pub struct UiConfig {
    pub theme: String,
    pub default_refresh_interval_ms: u64,
    pub show_notifications: bool,
    pub auto_save_layout: bool,
}

/// Keys of outside services.
#[derive(Debug, Clone)]
pub struct ApiConfig {
    pub alpha_vantage_api_key: Option<String>,
}

/// The spreadsheet that analyses are exported to.
#[derive(Debug, Clone)]
pub struct GoogleSheetsConfig {
    pub spreadsheet_id: Option<String>,
    pub spreadsheet_name: String,
    pub auto_export: bool,
    pub last_export_timestamp: Option<String>,
}

impl Default for IbkrConfig {
    fn default() -> (r: Self)
        ensures
            r.default_host@ == "127.0.0.1"@,
            r.default_port == 4004,
            r.default_client_id == 100,
            r.connection_timeout_ms == 30000,
            r.reconnect_interval_ms == 5000,
            r.max_reconnect_attempts == 3,
            r.rate_limit_per_second == 50,
    {
        IbkrConfig {
            default_host: String::from_str("127.0.0.1"),
            default_port: 4004,
            default_client_id: 100,
            connection_timeout_ms: 30000,
            reconnect_interval_ms: 5000,
            max_reconnect_attempts: 3,
            rate_limit_per_second: 50,
        }
    }
}

impl Default for LoggingConfig {
    fn default() -> (r: Self)
        ensures
            r.level@ == "info"@,
            r.file_path is None,
            r.max_file_size_mb == 10,
            r.max_files == 5,
            r.console_output,
    {
        LoggingConfig {
            level: String::from_str("info"),
            file_path: None,
            max_file_size_mb: 10,
            max_files: 5,
            console_output: true,
        }
    }
}

impl Default for UiConfig {
    fn default() -> (r: Self)
        ensures
            r.theme@ == "dark"@,
            r.default_refresh_interval_ms == 1000,
            r.show_notifications,
            r.auto_save_layout,
    {
        UiConfig {
            theme: String::from_str("dark"),
            default_refresh_interval_ms: 1000,
            show_notifications: true,
            auto_save_layout: true,
        }
    }
}

impl Default for ApiConfig {
    /// No key: the application fills it in from its environment.
    fn default() -> (r: Self)
        ensures
            r.alpha_vantage_api_key is None,
    {
        ApiConfig { alpha_vantage_api_key: None }
    }
}

impl Default for GoogleSheetsConfig {
    fn default() -> (r: Self)
        ensures
            r.spreadsheet_id is None,
            r.spreadsheet_name@ == "Quantum Kapital Analysis"@,
            !r.auto_export,
            r.last_export_timestamp is None,
    {
        GoogleSheetsConfig {
            spreadsheet_id: None,
            spreadsheet_name: String::from_str("Quantum Kapital Analysis"),
            auto_export: false,
            last_export_timestamp: None,
        }
    }
}

impl Default for AppConfig {
    fn default() -> (r: Self)
        ensures
            r.ibkr.default_host@ == "127.0.0.1"@,
            r.ibkr.default_port == 4004,
            r.ibkr.default_client_id == 100,
            r.ibkr.rate_limit_per_second == 50,
            r.logging.level@ == "info"@,
            r.ui.theme@ == "dark"@,
            r.api.alpha_vantage_api_key is None,
            r.google_sheets.spreadsheet_id is None,
            r.google_sheets.spreadsheet_name@ == "Quantum Kapital Analysis"@,
    {
        AppConfig {
            ibkr: IbkrConfig::default(),
            logging: LoggingConfig::default(),
            ui: UiConfig::default(),
            api: ApiConfig::default(),
            google_sheets: GoogleSheetsConfig::default(),
        }
    }
}

} // verus!
