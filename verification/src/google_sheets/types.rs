//! What the spreadsheet export reports.

use vstd::prelude::*;
use vstd::string::StringExecFns;

verus! {

/// Whether the user has signed in.
#[derive(Debug, Clone)]
pub struct AuthState {
    pub authenticated: bool,
    pub user_email: Option<String>,
}

/// The spreadsheet an export goes to.
#[derive(Debug, Clone)]
pub struct SheetsConfig {
    pub spreadsheet_id: Option<String>,
    pub spreadsheet_name: String,
}

impl Default for SheetsConfig {
    fn default() -> (r: Self)
        ensures
            r.spreadsheet_id is None,
            r.spreadsheet_name@ == "Quantum Kapital Analysis"@,
    {
        SheetsConfig {
            spreadsheet_id: None,
            spreadsheet_name: String::from_str("Quantum Kapital Analysis"),
        }
    }
}

/// How an export ended.
#[derive(Debug, Clone)]
pub struct ExportResult {
    pub success: bool,
    pub spreadsheet_id: String,
    pub spreadsheet_url: String,
    pub sheets_created: Vec<String>,
    pub message: String,
}

/// Why an export failed.
#[derive(Debug, Clone)]
pub enum SheetsError {
    AuthError(String),
    ApiError(String),
    ConfigError(String),
    DataError(String),
    IoError(String),
    GoogleError(String),
}

/// A [`SheetsError`] as plain values.
pub enum SheetsErrorView {
    AuthError(Seq<char>),
    ApiError(Seq<char>),
    ConfigError(Seq<char>),
    DataError(Seq<char>),
    IoError(Seq<char>),
    GoogleError(Seq<char>),
}

impl View for SheetsError {
    type V = SheetsErrorView;

    open spec fn view(&self) -> SheetsErrorView {
        match self {
            SheetsError::AuthError(m) => SheetsErrorView::AuthError(m@),
            SheetsError::ApiError(m) => SheetsErrorView::ApiError(m@),
            SheetsError::ConfigError(m) => SheetsErrorView::ConfigError(m@),
            SheetsError::DataError(m) => SheetsErrorView::DataError(m@),
            SheetsError::IoError(m) => SheetsErrorView::IoError(m@),
            SheetsError::GoogleError(m) => SheetsErrorView::GoogleError(m@),
        }
    }
}

/// The error as one line for display.
pub open spec fn sheets_error_text(e: SheetsErrorView) -> Seq<char> {
    match e {
        SheetsErrorView::AuthError(m) => "Authentication failed: "@ + m,
        SheetsErrorView::ApiError(m) => "API error: "@ + m,
        SheetsErrorView::ConfigError(m) => "Configuration error: "@ + m,
        SheetsErrorView::DataError(m) => "Data error: "@ + m,
        SheetsErrorView::IoError(m) => "IO error: "@ + m,
        SheetsErrorView::GoogleError(m) => "Google API error: "@ + m,
    }
}

impl SheetsError {
    /// The error as one line for display.
    pub fn to_string(&self) -> (r: String)
        ensures
            r@ == sheets_error_text(self@),
    {
        match self {
            SheetsError::AuthError(m) => String::from_str("Authentication failed: ").concat(
                m.as_str(),
            ),
            SheetsError::ApiError(m) => String::from_str("API error: ").concat(m.as_str()),
            SheetsError::ConfigError(m) => String::from_str("Configuration error: ").concat(
                m.as_str(),
            ),
            SheetsError::DataError(m) => String::from_str("Data error: ").concat(m.as_str()),
            SheetsError::IoError(m) => String::from_str("IO error: ").concat(m.as_str()),
            SheetsError::GoogleError(m) => String::from_str("Google API error: ").concat(m.as_str()),
        }
    }
}

/// The address at which a spreadsheet is shown.
pub open spec fn spreadsheet_url(id: Seq<char>) -> Seq<char> {
    "https://docs.google.com/spreadsheets/d/"@ + id + "/edit"@
}

/// The address at which the spreadsheet `id` is shown.
pub fn get_spreadsheet_url(id: &str) -> (r: String)
    ensures
        r@ == spreadsheet_url(id@),
{
    String::from_str("https://docs.google.com/spreadsheets/d/").concat(id).concat("/edit")
}

} // verus!
