pub mod layout;
pub mod types;

pub use types::{AuthState, ExportResult, SheetsConfig, SheetsError};
