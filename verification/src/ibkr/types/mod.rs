pub mod account;
pub mod connection;
pub mod fundamentals;
pub mod historical;
pub mod market_data;
pub mod orders;
pub mod positions;

pub use account::{AccountInfo, AccountSummary, AccountValue};
pub use connection::{ConnectionConfig, ConnectionStatus};
pub use fundamentals::{FundamentalDataRequest, FundamentalReportType};
pub use historical::{BarSize, HistoricalDataRequest, WhatToShow};
pub use market_data::{NewsArticle, TickType};
pub use orders::{OrderAction, OrderType};
pub use positions::{Position, SecurityType};
