pub mod account_service;
pub mod cache_envelope;
pub mod cache_service;
pub mod financial_data_service;
pub mod market_service;
pub mod trading_service;
