//! Session and resource management for a trading-gateway client: the
//! connection life cycle, a per-endpoint request budget, a time-to-live cache
//! and the in-memory caches of a session, each with a verified contract.

pub mod config;
pub mod events;
pub mod google_sheets;
pub mod ibkr;
pub mod middleware;
pub mod services;
pub mod utils;
