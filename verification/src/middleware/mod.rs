pub mod logging;
pub mod rate_limit;

pub use rate_limit::RateLimiter;
