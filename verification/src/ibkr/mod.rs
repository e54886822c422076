pub mod account_updates;
pub mod client;
pub mod error;
pub mod state;
pub mod types;

pub use state::IbkrState;
