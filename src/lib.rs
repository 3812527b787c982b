//! Clients of a real-time push gateway: frame codec, event dispatch,
//! heartbeat and writer decisions, and the registry of connected accounts.
pub mod json;
pub mod api_schema;
pub mod incoming;
pub mod connection;
pub mod heartbeat;
pub mod writer;
pub mod account;
pub mod manager;
pub mod util;
