//! Response caching for an exchange-rate client: cache keys, entries with a
//! time to live, an in-memory backend, the row format of a durable backend,
//! and the decisions a client takes around each upstream request.

pub mod text;
pub mod time;
pub mod error;
pub mod entry;
pub mod key;
pub mod backend;
pub mod memory;
pub mod client;
pub mod fetch;
pub mod durable;
pub mod cli_error;
pub mod currency;
pub mod output;
pub mod config;
