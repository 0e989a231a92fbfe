//! Monitoring core for a blockchain validator: a tick-driven check manager
//! fans block data out to per-check actors over bounded channels; the checks
//! themselves (sync status, missed blocks, new governance proposals,
//! validator status, slashes) classify what the chain reports.

pub mod account;
pub mod actor;
pub mod channel;
pub mod configs;
pub mod decimal;
pub mod error;
pub mod hex;
pub mod is_syncing;
pub mod manager;
pub mod message;
pub mod missed_block;
pub mod new_proposal;
pub mod slashes;
pub mod threshold;
pub mod toml_model;
pub mod utils;
pub mod validator_status;
