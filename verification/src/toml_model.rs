//! The shape of the configuration file, field for field: everything
//! optional, merged over the built-in defaults by the config module. The
//! caller that reads and deserializes the file hands these in as plain
//! values.

use vstd::prelude::*;

verus! {

/// The whole configuration file.
#[derive(Clone, PartialEq, Eq)]
pub struct ApplicationToml {
    pub interval: Option<String>,
    pub checkers: Vec<CheckerToml>,
    pub logger: Option<LoggerToml>,
}

/// One endpoint's section of the configuration file.
#[derive(Clone, PartialEq, Eq)]
pub struct CheckerToml {
    pub teritori_grpc_scheme: Option<String>,
    pub teritori_grpc_host: Option<String>,
    pub teritori_grpc_port: Option<u16>,
    pub validator_account: Option<String>,
    pub validator_address: Option<String>,
    pub syncing: Option<bool>,
    pub new_proposal: Option<bool>,
    pub missed_block: Option<bool>,
    pub missed_block_threshold: Option<String>,
    pub validator_status: Option<bool>,
    pub slashes: Option<bool>,
}

/// The logging section of the configuration file.
#[derive(Clone, PartialEq, Eq)]
pub struct LoggerToml {
    pub chan_size: Option<usize>,
    pub is_async: Option<bool>,
    pub level: Option<String>,
    pub airbrake_host: Option<String>,
    pub airbrake_project_id: Option<String>,
    pub airbrake_project_key: Option<String>,
    pub airbrake_environment: Option<String>,
}

} // verus!
