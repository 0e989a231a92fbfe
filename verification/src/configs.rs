//! The runtime configuration: built-in defaults, overrides from the
//! configuration file, and validation before the monitor starts.

use crate::decimal::{dec_str_of, u64_dec_string};
use crate::threshold::{parse_threshold, MissedBlockThreshold};
use crate::toml_model::{ApplicationToml, CheckerToml, LoggerToml};
use vstd::prelude::*;
use vstd::utf8::encode_utf8;

verus! {

/// Why a configuration was rejected.
#[derive(Clone, Copy, Debug, PartialEq, Eq, Structural)]
pub enum ConfigError {
    /// The tick interval does not parse as a duration.
    IllegalInterval,
    /// The endpoint scheme is neither `http` nor `https`.
    IllegalScheme,
    /// The missed-block check is on but no validator account is given.
    MissingValidatorAccount,
    /// The validator-status or slashes check is on but no validator
    /// address is given.
    MissingValidatorAddress,
    /// The logger level is not one of the known names.
    IllegalLoggerLevel,
    /// The missed-block threshold text does not parse.
    IllegalThreshold,
}

/// Whether a text parses as a duration.
pub uninterp spec fn duration_parse_ok(s: Seq<char>) -> bool;

/// The duration a text parses to, where it parses at all.
pub uninterp spec fn duration_of(s: Seq<char>) -> core::time::Duration;

/// Relies on duration_str::parse: whether a duration string parses, and
/// what it parses to, are functions of the text alone.
#[verifier::external_body]
fn try_parse_duration(s: &str) -> (r: Option<core::time::Duration>)
    ensures
        r is Some <==> duration_parse_ok(s@),
        r matches Some(d) ==> d == duration_of(s@),
{
    duration_str::parse(s).ok()
}

/// A configuration with built-in defaults, before any file overrides.
pub trait FromEnv: Sized {
    /// What the built-in default looks like.
    spec fn is_env_default(&self) -> bool;

    fn from_env() -> (r: Result<Self, ConfigError>)
        ensures
            r matches Ok(c) && c.is_env_default(),
    ;
}

/// A configuration that can check itself before the monitor starts.
pub trait SelfValidation: Sized {
    /// What validation returns, error priority included.
    spec fn validate_result(&self) -> Result<(), ConfigError>;

    fn validate(&self) -> (r: Result<(), ConfigError>)
        ensures
            r == self.validate_result(),
    ;
}

/// The whole runtime configuration.
#[derive(Clone)]
pub struct ApplicationConfig {
    pub interval: String,
    pub checkers: Vec<CheckerConfig>,
    pub logger: LoggerConfig,
}

/// One endpoint's configuration: where to connect, which validator to
/// watch, and which checks to run.
#[derive(Clone)]
pub struct CheckerConfig {
    pub teritori_grpc_scheme: String,
    pub teritori_grpc_host: String,
    pub teritori_grpc_port: u16,
    pub validator_account: Option<String>,
    pub validator_address: Option<String>,
    pub syncing: bool,
    pub new_proposal: bool,
    pub missed_block: bool,
    pub missed_block_threshold: Option<MissedBlockThreshold>,
    pub validator_status: bool,
    pub slashes: bool,
}

/// The logging configuration, handed to the logger at startup.
#[derive(Clone)]
pub struct LoggerConfig {
    pub chan_size: Option<usize>,
    pub is_async: bool,
    pub level: Option<String>,
    pub airbrake_host: Option<String>,
    pub airbrake_project_id: Option<String>,
    pub airbrake_project_key: Option<String>,
    pub airbrake_environment: Option<String>,
}

impl FromEnv for LoggerConfig {
    open spec fn is_env_default(&self) -> bool {
        &&& self.chan_size is None
        &&& self.is_async == true
        &&& self.level is None
        &&& self.airbrake_host is None
        &&& self.airbrake_project_id is None
        &&& self.airbrake_project_key is None
        &&& self.airbrake_environment is None
    }

    fn from_env() -> (r: Result<Self, ConfigError>) {
        Ok(
            Self {
                chan_size: None,
                is_async: true,
                level: None,
                airbrake_host: None,
                airbrake_project_id: None,
                airbrake_project_key: None,
                airbrake_environment: None,
            },
        )
    }
}

impl SelfValidation for LoggerConfig {
    open spec fn validate_result(&self) -> Result<(), ConfigError> {
        match self.level {
            None => Ok(()),
            Some(l) => if valid_logger_level(l@) {
                Ok(())
            } else {
                Err(ConfigError::IllegalLoggerLevel)
            },
        }
    }

    fn validate(&self) -> (r: Result<(), ConfigError>) {
        match &self.level {
            None => Ok(()),
            Some(level) => {
                if *level == "CRASH".to_owned() || *level == "ERROR".to_owned() || *level
                    == "WARN".to_owned() || *level == "INFO".to_owned() || *level
                    == "DEBUG".to_owned() || *level == "TRACE".to_owned() {
                    Ok(())
                } else {
                    Err(ConfigError::IllegalLoggerLevel)
                }
            },
        }
    }
}

/// The level names the logger accepts.
pub open spec fn valid_logger_level(l: Seq<char>) -> bool {
    ||| l == "CRASH"@
    ||| l == "ERROR"@
    ||| l == "WARN"@
    ||| l == "INFO"@
    ||| l == "DEBUG"@
    ||| l == "TRACE"@
}

/// How a logger configuration relates to its file section: every given
/// field taken over, every missing one left at the default.
pub open spec fn logger_matches_toml(c: LoggerConfig, t: LoggerToml) -> bool {
    &&& c.chan_size == t.chan_size
    &&& c.is_async == (match t.is_async {
        Some(b) => b,
        None => true,
    })
    &&& c.level.deep_view() == t.level.deep_view()
    &&& c.airbrake_host.deep_view() == t.airbrake_host.deep_view()
    &&& c.airbrake_project_id.deep_view() == t.airbrake_project_id.deep_view()
    &&& c.airbrake_project_key.deep_view() == t.airbrake_project_key.deep_view()
    &&& c.airbrake_environment.deep_view() == t.airbrake_environment.deep_view()
}

impl LoggerConfig {
    /// Merge a file section over the defaults; this never fails.
    pub fn try_from(toml: LoggerToml) -> (r: Result<LoggerConfig, ConfigError>)
        ensures
            r matches Ok(c) && logger_matches_toml(c, toml),
    {
        let mut result = match LoggerConfig::from_env() {
            Ok(c) => c,
            Err(e) => {
                return Err(e);
            },
        };
        let LoggerToml {
            chan_size,
            is_async,
            level,
            airbrake_host,
            airbrake_project_id,
            airbrake_project_key,
            airbrake_environment,
        } = toml;
        if let Some(chan_size) = chan_size {
            result.chan_size = Some(chan_size);
        }
        if let Some(is_async) = is_async {
            result.is_async = is_async;
        }
        if let Some(level) = level {
            result.level = Some(level);
        }
        if let Some(airbrake_host) = airbrake_host {
            result.airbrake_host = Some(airbrake_host);
        }
        if let Some(airbrake_project_id) = airbrake_project_id {
            result.airbrake_project_id = Some(airbrake_project_id);
        }
        if let Some(airbrake_project_key) = airbrake_project_key {
            result.airbrake_project_key = Some(airbrake_project_key);
        }
        if let Some(airbrake_environment) = airbrake_environment {
            result.airbrake_environment = Some(airbrake_environment);
        }
        Ok(result)
    }
}

impl FromEnv for CheckerConfig {
    open spec fn is_env_default(&self) -> bool {
        &&& self.teritori_grpc_scheme@ == "http"@
        &&& self.teritori_grpc_host@ == "127.0.0.1"@
        &&& self.teritori_grpc_port == 9090u16
        &&& self.validator_account is None
        &&& self.validator_address is None
        &&& self.syncing == true
        &&& self.new_proposal == false
        &&& self.missed_block == false
        &&& self.missed_block_threshold is None
        &&& self.validator_status == false
        &&& self.slashes == false
    }

    fn from_env() -> (r: Result<Self, ConfigError>) {
        Ok(
            Self {
                teritori_grpc_scheme: "http".to_owned(),
                teritori_grpc_host: "127.0.0.1".to_owned(),
                teritori_grpc_port: 9090,
                validator_account: None,
                validator_address: None,
                syncing: true,
                new_proposal: false,
                missed_block: false,
                missed_block_threshold: None,
                validator_status: false,
                slashes: false,
            },
        )
    }
}

impl SelfValidation for CheckerConfig {
    open spec fn validate_result(&self) -> Result<(), ConfigError> {
        if self.teritori_grpc_scheme@ != "http"@ && self.teritori_grpc_scheme@ != "https"@ {
            Err(ConfigError::IllegalScheme)
        } else if self.missed_block && self.validator_account is None {
            Err(ConfigError::MissingValidatorAccount)
        } else if (self.validator_status || self.slashes) && self.validator_address is None {
            Err(ConfigError::MissingValidatorAddress)
        } else {
            Ok(())
        }
    }

    fn validate(&self) -> (r: Result<(), ConfigError>) {
        if self.teritori_grpc_scheme != "http".to_owned() && self.teritori_grpc_scheme
            != "https".to_owned() {
            return Err(ConfigError::IllegalScheme);
        }
        let require_validator_account = self.missed_block;
        if require_validator_account {
            if self.validator_account.is_none() {
                return Err(ConfigError::MissingValidatorAccount);
            }
        }
        let require_validator_address = self.validator_status || self.slashes;
        if require_validator_address {
            if self.validator_address.is_none() {
                return Err(ConfigError::MissingValidatorAddress);
            }
        }
        Ok(())
    }
}

/// Whether one endpoint's file section converts cleanly: only its
/// threshold text can fail.
pub open spec fn checker_toml_ok(t: CheckerToml) -> bool {
    match t.missed_block_threshold {
        None => true,
        Some(ts) => parse_threshold(encode_utf8(ts@)) is Some,
    }
}

/// How an endpoint configuration relates to its file section: every given
/// field taken over (the threshold parsed), every missing one left at the
/// default.
pub open spec fn checker_matches_toml(c: CheckerConfig, t: CheckerToml) -> bool {
    &&& c.teritori_grpc_scheme@ == (match t.teritori_grpc_scheme {
        Some(s) => s@,
        None => "http"@,
    })
    &&& c.teritori_grpc_host@ == (match t.teritori_grpc_host {
        Some(h) => h@,
        None => "127.0.0.1"@,
    })
    &&& c.teritori_grpc_port == (match t.teritori_grpc_port {
        Some(p) => p,
        None => 9090u16,
    })
    &&& c.validator_account.deep_view() == t.validator_account.deep_view()
    &&& c.validator_address.deep_view() == t.validator_address.deep_view()
    &&& c.syncing == (match t.syncing {
        Some(b) => b,
        None => true,
    })
    &&& c.new_proposal == (match t.new_proposal {
        Some(b) => b,
        None => false,
    })
    &&& c.missed_block == (match t.missed_block {
        Some(b) => b,
        None => false,
    })
    &&& (match t.missed_block_threshold {
        None => c.missed_block_threshold is None,
        Some(ts) => match parse_threshold(encode_utf8(ts@)) {
            Some(p) => c.missed_block_threshold == Some(
                MissedBlockThreshold { numerator: p.0, denominator: p.1 },
            ),
            None => false,
        },
    })
    &&& c.validator_status == (match t.validator_status {
        Some(b) => b,
        None => false,
    })
    &&& c.slashes == (match t.slashes {
        Some(b) => b,
        None => false,
    })
}

impl CheckerConfig {
    /// The endpoint string checkers connect to: scheme, host and port.
    pub fn teritori_grpc_endpoint(&self) -> (r: String)
        ensures
            r@ == self.teritori_grpc_scheme@ + "://"@ + self.teritori_grpc_host@ + ":"@
                + dec_str_of(self.teritori_grpc_port as int),
    {
        let mut endpoint = self.teritori_grpc_scheme.clone();
        endpoint.append("://");
        endpoint.append(self.teritori_grpc_host.as_str());
        endpoint.append(":");
        let port = u64_dec_string(self.teritori_grpc_port as u64);
        endpoint.append(port.as_str());
        endpoint
    }

    /// Merge a file section over the defaults; fails exactly when the
    /// threshold text does not parse.
    pub fn try_from(toml: CheckerToml) -> (r: Result<CheckerConfig, ConfigError>)
        ensures
            r is Ok <==> checker_toml_ok(toml),
            r matches Ok(c) ==> checker_matches_toml(c, toml),
            r matches Err(e) ==> e == ConfigError::IllegalThreshold,
    {
        let mut result = match CheckerConfig::from_env() {
            Ok(c) => c,
            Err(e) => {
                return Err(e);
            },
        };
        let CheckerToml {
            teritori_grpc_scheme,
            teritori_grpc_host,
            teritori_grpc_port,
            validator_account,
            validator_address,
            syncing,
            new_proposal,
            missed_block,
            missed_block_threshold,
            validator_status,
            slashes,
        } = toml;
        if let Some(teritori_grpc_scheme) = teritori_grpc_scheme {
            result.teritori_grpc_scheme = teritori_grpc_scheme;
        }
        if let Some(teritori_grpc_host) = teritori_grpc_host {
            result.teritori_grpc_host = teritori_grpc_host;
        }
        if let Some(teritori_grpc_port) = teritori_grpc_port {
            result.teritori_grpc_port = teritori_grpc_port;
        }
        if let Some(validator_account) = validator_account {
            result.validator_account = Some(validator_account);
        }
        if let Some(validator_address) = validator_address {
            result.validator_address = Some(validator_address);
        }
        if let Some(syncing) = syncing {
            result.syncing = syncing;
        }
        if let Some(new_proposal) = new_proposal {
            result.new_proposal = new_proposal;
        }
        if let Some(missed_block) = missed_block {
            result.missed_block = missed_block;
        }
        if let Some(missed_block_threshold) = missed_block_threshold {
            match MissedBlockThreshold::try_from(missed_block_threshold) {
                Ok(threshold) => {
                    result.missed_block_threshold = Some(threshold);
                },
                Err(_) => {
                    return Err(ConfigError::IllegalThreshold);
                },
            }
        }
        if let Some(validator_status) = validator_status {
            result.validator_status = validator_status;
        }
        if let Some(slashes) = slashes {
            result.slashes = slashes;
        }
        Ok(result)
    }
}

impl FromEnv for ApplicationConfig {
    open spec fn is_env_default(&self) -> bool {
        &&& self.interval@ == "10s"@
        &&& self.checkers@.len() == 0
        &&& self.logger.is_env_default()
    }

    fn from_env() -> (r: Result<Self, ConfigError>) {
        let logger = match LoggerConfig::from_env() {
            Ok(l) => l,
            Err(e) => {
                return Err(e);
            },
        };
        Ok(Self { interval: "10s".to_owned(), checkers: Vec::new(), logger })
    }
}

/// What validating a list of endpoint configurations returns: the first
/// error, in order.
pub open spec fn checkers_validate(cs: Seq<CheckerConfig>) -> Result<(), ConfigError>
    decreases cs.len(),
{
    if cs.len() == 0 {
        Ok(())
    } else {
        match cs[0].validate_result() {
            Err(e) => Err(e),
            Ok(()) => checkers_validate(cs.skip(1)),
        }
    }
}

impl SelfValidation for ApplicationConfig {
    open spec fn validate_result(&self) -> Result<(), ConfigError> {
        if !duration_parse_ok(self.interval@) {
            Err(ConfigError::IllegalInterval)
        } else {
            match checkers_validate(self.checkers@) {
                Err(e) => Err(e),
                Ok(()) => self.logger.validate_result(),
            }
        }
    }

    fn validate(&self) -> (r: Result<(), ConfigError>) {
        if try_parse_duration(self.interval.as_str()).is_none() {
            return Err(ConfigError::IllegalInterval);
        }
        let n = self.checkers.len();
        let mut i: usize = 0;
        proof {
            assert(self.checkers@.skip(0) =~= self.checkers@);
        }
        while i < n
            invariant
                n == self.checkers@.len(),
                i <= n,
                duration_parse_ok(self.interval@),
                checkers_validate(self.checkers@) == checkers_validate(self.checkers@.skip(i as int)),
            decreases n - i,
        {
            match self.checkers[i].validate() {
                Ok(()) => {},
                Err(e) => {
                    proof {
                        assert(self.checkers@.skip(i as int)[0] == self.checkers@[i as int]);
                    }
                    return Err(e);
                },
            }
            proof {
                assert(self.checkers@.skip(i as int)[0] == self.checkers@[i as int]);
                assert(self.checkers@.skip(i as int).skip(1) =~= self.checkers@.skip(i + 1));
            }
            i = i + 1;
        }
        proof {
            assert(self.checkers@.skip(n as int) =~= Seq::<CheckerConfig>::empty());
        }
        self.logger.validate()
    }
}

impl ApplicationConfig {
    /// Build the configuration out of a parsed file: the given interval or
    /// the default, every endpoint section converted, the logger section
    /// converted or the default. Fails exactly when an endpoint section
    /// does not convert.
    pub fn from_toml(app_toml: ApplicationToml) -> (r: Result<ApplicationConfig, ConfigError>)
        ensures
            r is Ok <==> (forall|i: int|
                0 <= i < app_toml.checkers@.len() ==> checker_toml_ok(#[trigger] app_toml.checkers@[i])),
            r matches Ok(a) ==> {
                &&& a.interval@ == (match app_toml.interval {
                    Some(s) => s@,
                    None => "10s"@,
                })
                &&& a.checkers@.len() == app_toml.checkers@.len()
                &&& (forall|i: int|
                    0 <= i < a.checkers@.len() ==> checker_matches_toml(
                        #[trigger] a.checkers@[i],
                        app_toml.checkers@[i],
                    ))
                &&& (match app_toml.logger {
                    Some(lt) => logger_matches_toml(a.logger, lt),
                    None => a.logger.is_env_default(),
                })
            },
            r matches Err(e) ==> e == ConfigError::IllegalThreshold,
    {
        let ApplicationToml { interval, checkers, logger } = app_toml;
        let interval = match interval {
            Some(interval) => interval,
            None => "10s".to_owned(),
        };
        let ghost all = checkers@;
        let mut checkers = checkers;
        let mut converted: Vec<CheckerConfig> = Vec::new();
        while checkers.len() > 0
            invariant
                all == app_toml.checkers@,
                converted@.len() + checkers@.len() == all.len(),
                checkers@ == all.skip(converted@.len() as int),
                forall|j: int|
                    0 <= j < converted@.len() ==> checker_toml_ok(#[trigger] all[j])
                        && checker_matches_toml(converted@[j], all[j]),
            decreases checkers@.len(),
        {
            let ghost k = converted@.len() as int;
            let next = checkers.remove(0);
            proof {
                assert(next == all[k]);
                assert(checkers@ =~= all.skip(k + 1));
            }
            let checker = match CheckerConfig::try_from(next) {
                Ok(c) => c,
                Err(e) => {
                    proof {
                        assert(!checker_toml_ok(app_toml.checkers@[k]));
                    }
                    return Err(e);
                },
            };
            converted.push(checker);
        }
        proof {
            assert(converted@.len() == all.len());
        }
        let logger = match logger {
            Some(logger_toml) => match LoggerConfig::try_from(logger_toml) {
                Ok(l) => l,
                Err(e) => {
                    return Err(e);
                },
            },
            None => match LoggerConfig::from_env() {
                Ok(l) => l,
                Err(e) => {
                    return Err(e);
                },
            },
        };
        Ok(ApplicationConfig { interval, checkers: converted, logger })
    }

    /// The tick interval, for a configuration whose interval was
    /// validated: exactly what the configured text parses to.
    pub fn get_interval(&self) -> (r: core::time::Duration)
        requires
            duration_parse_ok(self.interval@),
        ensures
            r == duration_of(self.interval@),
    {
        match try_parse_duration(self.interval.as_str()) {
            Some(d) => d,
            None => vstd::pervasive::unreached(),
        }
    }

    /// The tick interval, if the configured text parses; what a caller
    /// uses when the configuration was not validated first.
    pub fn try_get_interval(&self) -> (r: Option<core::time::Duration>)
        ensures
            r is Some <==> duration_parse_ok(self.interval@),
            r matches Some(d) ==> d == duration_of(self.interval@),
    {
        match try_parse_duration(self.interval.as_str()) {
            Some(_) => Some(self.get_interval()),
            None => None,
        }
    }
}

} // verus!
