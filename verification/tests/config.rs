use teritorimon::configs::{
    ApplicationConfig, CheckerConfig, ConfigError, FromEnv, LoggerConfig, SelfValidation,
};
use teritorimon::threshold::MissedBlockThreshold;
use teritorimon::toml_model::{ApplicationToml, CheckerToml, LoggerToml};

fn empty_checker_toml() -> CheckerToml {
    CheckerToml {
        teritori_grpc_scheme: None,
        teritori_grpc_host: None,
        teritori_grpc_port: None,
        validator_account: None,
        validator_address: None,
        syncing: None,
        new_proposal: None,
        missed_block: None,
        missed_block_threshold: None,
        validator_status: None,
        slashes: None,
    }
}

fn empty_logger_toml() -> LoggerToml {
    LoggerToml {
        chan_size: None,
        is_async: None,
        level: None,
        airbrake_host: None,
        airbrake_project_id: None,
        airbrake_project_key: None,
        airbrake_environment: None,
    }
}

#[test]
fn endpoint_joins_scheme_host_and_port() {
    let config = CheckerConfig::from_env().unwrap();
    assert_eq!(config.teritori_grpc_endpoint(), "http://127.0.0.1:9090");
    let mut config = config;
    config.teritori_grpc_scheme = "https".to_owned();
    config.teritori_grpc_host = "node.example".to_owned();
    config.teritori_grpc_port = 443;
    assert_eq!(config.teritori_grpc_endpoint(), "https://node.example:443");
}

#[test]
fn checker_toml_merges_over_defaults() {
    let mut toml = empty_checker_toml();
    toml.teritori_grpc_scheme = Some("https".to_owned());
    toml.teritori_grpc_port = Some(443);
    toml.validator_address = Some("teritorivaloper1xyz".to_owned());
    toml.missed_block = Some(true);
    toml.missed_block_threshold = Some("2/10".to_owned());
    let config = CheckerConfig::try_from(toml).unwrap();
    assert_eq!(config.teritori_grpc_scheme, "https");
    assert_eq!(config.teritori_grpc_host, "127.0.0.1");
    assert_eq!(config.teritori_grpc_port, 443);
    assert_eq!(
        config.validator_address.as_deref(),
        Some("teritorivaloper1xyz")
    );
    assert!(config.syncing);
    assert!(!config.new_proposal);
    assert!(config.missed_block);
    assert_eq!(
        config.missed_block_threshold,
        Some(MissedBlockThreshold {
            numerator: 2,
            denominator: 10,
        })
    );
}

#[test]
fn checker_toml_with_bad_threshold_is_rejected() {
    let mut toml = empty_checker_toml();
    toml.missed_block_threshold = Some("not a number".to_owned());
    assert_eq!(
        CheckerConfig::try_from(toml).err(),
        Some(ConfigError::IllegalThreshold)
    );
}

#[test]
fn checker_validation_reports_each_error() {
    let mut config = CheckerConfig::from_env().unwrap();
    config.teritori_grpc_scheme = "ftp".to_owned();
    assert_eq!(config.validate(), Err(ConfigError::IllegalScheme));

    let mut config = CheckerConfig::from_env().unwrap();
    config.missed_block = true;
    assert_eq!(config.validate(), Err(ConfigError::MissingValidatorAccount));
    config.validator_account = Some("00".repeat(20));
    assert_eq!(config.validate(), Ok(()));

    let mut config = CheckerConfig::from_env().unwrap();
    config.slashes = true;
    assert_eq!(config.validate(), Err(ConfigError::MissingValidatorAddress));
    config.validator_address = Some("teritorivaloper1xyz".to_owned());
    assert_eq!(config.validate(), Ok(()));
}

#[test]
fn logger_validation_checks_the_level() {
    let mut config = LoggerConfig::from_env().unwrap();
    assert_eq!(config.validate(), Ok(()));
    config.level = Some("INFO".to_owned());
    assert_eq!(config.validate(), Ok(()));
    config.level = Some("VERBOSE".to_owned());
    assert_eq!(config.validate(), Err(ConfigError::IllegalLoggerLevel));
}

#[test]
fn application_toml_builds_the_whole_config() {
    let toml = ApplicationToml {
        interval: None,
        checkers: vec![empty_checker_toml()],
        logger: Some(LoggerToml {
            level: Some("DEBUG".to_owned()),
            ..empty_logger_toml()
        }),
    };
    let config = ApplicationConfig::from_toml(toml).unwrap();
    assert_eq!(config.interval, "10s");
    assert_eq!(config.checkers.len(), 1);
    assert_eq!(config.logger.level.as_deref(), Some("DEBUG"));
    assert!(config.logger.is_async);
}

#[test]
fn application_validation_checks_the_interval() {
    let mut config = ApplicationConfig::from_env().unwrap();
    assert_eq!(config.validate(), Ok(()));
    config.interval = "not a duration".to_owned();
    assert_eq!(config.validate(), Err(ConfigError::IllegalInterval));
}

#[test]
fn interval_parses_to_a_duration() {
    let config = ApplicationConfig::from_env().unwrap();
    assert_eq!(
        config.try_get_interval(),
        Some(std::time::Duration::from_secs(10))
    );
    let mut config = config;
    config.interval = "500ms".to_owned();
    assert_eq!(
        config.try_get_interval(),
        Some(std::time::Duration::from_millis(500))
    );
    config.interval = "xx".to_owned();
    assert_eq!(config.try_get_interval(), None);
}

#[test]
fn application_toml_rejects_a_bad_checker_section() {
    let mut bad = empty_checker_toml();
    bad.missed_block_threshold = Some("1/x".to_owned());
    let toml = ApplicationToml {
        interval: Some("30s".to_owned()),
        checkers: vec![empty_checker_toml(), bad],
        logger: None,
    };
    assert_eq!(
        ApplicationConfig::from_toml(toml).err(),
        Some(ConfigError::IllegalThreshold)
    );
}
