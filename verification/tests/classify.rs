use teritorimon::actor::Severity;
use teritorimon::is_syncing::classify_syncing;
use teritorimon::slashes::classify_slashes;
use teritorimon::validator_status::{classify_validator, ValidatorInfo, BOND_STATUS_BONDED};

#[test]
fn syncing_is_an_error() {
    assert_eq!(classify_syncing(true), Severity::Error);
    assert_eq!(classify_syncing(false), Severity::Info);
}

#[test]
fn validator_health_needs_bonded_and_not_jailed() {
    assert_eq!(classify_validator(&None), Severity::Warning);
    let healthy = ValidatorInfo {
        jailed: false,
        status: BOND_STATUS_BONDED,
    };
    assert_eq!(classify_validator(&Some(healthy)), Severity::Info);
    let jailed = ValidatorInfo {
        jailed: true,
        status: BOND_STATUS_BONDED,
    };
    assert_eq!(classify_validator(&Some(jailed)), Severity::Error);
    let unbonded = ValidatorInfo {
        jailed: false,
        status: 1,
    };
    assert_eq!(classify_validator(&Some(unbonded)), Severity::Error);
}

#[test]
fn any_slash_event_is_an_error() {
    assert_eq!(classify_slashes(0), Severity::Info);
    assert_eq!(classify_slashes(1), Severity::Error);
    assert_eq!(classify_slashes(7), Severity::Error);
}
