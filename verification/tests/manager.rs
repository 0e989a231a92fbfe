use teritorimon::manager::CheckManager;
use teritorimon::message::{BlockData, BlockMessage};
use teritorimon::new_proposal::NewProposalMessage;
use teritorimon::slashes::SlashesMessage;
use teritorimon::threshold::MissedBlockThreshold;

#[test]
fn default_manager_runs_only_the_basic_checks() {
    let manager = CheckManager::default();
    assert_eq!(manager.teritorid_endpoint, "");
    assert!(manager.check_if_syncing);
    assert!(manager.check_if_new_proposal);
    assert!(!manager.check_if_missed_block);
    assert!(!manager.check_if_validator_status);
    assert!(!manager.check_if_slashes);
    assert!(manager.latest_height.is_none());
}

#[test]
fn builders_set_the_configuration() {
    let mut manager = CheckManager::default();
    manager.teritorid_endpoint("http://node.example:9090");
    manager.validator_account("000102030405060708090A0B0C0D0E0F10ABCDEF");
    manager.validator_address("teritorivaloper1xyz");
    manager.check_if_missed_block(
        true,
        Some(MissedBlockThreshold {
            numerator: 2,
            denominator: 10,
        }),
    );
    manager.check_if_validator_status(true);
    manager.check_if_slashes(true);
    assert_eq!(manager.teritorid_endpoint, "http://node.example:9090");
    let account = manager.validator_account.unwrap();
    assert_eq!(account.hex_string(), "000102030405060708090A0B0C0D0E0F10ABCDEF");
    assert_eq!(
        manager.validator_address.as_deref(),
        Some("teritorivaloper1xyz")
    );
    assert!(manager.check_if_missed_block);
    assert!(manager.check_if_validator_status);
    assert!(manager.check_if_slashes);
}

#[test]
fn first_tick_observes_only_the_latest_height() {
    let manager = CheckManager::default();
    assert_eq!(manager.plan_tick(42), Some((42, 42)));
}

#[test]
fn later_ticks_backfill_every_unseen_height() {
    let mut manager = CheckManager::default();
    manager.latest_height = Some(5);
    assert_eq!(manager.plan_tick(8), Some((6, 8)));
    assert_eq!(manager.plan_tick(6), Some((6, 6)));
    // Nothing new: no heights to dispatch.
    assert_eq!(manager.plan_tick(5), None);
    assert_eq!(manager.plan_tick(4), None);
}

#[test]
fn setup_builds_one_checker_per_enabled_check() {
    let mut manager = CheckManager::default();
    manager.teritorid_endpoint("http://127.0.0.1:9090");
    manager.validator_account("000102030405060708090A0B0C0D0E0F10ABCDEF");
    manager.validator_address("teritorivaloper1xyz");
    manager.check_if_missed_block(true, None);
    manager.check_if_validator_status(true);
    let set = manager.setup();
    assert!(set.is_syncing.is_some());
    assert!(set.new_proposal.is_some());
    assert!(set.validator_status.is_some());
    assert!(set.slashes.is_none());
    let missed = set.missed_block.unwrap();
    // Without a configured threshold the default one-in-one applies.
    assert_eq!(
        missed.missed_block_threshold,
        MissedBlockThreshold {
            numerator: 1,
            denominator: 1,
        }
    );
    assert!(missed.missed_block_heights.is_empty());
    assert!(manager.is_syncing_checker.is_some());
    assert!(manager.missed_block_checker.is_some());
    assert!(manager.slashes_checker.is_none());
}

fn block_message(height: i64) -> BlockMessage {
    BlockMessage {
        block: Some(BlockData {
            height,
            last_commit: None,
            data: None,
        }),
    }
}

#[test]
fn consecutive_ticks_dispatch_gap_free_heights() {
    let mut manager = CheckManager::default();
    manager.teritorid_endpoint("http://127.0.0.1:9090");
    manager.check_if_syncing(false);
    let mut set = manager.setup();
    let mut checker = set.new_proposal.take().unwrap();

    // First tick: the chain reports height 5; only the latest height goes out.
    let (from, to) = manager.plan_tick(5).unwrap();
    for height in from..=to {
        manager.dispatch_block(block_message(height)).unwrap();
    }
    manager.finish_tick(from, to).unwrap();

    // Second tick: the chain reports height 8; the unseen 6, 7, 8 go out.
    let (from, to) = manager.plan_tick(8).unwrap();
    for height in from..=to {
        manager.dispatch_block(block_message(height)).unwrap();
    }
    manager.finish_tick(from, to).unwrap();

    let mut heights = Vec::new();
    while let Ok(Some(message)) = checker.receiver.inner.try_next() {
        if let NewProposalMessage::Check(b) = message {
            heights.push(b.block.unwrap().height);
        }
    }
    // No gap and no duplicate across the two ticks.
    assert_eq!(heights, vec![5, 6, 7, 8]);
}

#[test]
fn finishing_a_tick_sends_one_ranged_slashes_check() {
    let mut manager = CheckManager::default();
    manager.teritorid_endpoint("http://127.0.0.1:9090");
    manager.check_if_syncing(false);
    manager.check_if_new_proposal(false);
    manager.validator_address("teritorivaloper1xyz");
    manager.check_if_slashes(true);
    let mut set = manager.setup();
    let mut checker = set.slashes.take().unwrap();

    manager.finish_tick(6, 8).unwrap();
    assert_eq!(manager.latest_height, Some(8));

    let first = checker.receiver.inner.try_next().unwrap().unwrap();
    match first {
        SlashesMessage::Check(params) => {
            assert_eq!(params.starting_height, 6);
            assert_eq!(params.ending_height, 8);
        }
        SlashesMessage::Terminate(_) => panic!("expected a ranged check"),
    }
    assert!(checker.receiver.inner.try_next().is_err());
}
