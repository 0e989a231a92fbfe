use futures::StreamExt;
use teritorimon::account::Id;
use teritorimon::actor::CheckerStep;
use teritorimon::channel;
use teritorimon::manager::{CheckManager, CheckerKind};
use teritorimon::message::{BlockData, BlockMessage, CommitData, SignatureData};
use teritorimon::missed_block::{MissedBlockChecker, MissedBlockMessage, MissedBlockVerdict};
use teritorimon::threshold::MissedBlockThreshold;

fn block_at(height: i64, signer: &[u8]) -> BlockMessage {
    BlockMessage {
        block: Some(BlockData {
            height,
            last_commit: Some(CommitData {
                signatures: vec![SignatureData {
                    validator_address: signer.to_vec(),
                }],
            }),
            data: None,
        }),
    }
}

#[test]
fn a_check_enqueued_after_terminate_is_not_processed() {
    let (_sender, receiver) = channel::new(8);
    let mut checker =
        MissedBlockChecker::new(Id::new([9; 20]), MissedBlockThreshold::default(), receiver);
    let (ack_sender, ack_receiver) = std::sync::mpsc::sync_channel(1);
    // The queue is FIFO: the terminate command stands before a later check.
    let drained = vec![
        MissedBlockMessage::Check(block_at(1, &[1; 20])),
        MissedBlockMessage::Terminate(ack_sender),
        MissedBlockMessage::Check(block_at(2, &[1; 20])),
    ];
    let mut processed = 0;
    for message in drained {
        processed += 1;
        if checker.handle(message) == MissedBlockVerdict::Stopped {
            break;
        }
    }
    // The loop handled the first check and the terminate, never the check
    // enqueued after it.
    assert_eq!(processed, 2);
    assert_eq!(checker.missed_block_heights, vec![1]);
    // Exactly one acknowledgment was sent, before the loop ended.
    assert!(ack_receiver.try_recv().is_ok());
    assert!(ack_receiver.try_recv().is_err());
}

#[test]
fn missed_block_handle_reads_the_commit() {
    let (_sender, receiver) = channel::new(8);
    let mut checker =
        MissedBlockChecker::new(Id::new([9; 20]), MissedBlockThreshold::default(), receiver);
    // Signed: the commit carries the monitored validator's bytes.
    let verdict = checker.handle(MissedBlockMessage::Check(block_at(1, &[9; 20])));
    assert_eq!(verdict, MissedBlockVerdict::Signed);
    // Missed: some other validator signed; with the default threshold the
    // first miss already alerts.
    let verdict = checker.handle(MissedBlockMessage::Check(block_at(2, &[1; 20])));
    assert_eq!(verdict, MissedBlockVerdict::MissedAlert);
    // A message without a block is skipped.
    let verdict = checker.handle(MissedBlockMessage::Check(BlockMessage { block: None }));
    assert_eq!(verdict, MissedBlockVerdict::Skipped);
}

#[test]
fn termination_handshake_is_synchronous() {
    let rt = tokio::runtime::Builder::new_multi_thread()
        .worker_threads(2)
        .build()
        .unwrap();
    let mut manager = CheckManager::default();
    manager.teritorid_endpoint("http://127.0.0.1:9090");
    manager.check_if_new_proposal(false);
    let set = manager.setup();
    let checker = set.is_syncing.unwrap();
    let task = rt.spawn(async move {
        let mut checker = checker;
        let mut processed = 0u32;
        loop {
            match checker.receiver.inner.next().await {
                Some(message) => {
                    processed += 1;
                    if checker.handle(message) == CheckerStep::Stopped {
                        break;
                    }
                }
                None => break,
            }
        }
        processed
    });
    // One check, then the shutdown handshake; terminate returns only after
    // the checker acknowledged.
    manager.dispatch_tick_checks().unwrap();
    let order = manager.terminate().unwrap();
    assert_eq!(order, vec![CheckerKind::IsSyncing]);
    let processed = rt.block_on(task).unwrap();
    assert_eq!(processed, 2);
}

#[test]
fn terminate_without_checkers_is_a_no_op() {
    let mut manager = CheckManager::default();
    let order = manager.terminate().unwrap();
    assert_eq!(order, Vec::<CheckerKind>::new());
}
