use teritorimon::account::Id;
use teritorimon::channel;
use teritorimon::missed_block::MissedBlockChecker;
use teritorimon::threshold::{MissedBlockThreshold, ThresholdError};

fn run_detector(threshold: MissedBlockThreshold, data: Vec<(i64, bool)>) -> Vec<(i64, bool)> {
    let (_sender, receiver) = channel::new(8);
    let mut checker = MissedBlockChecker::new(Id::new([0; 20]), threshold, receiver);
    let mut result = Vec::new();
    for (block_height, signed) in data {
        let alert = checker.process_block(block_height, signed);
        result.push((block_height, alert));
    }
    result
}

#[test]
fn test_threshold_single() {
    let threshold = MissedBlockThreshold::default();
    assert_eq!(
        threshold,
        MissedBlockThreshold {
            numerator: 1,
            denominator: 1,
        }
    );
    let data = vec![
        (1, true),
        (2, true),
        (3, false),
        (4, false),
        (5, true),
        (6, false),
    ];
    let expected = vec![
        (1, false),
        (2, false),
        (3, true),
        (4, true),
        (5, false),
        (6, true),
    ];
    let result = run_detector(threshold, data);
    assert_eq!(result, expected);
}

#[test]
fn test_threshold_2() {
    let threshold = "2".to_owned();
    let threshold = MissedBlockThreshold::try_from(threshold).unwrap();
    assert_eq!(
        threshold,
        MissedBlockThreshold {
            numerator: 2,
            denominator: 2,
        }
    );
    let data = vec![
        (1, true),
        (2, true),
        (3, false),
        (4, false),
        (5, true),
        (6, false),
    ];
    let expected = vec![
        (1, false),
        (2, false),
        (3, false),
        (4, true),
        (5, false),
        (6, false),
    ];
    let result = run_detector(threshold, data);
    assert_eq!(result, expected);
}

#[test]
fn test_threshold_2_out_of_10() {
    let threshold = "2/10".to_owned();
    let threshold = MissedBlockThreshold::try_from(threshold).unwrap();
    assert_eq!(
        threshold,
        MissedBlockThreshold {
            numerator: 2,
            denominator: 10,
        }
    );
    let data = vec![
        (1, false),
        (2, true),
        (3, true),
        (4, true),
        (5, true),
        (6, true),
        (7, true),
        (8, true),
        (9, true),
        (10, false),
        (11, true),
        (12, true),
        (13, true),
        (14, true),
        (15, true),
        (16, true),
        (17, true),
        (18, true),
        (19, true),
        (20, true),
        (21, false),
    ];
    let expected = vec![
        (1, false),
        (2, false),
        (3, false),
        (4, false),
        (5, false),
        (6, false),
        (7, false),
        (8, false),
        (9, false),
        (10, true),
        (11, false),
        (12, false),
        (13, false),
        (14, false),
        (15, false),
        (16, false),
        (17, false),
        (18, false),
        (19, false),
        (20, false),
        (21, false),
    ];
    let result = run_detector(threshold, data);
    assert_eq!(result, expected);
}

#[test]
fn threshold_accepts_plus_sign_and_extra_segments() {
    let t = MissedBlockThreshold::try_from("+5".to_owned()).unwrap();
    assert_eq!(t, MissedBlockThreshold { numerator: 5, denominator: 5 });
    // Text after a second slash is ignored.
    let t = MissedBlockThreshold::try_from("3/4/9".to_owned()).unwrap();
    assert_eq!(t, MissedBlockThreshold { numerator: 3, denominator: 4 });
}

#[test]
fn threshold_rejects_bad_text() {
    assert_eq!(
        MissedBlockThreshold::try_from("x".to_owned()),
        Err(ThresholdError::IllegalFormat)
    );
    assert_eq!(
        MissedBlockThreshold::try_from("2/".to_owned()),
        Err(ThresholdError::IllegalFormat)
    );
    assert_eq!(
        MissedBlockThreshold::try_from("/2".to_owned()),
        Err(ThresholdError::IllegalFormat)
    );
    assert_eq!(
        MissedBlockThreshold::try_from("".to_owned()),
        Err(ThresholdError::IllegalFormat)
    );
    assert_eq!(
        MissedBlockThreshold::try_from("99999999999999999999".to_owned()),
        Err(ThresholdError::IllegalFormat)
    );
}

#[test]
fn window_prunes_to_trailing_blocks() {
    let threshold = MissedBlockThreshold { numerator: 2, denominator: 3 };
    let (_sender, receiver) = channel::new(8);
    let mut checker = MissedBlockChecker::new(Id::new([0; 20]), threshold, receiver);
    assert!(!checker.process_block(1, false));
    assert!(checker.process_block(2, false));
    assert!(!checker.process_block(5, false));
    // Heights 1 and 2 lie below 5 - 3 + 1 and are pruned away.
    assert_eq!(checker.missed_block_heights, vec![5]);
}
