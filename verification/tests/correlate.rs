use teritorimon::message::{TxAttribute, TxBody, TxEvent, TxLog, TxMessageAny};
use teritorimon::new_proposal::{find_proposal_id, proposal_message_indices};
use teritorimon::utils::calculate_hash;

fn attribute(key: &str, value: &str) -> TxAttribute {
    TxAttribute {
        key: key.to_owned(),
        value: value.to_owned(),
    }
}

fn submit_proposal_log(msg_index: u32, proposal_id: &str) -> TxLog {
    TxLog {
        msg_index,
        events: vec![
            TxEvent {
                event_type: "message".to_owned(),
                attributes: vec![attribute("action", "submit_proposal")],
            },
            TxEvent {
                event_type: "submit_proposal".to_owned(),
                attributes: vec![
                    attribute("voting_period_start", "7"),
                    attribute("proposal_id", proposal_id),
                ],
            },
        ],
    }
}

#[test]
fn proposal_indices_finds_submit_messages() {
    let body = TxBody {
        messages: vec![
            TxMessageAny {
                type_url: "/cosmos.bank.v1beta1.MsgSend".to_owned(),
            },
            TxMessageAny {
                type_url: "/cosmos.gov.v1beta1.MsgSubmitProposal".to_owned(),
            },
            TxMessageAny {
                type_url: "/cosmos.gov.v1beta1.MsgSubmitProposal".to_owned(),
            },
        ],
    };
    assert_eq!(proposal_message_indices(&body), vec![1, 2]);
    let empty = TxBody { messages: vec![] };
    assert_eq!(proposal_message_indices(&empty), Vec::<usize>::new());
}

#[test]
fn correlation_finds_the_proposal_id() {
    let logs = vec![submit_proposal_log(0, "17"), submit_proposal_log(1, "18")];
    assert_eq!(find_proposal_id(1, &logs), Some("18".to_owned()));
    assert_eq!(find_proposal_id(0, &logs), Some("17".to_owned()));
}

#[test]
fn correlation_is_best_effort() {
    // No log entry at the message's index.
    let logs = vec![submit_proposal_log(2, "19")];
    assert_eq!(find_proposal_id(0, &logs), None);
    // A log entry without the submit_proposal event.
    let logs = vec![TxLog {
        msg_index: 0,
        events: vec![TxEvent {
            event_type: "message".to_owned(),
            attributes: vec![],
        }],
    }];
    assert_eq!(find_proposal_id(0, &logs), None);
    // The event without the proposal_id attribute.
    let logs = vec![TxLog {
        msg_index: 0,
        events: vec![TxEvent {
            event_type: "submit_proposal".to_owned(),
            attributes: vec![attribute("voting_period_start", "7")],
        }],
    }];
    assert_eq!(find_proposal_id(0, &logs), None);
}

#[test]
fn correlation_takes_the_first_match() {
    let mut first = submit_proposal_log(0, "21");
    first.events.push(TxEvent {
        event_type: "submit_proposal".to_owned(),
        attributes: vec![attribute("proposal_id", "99")],
    });
    let logs = vec![first, submit_proposal_log(0, "98")];
    assert_eq!(find_proposal_id(0, &logs), Some("21".to_owned()));
}

#[test]
fn transaction_hash_is_upper_hex_sha256() {
    let hash = calculate_hash(b"abc").unwrap();
    assert_eq!(
        hash,
        "BA7816BF8F01CFEA414140DE5DAE2223B00361A396177A9CB410FF61F20015AD"
    );
    let hash = calculate_hash(b"").unwrap();
    assert_eq!(
        hash,
        "E3B0C44298FC1C149AFBF4C8996FB92427AE41E4649B934CA495991B7852B855"
    );
}
