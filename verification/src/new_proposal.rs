//! The new-proposal checker: correlates a block's transactions with the
//! chain's indexed execution logs to spot freshly submitted governance
//! proposals.
//!
//! For each transaction the decoded body's messages are scanned for the
//! submit-proposal type tag; for each such message, the transaction's
//! execution logs are searched for the entry at the message's position,
//! within it for the event tagged `submit_proposal`, and within that for
//! the attribute keyed `proposal_id`. Any missing piece yields no alert for
//! that message.

use crate::actor::CheckerStep;
use crate::channel::{send_ack, Receiver};
use crate::message::{BlockMessage, TxAttribute, TxBody, TxEvent, TxLog};
use vstd::prelude::*;

verus! {

/// The command stream of a new-proposal checker.
pub enum NewProposalMessage {
    Check(BlockMessage),
    Terminate(std::sync::mpsc::SyncSender<()>),
}

impl From<BlockMessage> for NewProposalMessage {
    fn from(inner: BlockMessage) -> (r: Self) {
        NewProposalMessage::Check(inner)
    }
}

impl vstd::std_specs::convert::FromSpecImpl<BlockMessage> for NewProposalMessage {
    open spec fn obeys_from_spec() -> bool {
        true
    }

    open spec fn from_spec(inner: BlockMessage) -> Self {
        NewProposalMessage::Check(inner)
    }
}

/// The index of the first element satisfying a predicate.
pub open spec fn first_match_index<T>(s: Seq<T>, pred: spec_fn(T) -> bool) -> Option<int>
    decreases s.len(),
{
    if s.len() == 0 {
        None
    } else if pred(s[0]) {
        Some(0int)
    } else {
        match first_match_index(s.skip(1), pred) {
            Some(i) => Some(i + 1),
            None => None,
        }
    }
}

/// What `first_match_index` finds: the least matching index, or nothing
/// anywhere.
pub proof fn lemma_first_match_index_ensures<T>(s: Seq<T>, pred: spec_fn(T) -> bool)
    ensures
        match first_match_index(s, pred) {
            Some(i) => 0 <= i < s.len() && pred(s[i]) && forall|j: int|
                0 <= j < i ==> !pred(#[trigger] s[j]),
            None => forall|j: int| 0 <= j < s.len() ==> !pred(#[trigger] s[j]),
        },
    decreases s.len(),
{
    if s.len() > 0 && !pred(s[0]) {
        lemma_first_match_index_ensures(s.skip(1), pred);
        match first_match_index(s.skip(1), pred) {
            Some(i) => {
                assert(s.skip(1)[i] == s[i + 1]);
                assert forall|j: int| 0 <= j < i + 1 implies !pred(#[trigger] s[j]) by {
                    if j > 0 {
                        assert(!pred(s.skip(1)[j - 1]));
                    }
                }
            },
            None => {
                assert forall|j: int| 0 <= j < s.len() implies !pred(#[trigger] s[j]) by {
                    if j > 0 {
                        assert(!pred(s.skip(1)[j - 1]));
                    }
                }
            },
        }
    }
}

/// Whether a message's type tag identifies a submit-governance-proposal
/// message.
pub open spec fn is_submit_proposal_url(url: Seq<char>) -> bool {
    url == "/cosmos.gov.v1beta1.MsgSubmitProposal"@
}

/// Whether an execution-log event is a submit-proposal event.
pub open spec fn is_submit_proposal_event(e: TxEvent) -> bool {
    e.event_type@ == "submit_proposal"@
}

/// Whether an event attribute carries the proposal identifier.
pub open spec fn is_proposal_id_attr(a: TxAttribute) -> bool {
    a.key@ == "proposal_id"@
}

/// What the log correlation yields for the message at `msg_index`: the
/// value of the `proposal_id` attribute of the first `submit_proposal`
/// event of the first log entry at that message index, or nothing when any
/// of the three is missing.
pub open spec fn spec_correlate(msg_index: int, logs: Seq<TxLog>) -> Option<Seq<char>> {
    match first_match_index(logs, |l: TxLog| l.msg_index == msg_index) {
        None => None,
        Some(li) => match first_match_index(
            logs[li].events@,
            |e: TxEvent| is_submit_proposal_event(e),
        ) {
            None => None,
            Some(ei) => match first_match_index(
                logs[li].events@[ei].attributes@,
                |a: TxAttribute| is_proposal_id_attr(a),
            ) {
                None => None,
                Some(ai) => Some(logs[li].events@[ei].attributes@[ai].value@),
            },
        },
    }
}

/// An independent long-running check, one per endpoint, fed one
/// `BlockMessage` per height; it fetches transaction logs from the endpoint
/// as needed.
pub struct NewProposalChecker {
    pub teritorid_endpoint: String,
    pub receiver: Receiver<NewProposalMessage>,
}

impl NewProposalChecker {
    pub fn new(teritorid_endpoint: String, receiver: Receiver<NewProposalMessage>) -> (r: Self)
        ensures
            r.teritorid_endpoint == teritorid_endpoint,
    {
        Self { teritorid_endpoint, receiver }
    }

    /// Handle one command of the receive loop: hand a dispatched block back
    /// for its transactions to be decoded and correlated, or stop,
    /// acknowledging first.
    pub fn handle(&self, message: NewProposalMessage) -> (r: (CheckerStep, Option<BlockMessage>))
        ensures
            message matches NewProposalMessage::Check(b) ==> (r.0 == CheckerStep::Continue
                && r.1 == Some(b)),
            message is Terminate ==> (r.0 == CheckerStep::Stopped && r.1 is None),
    {
        match message {
            NewProposalMessage::Check(block) => (CheckerStep::Continue, Some(block)),
            NewProposalMessage::Terminate(ack) => {
                // The receiver side of a fresh rendezvous channel is alive;
                // a failed acknowledgment only means the waiter is gone.
                let _ = send_ack(&ack);
                (CheckerStep::Stopped, None)
            },
        }
    }
}

/// The positions of a decoded transaction body's submit-proposal messages,
/// ascending: these are the messages whose logs are worth fetching.
pub fn proposal_message_indices(body: &TxBody) -> (r: Vec<usize>)
    ensures
        forall|k: int|
            0 <= k < r@.len() ==> 0 <= #[trigger] r@[k] < body.messages@.len()
                && is_submit_proposal_url(body.messages@[r@[k] as int].type_url@),
        forall|k1: int, k2: int| 0 <= k1 < k2 < r@.len() ==> r@[k1] < r@[k2],
        forall|i: int|
            0 <= i < body.messages@.len() && is_submit_proposal_url(
                #[trigger] body.messages@[i].type_url@,
            ) ==> exists|k: int| 0 <= k < r@.len() && r@[k] == i,
{
    let submit_url: String = "/cosmos.gov.v1beta1.MsgSubmitProposal".to_owned();
    let mut r: Vec<usize> = Vec::new();
    let n = body.messages.len();
    let mut i: usize = 0;
    while i < n
        invariant
            n == body.messages@.len(),
            i <= n,
            submit_url@ == "/cosmos.gov.v1beta1.MsgSubmitProposal"@,
            forall|k: int|
                0 <= k < r@.len() ==> 0 <= #[trigger] r@[k] < i && is_submit_proposal_url(
                    body.messages@[r@[k] as int].type_url@,
                ),
            forall|k1: int, k2: int| 0 <= k1 < k2 < r@.len() ==> r@[k1] < r@[k2],
            forall|j: int|
                0 <= j < i && is_submit_proposal_url(#[trigger] body.messages@[j].type_url@)
                    ==> exists|k: int| 0 <= k < r@.len() && r@[k] == j,
        decreases n - i,
    {
        let matched = body.messages[i].type_url == submit_url;
        let ghost r0 = r@;
        if matched {
            r.push(i);
        }
        proof {
            assert(is_submit_proposal_url(body.messages@[i as int].type_url@) == matched);
            assert forall|j: int|
                0 <= j < i + 1 && is_submit_proposal_url(
                    #[trigger] body.messages@[j].type_url@,
                ) implies exists|k: int| 0 <= k < r@.len() && r@[k] == j by {
                if j < i {
                    let k = choose|k: int| 0 <= k < r0.len() && r0[k] == j;
                    assert(r@[k] == j);
                } else {
                    assert(r@[r@.len() - 1] == i);
                }
            }
        }
        i = i + 1;
    }
    r
}

/// The proposal identifier for the message at `msg_index`, correlated from
/// the transaction's execution logs: the first log entry at that message
/// index, its first `submit_proposal` event, its first `proposal_id`
/// attribute. `None` when any of the three is missing.
pub fn find_proposal_id(msg_index: usize, logs: &Vec<TxLog>) -> (r: Option<String>)
    ensures
        r is Some <==> spec_correlate(msg_index as int, logs@) is Some,
        r matches Some(v) ==> spec_correlate(msg_index as int, logs@) == Some(v@),
{
    let nl = logs.len();
    let mut li: usize = 0;
    loop
        invariant_except_break
            nl == logs@.len(),
            li <= nl,
            forall|j: int| 0 <= j < li ==> #[trigger] logs@[j].msg_index != msg_index as int,
        ensures
            li < logs@.len(),
            logs@[li as int].msg_index == msg_index as int,
            first_match_index(logs@, |l: TxLog| l.msg_index == msg_index as int) == Some(
                li as int,
            ),
        decreases nl - li,
    {
        if li >= nl {
            proof {
                lemma_first_match_index_ensures(logs@, |l: TxLog| l.msg_index == msg_index as int);
            }
            return None;
        }
        if logs[li].msg_index as usize == msg_index {
            proof {
                lemma_first_match_index_ensures(logs@, |l: TxLog| l.msg_index == msg_index as int);
            }
            break;
        }
        li = li + 1;
    }
    let events = &logs[li].events;
    let submit_event: String = "submit_proposal".to_owned();
    let ne = events.len();
    let mut ei: usize = 0;
    loop
        invariant_except_break
            nl == logs@.len(),
            li < nl,
            events@ == logs@[li as int].events@,
            first_match_index(logs@, |l: TxLog| l.msg_index == msg_index as int) == Some(
                li as int,
            ),
            ne == events@.len(),
            submit_event@ == "submit_proposal"@,
            ei <= ne,
            forall|j: int| 0 <= j < ei ==> !is_submit_proposal_event(#[trigger] events@[j]),
        ensures
            ei < events@.len(),
            events@ == logs@[li as int].events@,
            li < nl,
            nl == logs@.len(),
            first_match_index(logs@, |l: TxLog| l.msg_index == msg_index as int) == Some(
                li as int,
            ),
            is_submit_proposal_event(events@[ei as int]),
            first_match_index(events@, |e: TxEvent| is_submit_proposal_event(e)) == Some(
                ei as int,
            ),
        decreases ne - ei,
    {
        if ei >= ne {
            proof {
                lemma_first_match_index_ensures(events@, |e: TxEvent| is_submit_proposal_event(e));
            }
            return None;
        }
        if events[ei].event_type == submit_event {
            proof {
                lemma_first_match_index_ensures(events@, |e: TxEvent| is_submit_proposal_event(e));
            }
            break;
        }
        ei = ei + 1;
    }
    let attributes = &events[ei].attributes;
    let proposal_key: String = "proposal_id".to_owned();
    let na = attributes.len();
    let mut ai: usize = 0;
    loop
        invariant_except_break
            nl == logs@.len(),
            li < nl,
            events@ == logs@[li as int].events@,
            ei < events@.len(),
            attributes@ == events@[ei as int].attributes@,
            first_match_index(logs@, |l: TxLog| l.msg_index == msg_index as int) == Some(
                li as int,
            ),
            first_match_index(events@, |e: TxEvent| is_submit_proposal_event(e)) == Some(
                ei as int,
            ),
            na == attributes@.len(),
            proposal_key@ == "proposal_id"@,
            ai <= na,
            forall|j: int| 0 <= j < ai ==> !is_proposal_id_attr(#[trigger] attributes@[j]),
        ensures
            nl == logs@.len(),
            li < nl,
            events@ == logs@[li as int].events@,
            ei < events@.len(),
            attributes@ == events@[ei as int].attributes@,
            ai < attributes@.len(),
            first_match_index(logs@, |l: TxLog| l.msg_index == msg_index as int) == Some(
                li as int,
            ),
            first_match_index(events@, |e: TxEvent| is_submit_proposal_event(e)) == Some(
                ei as int,
            ),
            first_match_index(attributes@, |a: TxAttribute| is_proposal_id_attr(a)) == Some(
                ai as int,
            ),
        decreases na - ai,
    {
        if ai >= na {
            proof {
                lemma_first_match_index_ensures(
                    attributes@,
                    |a: TxAttribute| is_proposal_id_attr(a),
                );
            }
            return None;
        }
        if attributes[ai].key == proposal_key {
            proof {
                lemma_first_match_index_ensures(
                    attributes@,
                    |a: TxAttribute| is_proposal_id_attr(a),
                );
            }
            break;
        }
        ai = ai + 1;
    }
    Some(attributes[ai].value.clone())
}

} // verus!
