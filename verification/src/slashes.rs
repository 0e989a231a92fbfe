//! The slashes checker: for each dispatched height range it queries the
//! slash events of the monitored validator and reports whether any penalty
//! fell in the range.

use crate::actor::{CheckerStep, Severity};
use crate::channel::{send_ack, Receiver};
use vstd::prelude::*;

verus! {

/// The height range one slashes check covers, both ends inclusive.
#[derive(Clone, Copy, Debug, PartialEq, Eq, Structural)]
pub struct SlashesMessageParams {
    pub starting_height: u64,
    pub ending_height: u64,
}

/// The command stream of a slashes checker.
pub enum SlashesMessage {
    Check(SlashesMessageParams),
    Terminate(std::sync::mpsc::SyncSender<()>),
}

/// An independent long-running check, one per endpoint.
pub struct SlashesChecker {
    pub validator_address: String,
    pub teritorid_endpoint: String,
    pub receiver: Receiver<SlashesMessage>,
}

impl SlashesChecker {
    pub fn new(
        validator_address: String,
        teritorid_endpoint: String,
        receiver: Receiver<SlashesMessage>,
    ) -> (r: Self)
        ensures
            r.validator_address == validator_address,
            r.teritorid_endpoint == teritorid_endpoint,
    {
        Self { validator_address, teritorid_endpoint, receiver }
    }

    /// Handle one command of the receive loop: hand the range back for the
    /// caller to query, or stop, acknowledging first.
    pub fn handle(&self, message: SlashesMessage) -> (r: (CheckerStep, Option<
        SlashesMessageParams,
    >))
        ensures
            message matches SlashesMessage::Check(p) ==> (r.0 == CheckerStep::Continue && r.1
                == Some(p)),
            message is Terminate ==> (r.0 == CheckerStep::Stopped && r.1 is None),
    {
        match message {
            SlashesMessage::Check(params) => (CheckerStep::Continue, Some(params)),
            SlashesMessage::Terminate(ack) => {
                // The receiver side of a fresh rendezvous channel is alive;
                // a failed acknowledgment only means the waiter is gone.
                let _ = send_ack(&ack);
                (CheckerStep::Stopped, None)
            },
        }
    }
}

/// How a slash query's answer is reported: any slash event in the range is
/// unhealthy, none is fine.
pub fn classify_slashes(slash_count: usize) -> (r: Severity)
    ensures
        r == if slash_count > 0 {
            Severity::Error
        } else {
            Severity::Info
        },
{
    if slash_count > 0 {
        Severity::Error
    } else {
        Severity::Info
    }
}

} // verus!
