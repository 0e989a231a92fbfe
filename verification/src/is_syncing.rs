//! The is-syncing checker: each tick it asks the endpoint whether the node
//! is still catching up, which is unhealthy for a monitored validator.

use crate::actor::{CheckerStep, Severity};
use crate::channel::{send_ack, Receiver};
use vstd::prelude::*;

verus! {

/// The command stream of an is-syncing checker.
pub enum IsSyncingMessage {
    Check,
    Terminate(std::sync::mpsc::SyncSender<()>),
}

/// An independent long-running check, one per endpoint.
pub struct IsSyncingChecker {
    pub teritorid_endpoint: String,
    pub receiver: Receiver<IsSyncingMessage>,
}

impl IsSyncingChecker {
    pub fn new(teritorid_endpoint: String, receiver: Receiver<IsSyncingMessage>) -> (r: Self)
        ensures
            r.teritorid_endpoint == teritorid_endpoint,
    {
        Self { teritorid_endpoint, receiver }
    }

    /// Handle one command of the receive loop: go perform the query, or
    /// stop, acknowledging first.
    pub fn handle(&self, message: IsSyncingMessage) -> (r: CheckerStep)
        ensures
            message is Check ==> r == CheckerStep::Continue,
            message is Terminate ==> r == CheckerStep::Stopped,
    {
        match message {
            IsSyncingMessage::Check => CheckerStep::Continue,
            IsSyncingMessage::Terminate(ack) => {
                // The receiver side of a fresh rendezvous channel is alive;
                // a failed acknowledgment only means the waiter is gone.
                let _ = send_ack(&ack);
                CheckerStep::Stopped
            },
        }
    }
}

/// How a syncing answer is reported: a node that is still syncing is
/// unhealthy, a synced one is fine.
pub fn classify_syncing(syncing: bool) -> (r: Severity)
    ensures
        r == if syncing {
            Severity::Error
        } else {
            Severity::Info
        },
{
    if syncing {
        Severity::Error
    } else {
        Severity::Info
    }
}

} // verus!
