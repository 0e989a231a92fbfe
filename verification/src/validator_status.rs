//! The validator-status checker: each tick it queries the monitored
//! validator and reports whether it is jailed or out of the bonded set.

use crate::actor::{CheckerStep, Severity};
use crate::channel::{send_ack, Receiver};
use vstd::prelude::*;

verus! {

/// The bonded lifecycle state, the one value healthy for uptime.
pub const BOND_STATUS_BONDED: i32 = 3;

/// What the chain reports of a validator: whether it is jailed, and its
/// lifecycle status code.
#[derive(Clone, Copy, Debug, PartialEq, Eq, Structural)]
pub struct ValidatorInfo {
    pub jailed: bool,
    pub status: i32,
}

/// A validator is healthy exactly when it is not jailed and bonded.
pub open spec fn validator_healthy(v: ValidatorInfo) -> bool {
    !v.jailed && v.status == BOND_STATUS_BONDED
}

/// The command stream of a validator-status checker.
pub enum ValidatorStatusMessage {
    Check,
    Terminate(std::sync::mpsc::SyncSender<()>),
}

/// An independent long-running check, one per endpoint.
pub struct ValidatorStatusChecker {
    pub validator_address: String,
    pub teritorid_endpoint: String,
    pub receiver: Receiver<ValidatorStatusMessage>,
}

impl ValidatorStatusChecker {
    pub fn new(
        validator_address: String,
        teritorid_endpoint: String,
        receiver: Receiver<ValidatorStatusMessage>,
    ) -> (r: Self)
        ensures
            r.validator_address == validator_address,
            r.teritorid_endpoint == teritorid_endpoint,
    {
        Self { validator_address, teritorid_endpoint, receiver }
    }

    /// Handle one command of the receive loop: go perform the query, or
    /// stop, acknowledging first.
    pub fn handle(&self, message: ValidatorStatusMessage) -> (r: CheckerStep)
        ensures
            message is Check ==> r == CheckerStep::Continue,
            message is Terminate ==> r == CheckerStep::Stopped,
    {
        match message {
            ValidatorStatusMessage::Check => CheckerStep::Continue,
            ValidatorStatusMessage::Terminate(ack) => {
                // The receiver side of a fresh rendezvous channel is alive;
                // a failed acknowledgment only means the waiter is gone.
                let _ = send_ack(&ack);
                CheckerStep::Stopped
            },
        }
    }
}

/// How a validator query's answer is reported: an absent validator is
/// suspicious, a jailed or unbonded one unhealthy, anything else fine.
pub fn classify_validator(validator: &Option<ValidatorInfo>) -> (r: Severity)
    ensures
        r == match validator {
            Option::None => Severity::Warning,
            Option::Some(v) => if validator_healthy(*v) {
                Severity::Info
            } else {
                Severity::Error
            },
        },
{
    match validator {
        None => Severity::Warning,
        Some(v) => {
            let mut has_error = false;
            if v.jailed {
                has_error = true;
            }
            if v.status != BOND_STATUS_BONDED {
                has_error = true;
            }
            if has_error {
                Severity::Error
            } else {
                Severity::Info
            }
        },
    }
}

} // verus!
