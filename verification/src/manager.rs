//! The per-endpoint check manager: it owns the checkers' senders, dispatches
//! work once per tick, backfills every height since the last tick so no
//! block is skipped, and drives the synchronous shutdown handshake.

use crate::account;
use crate::channel::{new_ack_channel, recv_ack, ChannelError, Sender};
use crate::is_syncing::{IsSyncingChecker, IsSyncingMessage};
use crate::message::BlockMessage;
use crate::missed_block::{MissedBlockChecker, MissedBlockMessage};
use crate::new_proposal::{NewProposalChecker, NewProposalMessage};
use crate::slashes::{SlashesChecker, SlashesMessage, SlashesMessageParams};
use crate::threshold::MissedBlockThreshold;
use crate::validator_status::{ValidatorStatusChecker, ValidatorStatusMessage};
use vstd::prelude::*;
use vstd::string::StringSliceAdditionalSpecFns;

verus! {

/// How many commands a checker's queue buffers before `try_send` fails.
pub const CHECKER_QUEUE_SIZE: usize = 1024;

/// The five checks, in the fixed order the manager sets them up and takes
/// them down.
#[derive(Clone, Copy, Debug, PartialEq, Eq, Structural)]
pub enum CheckerKind {
    IsSyncing,
    NewProposal,
    MissedBlock,
    ValidatorStatus,
    Slashes,
}

/// The checker actors one `setup` call builds, for the caller to run; each
/// holds the receiving half of its own queue.
pub struct CheckerSet {
    pub is_syncing: Option<IsSyncingChecker>,
    pub new_proposal: Option<NewProposalChecker>,
    pub missed_block: Option<MissedBlockChecker>,
    pub validator_status: Option<ValidatorStatusChecker>,
    pub slashes: Option<SlashesChecker>,
}

/// One endpoint's orchestrator: which checks run, their senders once set
/// up, and the last height already dispatched.
pub struct CheckManager {
    pub teritorid_endpoint: String,
    pub validator_account: Option<account::Id>,
    pub validator_address: Option<String>,
    pub check_if_syncing: bool,
    pub is_syncing_checker: Option<Sender<IsSyncingMessage>>,
    pub check_if_new_proposal: bool,
    pub new_proposal_checker: Option<Sender<NewProposalMessage>>,
    pub check_if_missed_block: bool,
    pub missed_block_threshold: Option<MissedBlockThreshold>,
    pub missed_block_checker: Option<Sender<MissedBlockMessage>>,
    pub check_if_validator_status: bool,
    pub validator_status_checker: Option<Sender<ValidatorStatusMessage>>,
    pub check_if_slashes: bool,
    pub slashes_checker: Option<Sender<SlashesMessage>>,
    pub latest_height: Option<i64>,
}

/// The manager's configuration and height state, everything but the opaque
/// sender handles: what dispatching may not change.
pub open spec fn manager_config(m: CheckManager) -> (Seq<char>, Option<account::Id>, Option<
    Seq<char>,
>, (bool, bool, bool, bool, bool), Option<MissedBlockThreshold>) {
    (
        m.teritorid_endpoint@,
        m.validator_account,
        match m.validator_address {
            Some(a) => Some(a@),
            None => None,
        },
        (
            m.check_if_syncing,
            m.check_if_new_proposal,
            m.check_if_missed_block,
            m.check_if_validator_status,
            m.check_if_slashes,
        ),
        m.missed_block_threshold,
    )
}

/// Which senders are present.
pub open spec fn manager_senders_present(m: CheckManager) -> (bool, bool, bool, bool, bool) {
    (
        m.is_syncing_checker is Some,
        m.new_proposal_checker is Some,
        m.missed_block_checker is Some,
        m.validator_status_checker is Some,
        m.slashes_checker is Some,
    )
}

/// The checkers a terminate call takes down, in its fixed order: each one
/// whose sender is present.
pub open spec fn termination_order(m: CheckManager) -> Seq<CheckerKind> {
    (if m.is_syncing_checker is Some {
        seq![CheckerKind::IsSyncing]
    } else {
        Seq::empty()
    }) + (if m.new_proposal_checker is Some {
        seq![CheckerKind::NewProposal]
    } else {
        Seq::empty()
    }) + (if m.missed_block_checker is Some {
        seq![CheckerKind::MissedBlock]
    } else {
        Seq::empty()
    }) + (if m.validator_status_checker is Some {
        seq![CheckerKind::ValidatorStatus]
    } else {
        Seq::empty()
    }) + (if m.slashes_checker is Some {
        seq![CheckerKind::Slashes]
    } else {
        Seq::empty()
    })
}

/// The first height a tick dispatches: one past the last checked height,
/// or, on the very first tick, the latest height itself (no catch-up).
pub open spec fn tick_from(last: Option<i64>, latest: i64) -> int {
    match last {
        Some(l) => l + 1,
        None => latest as int,
    }
}

/// The heights `from..=to`, ascending; empty when `from > to`.
pub open spec fn range_heights(from: int, to: int) -> Seq<int> {
    if from <= to {
        Seq::new((to - from + 1) as nat, |i: int| from + i)
    } else {
        Seq::empty()
    }
}

/// The heights one tick dispatches, given the height state before it and
/// the latest height the chain reports.
pub open spec fn tick_heights(last: Option<i64>, latest: i64) -> Seq<int> {
    range_heights(tick_from(last, latest), latest as int)
}

/// Height-range dispatch is gap-free and duplicate-free: when one tick
/// observes latest height `l1` and dispatches a non-empty range, and the
/// next observes `l2`, the two ticks together dispatch exactly the heights
/// from the first tick's start up to `l2`, each once, ascending.
pub proof fn lemma_tick_dispatch_gap_free(last: Option<i64>, l1: i64, l2: i64)
    requires
        tick_heights(last, l1).len() > 0,
        l1 <= l2,
    ensures
        tick_heights(last, l1) + tick_heights(Some(l1), l2) =~= range_heights(
            tick_from(last, l1),
            l2 as int,
        ),
        forall|i: int, j: int|
            0 <= i < j < (tick_heights(last, l1) + tick_heights(Some(l1), l2)).len() ==> (
            tick_heights(last, l1) + tick_heights(Some(l1), l2))[i] < (tick_heights(last, l1)
                + tick_heights(Some(l1), l2))[j],
{
}

impl Default for CheckManager {
    /// A manager with no endpoint or validator configured, only the
    /// syncing and new-proposal checks enabled, and no tick seen yet.
    fn default() -> (r: Self)
        ensures
            r.teritorid_endpoint@ == Seq::<char>::empty(),
            r.validator_account is None,
            r.validator_address is None,
            r.check_if_syncing == true,
            r.is_syncing_checker is None,
            r.check_if_new_proposal == true,
            r.new_proposal_checker is None,
            r.check_if_missed_block == false,
            r.missed_block_threshold is None,
            r.missed_block_checker is None,
            r.check_if_validator_status == false,
            r.validator_status_checker is None,
            r.check_if_slashes == false,
            r.slashes_checker is None,
            r.latest_height is None,
    {
        Self {
            teritorid_endpoint: String::new(),
            validator_account: None,
            validator_address: None,
            check_if_syncing: true,
            is_syncing_checker: None,
            check_if_new_proposal: true,
            new_proposal_checker: None,
            check_if_missed_block: false,
            missed_block_threshold: None,
            missed_block_checker: None,
            check_if_validator_status: false,
            validator_status_checker: None,
            check_if_slashes: false,
            slashes_checker: None,
            latest_height: None,
        }
    }
}

impl CheckManager {
    pub fn teritorid_endpoint(&mut self, teritorid_endpoint: &str)
        ensures
            final(self).teritorid_endpoint@ == teritorid_endpoint@,
            *final(self) == (CheckManager {
                teritorid_endpoint: final(self).teritorid_endpoint,
                ..*old(self)
            }),
    {
        self.teritorid_endpoint = teritorid_endpoint.to_owned();
    }

    /// Set the monitored validator's account from its hex rendering. The
    /// text must be a valid hex account identifier, as the configuration
    /// validation guarantees.
    pub fn validator_account(&mut self, validator_account: &str)
        requires
            account::decoded_hex_bytes(validator_account.spec_bytes()) matches Some(b)
                && b.len() == account::LENGTH,
        ensures
            final(self).validator_account matches Some(id) && id@
                == account::decoded_hex_bytes(validator_account.spec_bytes()).unwrap(),
            *final(self) == (CheckManager {
                validator_account: final(self).validator_account,
                ..*old(self)
            }),
    {
        match account::Id::from_str(validator_account) {
            Ok(id) => {
                self.validator_account = Some(id);
            },
            Err(_) => {
                proof {
                    assert(false);
                }
            },
        }
    }

    pub fn validator_address(&mut self, validator_address: &str)
        ensures
            final(self).validator_address matches Some(a) && a@ == validator_address@,
            *final(self) == (CheckManager {
                validator_address: final(self).validator_address,
                ..*old(self)
            }),
    {
        self.validator_address = Some(validator_address.to_owned());
    }

    pub fn check_if_syncing(&mut self, check_if_syncing: bool)
        ensures
            *final(self) == (CheckManager { check_if_syncing, ..*old(self) }),
    {
        self.check_if_syncing = check_if_syncing;
    }

    pub fn check_if_new_proposal(&mut self, check_if_new_proposal: bool)
        ensures
            *final(self) == (CheckManager { check_if_new_proposal, ..*old(self) }),
    {
        self.check_if_new_proposal = check_if_new_proposal;
    }

    pub fn check_if_missed_block(
        &mut self,
        check_if_missed_block: bool,
        missed_block_threshold: Option<MissedBlockThreshold>,
    )
        ensures
            *final(self) == (CheckManager {
                check_if_missed_block,
                missed_block_threshold,
                ..*old(self)
            }),
    {
        self.check_if_missed_block = check_if_missed_block;
        self.missed_block_threshold = missed_block_threshold;
    }

    pub fn check_if_validator_status(&mut self, check_if_validator_status: bool)
        ensures
            *final(self) == (CheckManager { check_if_validator_status, ..*old(self) }),
    {
        self.check_if_validator_status = check_if_validator_status;
    }

    pub fn check_if_slashes(&mut self, check_if_slashes: bool)
        ensures
            *final(self) == (CheckManager { check_if_slashes, ..*old(self) }),
    {
        self.check_if_slashes = check_if_slashes;
    }

    /// Build one checker actor and queue per enabled check, keep the
    /// senders, and hand the actors back for the caller to run.
    ///
    /// A missed-block check needs the validator account; a validator-status
    /// or slashes check needs the validator address.
    pub fn setup(&mut self) -> (r: CheckerSet)
        requires
            old(self).is_syncing_checker is None,
            old(self).new_proposal_checker is None,
            old(self).missed_block_checker is None,
            old(self).validator_status_checker is None,
            old(self).slashes_checker is None,
            old(self).check_if_missed_block ==> old(self).validator_account is Some,
            old(self).check_if_validator_status ==> old(self).validator_address is Some,
            old(self).check_if_slashes ==> old(self).validator_address is Some,
        ensures
            manager_config(*final(self)) == manager_config(*old(self)),
            final(self).latest_height == old(self).latest_height,
            final(self).is_syncing_checker is Some <==> old(self).check_if_syncing,
            final(self).new_proposal_checker is Some <==> old(self).check_if_new_proposal,
            final(self).missed_block_checker is Some <==> old(self).check_if_missed_block,
            final(self).validator_status_checker is Some <==> old(self).check_if_validator_status,
            final(self).slashes_checker is Some <==> old(self).check_if_slashes,
            r.is_syncing is Some <==> old(self).check_if_syncing,
            r.new_proposal is Some <==> old(self).check_if_new_proposal,
            r.missed_block is Some <==> old(self).check_if_missed_block,
            r.validator_status is Some <==> old(self).check_if_validator_status,
            r.slashes is Some <==> old(self).check_if_slashes,
            r.is_syncing matches Some(c) ==> c.teritorid_endpoint@ == old(
                self,
            ).teritorid_endpoint@,
            r.new_proposal matches Some(c) ==> c.teritorid_endpoint@ == old(
                self,
            ).teritorid_endpoint@,
            r.missed_block matches Some(c) ==> c.validator_account == old(
                self,
            ).validator_account.unwrap() && c.missed_block_threshold == (
            match old(self).missed_block_threshold {
                Some(t) => t,
                None => MissedBlockThreshold { numerator: 1, denominator: 1 },
            }) && c.missed_block_heights@ == Seq::<i64>::empty(),
            r.validator_status matches Some(c) ==> c.validator_address@ == old(
                self,
            ).validator_address.unwrap()@ && c.teritorid_endpoint@ == old(
                self,
            ).teritorid_endpoint@,
            r.slashes matches Some(c) ==> c.validator_address@ == old(
                self,
            ).validator_address.unwrap()@ && c.teritorid_endpoint@ == old(
                self,
            ).teritorid_endpoint@,
    {
        let mut checkers = CheckerSet {
            is_syncing: None,
            new_proposal: None,
            missed_block: None,
            validator_status: None,
            slashes: None,
        };
        if self.check_if_syncing {
            let (sender, receiver) = crate::channel::new(CHECKER_QUEUE_SIZE);
            checkers.is_syncing = Some(
                IsSyncingChecker::new(self.teritorid_endpoint.clone(), receiver),
            );
            self.is_syncing_checker = Some(sender);
        }
        if self.check_if_new_proposal {
            let (sender, receiver) = crate::channel::new(CHECKER_QUEUE_SIZE);
            checkers.new_proposal = Some(
                NewProposalChecker::new(self.teritorid_endpoint.clone(), receiver),
            );
            self.new_proposal_checker = Some(sender);
        }
        if self.check_if_missed_block {
            let (sender, receiver) = crate::channel::new(CHECKER_QUEUE_SIZE);
            let validator_account = match &self.validator_account {
                Some(account) => *account,
                None => {
                    proof {
                        assert(false);
                    }
                    return checkers;
                },
            };
            let threshold = match &self.missed_block_threshold {
                Some(t) => *t,
                None => MissedBlockThreshold::default(),
            };
            checkers.missed_block = Some(
                MissedBlockChecker::new(validator_account, threshold, receiver),
            );
            self.missed_block_checker = Some(sender);
        }
        if self.check_if_validator_status {
            let (sender, receiver) = crate::channel::new(CHECKER_QUEUE_SIZE);
            let validator_address = match &self.validator_address {
                Some(address) => address.clone(),
                None => {
                    proof {
                        assert(false);
                    }
                    return checkers;
                },
            };
            checkers.validator_status = Some(
                ValidatorStatusChecker::new(
                    validator_address,
                    self.teritorid_endpoint.clone(),
                    receiver,
                ),
            );
            self.validator_status_checker = Some(sender);
        }
        if self.check_if_slashes {
            let (sender, receiver) = crate::channel::new(CHECKER_QUEUE_SIZE);
            let validator_address = match &self.validator_address {
                Some(address) => address.clone(),
                None => {
                    proof {
                        assert(false);
                    }
                    return checkers;
                },
            };
            checkers.slashes = Some(
                SlashesChecker::new(validator_address, self.teritorid_endpoint.clone(), receiver),
            );
            self.slashes_checker = Some(sender);
        }
        checkers
    }

    /// Ask every running checker to stop, in the fixed order, and wait for
    /// each acknowledgment before moving to the next: when this returns
    /// `Ok`, every checker has drained its termination command.
    ///
    /// An error means a termination command could not be enqueued or a
    /// checker vanished without acknowledging; both break the shutdown
    /// invariant and the caller should treat them as fatal.
    #[verifier::rlimit(100)]
    pub fn terminate(&mut self) -> (r: Result<Vec<CheckerKind>, ChannelError>)
        ensures
            manager_config(*final(self)) == manager_config(*old(self)),
            final(self).latest_height == old(self).latest_height,
            manager_senders_present(*final(self)) == manager_senders_present(*old(self)),
            r matches Ok(ks) ==> ks@ == termination_order(*old(self)),
            // Only a handshake with a running checker can fail.
            termination_order(*old(self)).len() == 0 ==> r is Ok,
            r is Err ==> termination_order(*old(self)).len() > 0,
    {
        let mut terminated: Vec<CheckerKind> = Vec::new();
        match &mut self.is_syncing_checker {
            Some(sender) => {
                let (ack_sender, ack_receiver) = new_ack_channel();
                match sender.try_send(IsSyncingMessage::Terminate(ack_sender)) {
                    Ok(()) => {},
                    Err(e) => {
                        return Err(e);
                    },
                }
                if !recv_ack(&ack_receiver) {
                    return Err(ChannelError::Disconnected);
                }
                terminated.push(CheckerKind::IsSyncing);
            },
            None => {},
        }
        match &mut self.new_proposal_checker {
            Some(sender) => {
                let (ack_sender, ack_receiver) = new_ack_channel();
                match sender.try_send(NewProposalMessage::Terminate(ack_sender)) {
                    Ok(()) => {},
                    Err(e) => {
                        return Err(e);
                    },
                }
                if !recv_ack(&ack_receiver) {
                    return Err(ChannelError::Disconnected);
                }
                terminated.push(CheckerKind::NewProposal);
            },
            None => {},
        }
        match &mut self.missed_block_checker {
            Some(sender) => {
                let (ack_sender, ack_receiver) = new_ack_channel();
                match sender.try_send(MissedBlockMessage::Terminate(ack_sender)) {
                    Ok(()) => {},
                    Err(e) => {
                        return Err(e);
                    },
                }
                if !recv_ack(&ack_receiver) {
                    return Err(ChannelError::Disconnected);
                }
                terminated.push(CheckerKind::MissedBlock);
            },
            None => {},
        }
        match &mut self.validator_status_checker {
            Some(sender) => {
                let (ack_sender, ack_receiver) = new_ack_channel();
                match sender.try_send(ValidatorStatusMessage::Terminate(ack_sender)) {
                    Ok(()) => {},
                    Err(e) => {
                        return Err(e);
                    },
                }
                if !recv_ack(&ack_receiver) {
                    return Err(ChannelError::Disconnected);
                }
                terminated.push(CheckerKind::ValidatorStatus);
            },
            None => {},
        }
        match &mut self.slashes_checker {
            Some(sender) => {
                let (ack_sender, ack_receiver) = new_ack_channel();
                match sender.try_send(SlashesMessage::Terminate(ack_sender)) {
                    Ok(()) => {},
                    Err(e) => {
                        return Err(e);
                    },
                }
                if !recv_ack(&ack_receiver) {
                    return Err(ChannelError::Disconnected);
                }
                terminated.push(CheckerKind::Slashes);
            },
            None => {},
        }
        proof {
            assert(terminated@ =~= termination_order(*old(self)));
        }
        Ok(terminated)
    }

    /// Dispatch the per-tick unconditional checks: syncing and validator
    /// status, in that order. A failed enqueue fails the tick.
    pub fn dispatch_tick_checks(&mut self) -> (r: Result<(), ChannelError>)
        ensures
            manager_config(*final(self)) == manager_config(*old(self)),
            final(self).latest_height == old(self).latest_height,
            manager_senders_present(*final(self)) == manager_senders_present(*old(self)),
            // Only an enqueue to a running checker can fail.
            old(self).is_syncing_checker is None && old(self).validator_status_checker is None
                ==> r is Ok,
            r is Err ==> old(self).is_syncing_checker is Some
                || old(self).validator_status_checker is Some,
    {
        match &mut self.is_syncing_checker {
            Some(sender) => {
                match sender.try_send(IsSyncingMessage::Check) {
                    Ok(()) => {},
                    Err(e) => {
                        return Err(e);
                    },
                }
            },
            None => {},
        }
        match &mut self.validator_status_checker {
            Some(sender) => {
                match sender.try_send(ValidatorStatusMessage::Check) {
                    Ok(()) => {},
                    Err(e) => {
                        return Err(e);
                    },
                }
            },
            None => {},
        }
        Ok(())
    }

    /// The height range this tick must dispatch, given the latest height
    /// the chain reports: ascending, ending at the latest height, starting
    /// one past the last checked height — or only the latest height itself
    /// on the very first tick. `None` when there is nothing new.
    pub fn plan_tick(&self, latest_height: i64) -> (r: Option<(i64, i64)>)
        ensures
            r is Some <==> tick_heights(self.latest_height, latest_height).len() > 0,
            r matches Some(p) ==> p.0 as int == tick_from(self.latest_height, latest_height)
                && p.1 == latest_height && p.0 <= p.1,
    {
        match &self.latest_height {
            Some(last_checked_height) => {
                if *last_checked_height < latest_height {
                    Some((*last_checked_height + 1, latest_height))
                } else {
                    None
                }
            },
            None => Some((latest_height, latest_height)),
        }
    }

    /// Dispatch one height's block to the per-height checkers: new-proposal
    /// first, then missed-block. A failed enqueue fails the tick.
    pub fn dispatch_block(&mut self, block_message: BlockMessage) -> (r: Result<(), ChannelError>)
        ensures
            manager_config(*final(self)) == manager_config(*old(self)),
            final(self).latest_height == old(self).latest_height,
            manager_senders_present(*final(self)) == manager_senders_present(*old(self)),
            // Only an enqueue to a running checker can fail.
            old(self).new_proposal_checker is None && old(self).missed_block_checker is None
                ==> r is Ok,
            r is Err ==> old(self).new_proposal_checker is Some
                || old(self).missed_block_checker is Some,
    {
        match &mut self.new_proposal_checker {
            Some(sender) => {
                match sender.try_send(NewProposalMessage::Check(block_message.clone())) {
                    Ok(()) => {},
                    Err(e) => {
                        return Err(e);
                    },
                }
            },
            None => {},
        }
        match &mut self.missed_block_checker {
            Some(sender) => {
                match sender.try_send(MissedBlockMessage::Check(block_message)) {
                    Ok(()) => {},
                    Err(e) => {
                        return Err(e);
                    },
                }
            },
            None => {},
        }
        Ok(())
    }

    /// Close one tick whose range ran from `from_height` to
    /// `latest_height`: dispatch the one ranged slashes check, then record
    /// the latest height, so that the next tick starts right after it. On a
    /// failed enqueue the tick fails and the height is not recorded.
    pub fn finish_tick(&mut self, from_height: i64, latest_height: i64) -> (r: Result<
        (),
        ChannelError,
    >)
        requires
            0 <= from_height <= latest_height,
        ensures
            manager_config(*final(self)) == manager_config(*old(self)),
            manager_senders_present(*final(self)) == manager_senders_present(*old(self)),
            r is Ok ==> final(self).latest_height == Some(latest_height),
            r is Err ==> final(self).latest_height == old(self).latest_height,
            // Only the enqueue to a running slashes checker can fail.
            old(self).slashes_checker is None ==> r is Ok,
            r is Err ==> old(self).slashes_checker is Some,
    {
        match &mut self.slashes_checker {
            Some(sender) => {
                let params = SlashesMessageParams {
                    starting_height: from_height as u64,
                    ending_height: latest_height as u64,
                };
                match sender.try_send(SlashesMessage::Check(params)) {
                    Ok(()) => {},
                    Err(e) => {
                        return Err(e);
                    },
                }
            },
            None => {},
        }
        self.latest_height = Some(latest_height);
        Ok(())
    }
}

} // verus!
