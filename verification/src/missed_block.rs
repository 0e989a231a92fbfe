//! The missed-block checker: a sliding-window detector over the blocks the
//! manager dispatches, in height order.
//!
//! For each block it decides whether the monitored validator signed, prunes
//! the window of retained missed heights down to the trailing
//! `denominator` blocks, appends the height on a miss, and alerts when the
//! window holds at least `numerator` misses.

use crate::account;
use crate::channel::{send_ack, Receiver};
use crate::message::{BlockMessage, CommitData, SignatureData};
use crate::threshold::MissedBlockThreshold;
use vstd::prelude::*;

verus! {

/// The command stream of a missed-block checker.
pub enum MissedBlockMessage {
    Check(BlockMessage),
    Terminate(std::sync::mpsc::SyncSender<()>),
}

impl From<BlockMessage> for MissedBlockMessage {
    fn from(inner: BlockMessage) -> (r: Self) {
        MissedBlockMessage::Check(inner)
    }
}

impl vstd::std_specs::convert::FromSpecImpl<BlockMessage> for MissedBlockMessage {
    open spec fn obeys_from_spec() -> bool {
        true
    }

    open spec fn from_spec(inner: BlockMessage) -> Self {
        MissedBlockMessage::Check(inner)
    }
}

/// What handling one command found.
#[derive(Clone, Copy, Debug, PartialEq, Eq, Structural)]
pub enum MissedBlockVerdict {
    /// The message carried no block or no last-commit: nothing to read.
    Skipped,
    /// The validator signed this block.
    Signed,
    /// The validator missed this block, but the window is under the
    /// threshold.
    MissedUnderThreshold,
    /// The validator missed this block and the window reached the
    /// threshold: alert.
    MissedAlert,
    /// A termination command was handled; the receive loop is over.
    Stopped,
}

/// The lowest height the window retains after a block at `height`: the
/// trailing `denominator` blocks.
pub open spec fn window_lowest(height: i64, denominator: u64) -> int {
    height - denominator + 1
}

/// A window with everything below `lowest` pruned away.
pub open spec fn pruned_window(w: Seq<i64>, lowest: int) -> Seq<i64> {
    w.filter(|h: i64| h >= lowest)
}

/// The window after one block: pruned, then extended by the height if the
/// validator missed it.
pub open spec fn step_window(w: Seq<i64>, height: i64, signed: bool, denominator: u64) -> Seq<
    i64,
> {
    let p = pruned_window(w, window_lowest(height, denominator));
    if signed {
        p
    } else {
        p.push(height)
    }
}

/// Whether the block's verdict is an alert: a miss with the stepped window
/// at or above the trigger count.
pub open spec fn step_alert(w_after: Seq<i64>, signed: bool, numerator: u64) -> bool {
    !signed && w_after.len() >= numerator
}

/// The alert sequence a detector yields over a run of blocks, one entry
/// per block in order, starting from the window `w`: each block steps the
/// window as `step_window` says and alerts as `step_alert` says — what a
/// `MissedBlockChecker` reports block by block through `process_block`.
pub open spec fn detector_alerts(
    numerator: u64,
    denominator: u64,
    w: Seq<i64>,
    blocks: Seq<(i64, bool)>,
) -> Seq<bool>
    decreases blocks.len(),
{
    if blocks.len() == 0 {
        Seq::empty()
    } else {
        let stepped = step_window(w, blocks[0].0, blocks[0].1, denominator);
        seq![step_alert(stepped, blocks[0].1, numerator)] + detector_alerts(
            numerator,
            denominator,
            stepped,
            blocks.skip(1),
        )
    }
}

proof fn lemma_filter_none<A>(s: Seq<A>, pred: spec_fn(A) -> bool)
    requires
        forall|i: int| 0 <= i < s.len() ==> !pred(#[trigger] s[i]),
    ensures
        s.filter(pred) =~= Seq::<A>::empty(),
    decreases s.len(),
{
    reveal_with_fuel(Seq::filter, 2);
    if s.len() > 0 {
        assert(!pred(s.last()));
        lemma_filter_none(s.drop_last(), pred);
    }
}

/// Under the default threshold — one miss within the trailing one block —
/// every missed block alerts at its own height and no signed block ever
/// alerts, so a later signed block cannot retroactively clear an earlier
/// alert: over any run of blocks with ascending heights, all above the
/// retained window, the alert sequence is exactly the negation of the
/// signed sequence.
pub proof fn lemma_unit_threshold_alerts(w: Seq<i64>, blocks: Seq<(i64, bool)>)
    requires
        forall|i: int, j: int| 0 <= i < j < blocks.len() ==> blocks[i].0 < blocks[j].0,
        forall|k: int, i: int|
            0 <= k < w.len() && 0 <= i < blocks.len() ==> w[k] < blocks[i].0,
    ensures
        detector_alerts(1, 1, w, blocks) =~= Seq::new(blocks.len(), |i: int| !blocks[i].1),
    decreases blocks.len(),
{
    if blocks.len() > 0 {
        let h = blocks[0].0;
        let signed = blocks[0].1;
        let lowest = window_lowest(h, 1);
        assert(lowest == h as int);
        lemma_filter_none(w, |x: i64| x >= lowest);
        let stepped = step_window(w, h, signed, 1);
        assert(stepped =~= if signed {
            Seq::<i64>::empty()
        } else {
            Seq::<i64>::empty().push(h)
        });
        assert(step_alert(stepped, signed, 1) == !signed);
        let rest = blocks.skip(1);
        assert(forall|i: int, j: int| 0 <= i < j < rest.len() ==> rest[i].0 < rest[j].0);
        assert(forall|k: int, i: int|
            0 <= k < stepped.len() && 0 <= i < rest.len() ==> stepped[k] < rest[i].0);
        lemma_unit_threshold_alerts(stepped, rest);
        assert forall|i: int| 0 <= i < blocks.len() implies detector_alerts(1, 1, w, blocks)[i]
            == !blocks[i].1 by {
            if i > 0 {
                assert(detector_alerts(1, 1, stepped, rest)[i - 1] == !rest[i - 1].1);
            }
        }
    }
}

/// Whether any commit signature carries exactly these validator address
/// bytes.
pub open spec fn commit_signed_by(signatures: Seq<SignatureData>, validator: Seq<u8>) -> bool {
    exists|i: int| 0 <= i < signatures.len() && signatures[i].validator_address@ == validator
}

proof fn lemma_pruned_window_bounds(w: Seq<i64>, lowest: int)
    ensures
        forall|j: int|
            0 <= j < pruned_window(w, lowest).len() ==> #[trigger] pruned_window(w, lowest)[j]
                >= lowest,
{
    assert forall|j: int|
        0 <= j < pruned_window(w, lowest).len() implies #[trigger] pruned_window(w, lowest)[j]
        >= lowest by {
        w.lemma_filter_pred(|h: i64| h >= lowest, j);
    }
}

/// Whether two byte strings hold the same bytes.
fn bytes_equal(a: &[u8], b: &[u8]) -> (r: bool)
    ensures
        r == (a@ == b@),
{
    let n = a.len();
    if n != b.len() {
        return false;
    }
    let mut i: usize = 0;
    while i < n
        invariant
            n == a@.len(),
            n == b@.len(),
            i <= n,
            forall|j: int| 0 <= j < i ==> a@[j] == b@[j],
        decreases n - i,
    {
        if a[i] != b[i] {
            return false;
        }
        i = i + 1;
    }
    proof {
        assert(a@ =~= b@);
    }
    true
}

/// An independent long-running check, one per endpoint, fed one
/// `BlockMessage` per height in ascending order.
pub struct MissedBlockChecker {
    pub validator_account: account::Id,
    pub missed_block_threshold: MissedBlockThreshold,
    pub receiver: Receiver<MissedBlockMessage>,
    /// The heights the validator missed, ascending, within the trailing
    /// window.
    pub missed_block_heights: Vec<i64>,
}

impl MissedBlockChecker {
    pub fn new(
        validator_account: account::Id,
        missed_block_threshold: MissedBlockThreshold,
        receiver: Receiver<MissedBlockMessage>,
    ) -> (r: Self)
        ensures
            r.validator_account == validator_account,
            r.missed_block_threshold == missed_block_threshold,
            r.missed_block_heights@ == Seq::<i64>::empty(),
    {
        Self {
            validator_account,
            missed_block_threshold,
            receiver,
            missed_block_heights: Vec::new(),
        }
    }

    /// Step the window for one block the validator did or did not sign.
    /// Returns whether this block alerts. The window keeps only the
    /// trailing `denominator` blocks and grows by a missed height; a signed
    /// block never grows it.
    pub fn process_block(&mut self, height: i64, signed: bool) -> (alert: bool)
        requires
            old(self).missed_block_threshold.denominator <= i64::MAX,
            i64::MIN <= window_lowest(height, old(self).missed_block_threshold.denominator),
            window_lowest(height, old(self).missed_block_threshold.denominator) <= i64::MAX,
        ensures
            final(self).missed_block_heights@ == step_window(
                old(self).missed_block_heights@,
                height,
                signed,
                old(self).missed_block_threshold.denominator,
            ),
            alert == step_alert(
                final(self).missed_block_heights@,
                signed,
                old(self).missed_block_threshold.numerator,
            ),
            // Pruning is monotonic: nothing below the trailing window stays.
            // (A window of zero blocks still holds the height just missed.)
            old(self).missed_block_threshold.denominator >= 1 ==> forall|j: int|
                0 <= j < final(self).missed_block_heights@.len()
                    ==> final(self).missed_block_heights@[j] >= window_lowest(
                    height,
                    old(self).missed_block_threshold.denominator,
                ),
            final(self).validator_account == old(self).validator_account,
            final(self).missed_block_threshold == old(self).missed_block_threshold,
    {
        let denominator = self.missed_block_threshold.denominator;
        let lowest: i64 = if denominator == 0 {
            height + 1
        } else {
            height - ((denominator - 1) as i64)
        };
        let ghost w = self.missed_block_heights@;
        let ghost pred = |h: i64| h >= window_lowest(height, denominator);
        let mut kept: Vec<i64> = Vec::new();
        let n = self.missed_block_heights.len();
        let mut i: usize = 0;
        while i < n
            invariant
                n == w.len(),
                i <= n,
                w == self.missed_block_heights@,
                lowest == window_lowest(height, denominator),
                pred == (|h: i64| h >= window_lowest(height, denominator)),
                kept@ == w.take(i as int).filter(pred),
            decreases n - i,
        {
            let h = self.missed_block_heights[i];
            proof {
                assert(w.take(i + 1).drop_last() =~= w.take(i as int));
                assert(w.take(i + 1).last() == w[i as int]);
                reveal_with_fuel(Seq::filter, 2);
            }
            if h >= lowest {
                kept.push(h);
            }
            i = i + 1;
        }
        proof {
            assert(w.take(n as int) =~= w);
            lemma_pruned_window_bounds(w, window_lowest(height, denominator));
        }
        if signed {
            self.missed_block_heights = kept;
            false
        } else {
            kept.push(height);
            let alert = kept.len() as u64 >= self.missed_block_threshold.numerator;
            self.missed_block_heights = kept;
            alert
        }
    }

    /// Whether one of the commit's signatures carries the monitored
    /// validator's address bytes.
    pub fn commit_has_signature(&self, commit: &CommitData) -> (r: bool)
        ensures
            r == commit_signed_by(commit.signatures@, self.validator_account@),
    {
        let validator_address_bytes = self.validator_account.as_bytes();
        let n = commit.signatures.len();
        let mut i: usize = 0;
        while i < n
            invariant
                n == commit.signatures@.len(),
                i <= n,
                forall|j: int|
                    0 <= j < i
                        ==> #[trigger] commit.signatures@[j].validator_address@
                        != self.validator_account@,
                validator_address_bytes@ == self.validator_account@,
            decreases n - i,
        {
            if bytes_equal(commit.signatures[i].validator_address.as_slice(), validator_address_bytes) {
                return true;
            }
            i = i + 1;
        }
        false
    }

    /// Handle one command of the receive loop: read a dispatched block, or
    /// stop, acknowledging first.
    ///
    /// A block message without a block or without a last-commit is skipped.
    /// Otherwise the validator signed the block exactly when one commit
    /// signature carries its address bytes, and the window steps as
    /// `process_block` says.
    pub fn handle(&mut self, message: MissedBlockMessage) -> (verdict: MissedBlockVerdict)
        requires
            old(self).missed_block_threshold.denominator <= i64::MAX,
            match message {
                MissedBlockMessage::Check(b) => match b.block {
                    Some(bd) => bd.last_commit is Some ==> i64::MIN <= window_lowest(
                        bd.height,
                        old(self).missed_block_threshold.denominator,
                    ) <= i64::MAX,
                    None => true,
                },
                MissedBlockMessage::Terminate(_) => true,
            },
        ensures
            final(self).validator_account == old(self).validator_account,
            final(self).missed_block_threshold == old(self).missed_block_threshold,
            match message {
                MissedBlockMessage::Terminate(_) => verdict == MissedBlockVerdict::Stopped
                    && final(self).missed_block_heights@ == old(self).missed_block_heights@,
                MissedBlockMessage::Check(b) => match b.block {
                    None => verdict == MissedBlockVerdict::Skipped
                        && final(self).missed_block_heights@ == old(self).missed_block_heights@,
                    Some(bd) => match bd.last_commit {
                        None => verdict == MissedBlockVerdict::Skipped
                            && final(self).missed_block_heights@ == old(
                            self,
                        ).missed_block_heights@,
                        Some(c) => {
                            let signed = commit_signed_by(
                                c.signatures@,
                                old(self).validator_account@,
                            );
                            let stepped = step_window(
                                old(self).missed_block_heights@,
                                bd.height,
                                signed,
                                old(self).missed_block_threshold.denominator,
                            );
                            &&& final(self).missed_block_heights@ == stepped
                            &&& verdict == (if signed {
                                MissedBlockVerdict::Signed
                            } else if step_alert(
                                stepped,
                                signed,
                                old(self).missed_block_threshold.numerator,
                            ) {
                                MissedBlockVerdict::MissedAlert
                            } else {
                                MissedBlockVerdict::MissedUnderThreshold
                            })
                        },
                    },
                },
            },
    {
        match message {
            MissedBlockMessage::Check(message) => {
                match message.block {
                    Some(block) => {
                        match block.last_commit {
                            Some(commit) => {
                                let signed = self.commit_has_signature(&commit);
                                let alert = self.process_block(block.height, signed);
                                if signed {
                                    MissedBlockVerdict::Signed
                                } else if alert {
                                    MissedBlockVerdict::MissedAlert
                                } else {
                                    MissedBlockVerdict::MissedUnderThreshold
                                }
                            },
                            None => MissedBlockVerdict::Skipped,
                        }
                    },
                    None => MissedBlockVerdict::Skipped,
                }
            },
            MissedBlockMessage::Terminate(ack) => {
                // The receiver side of a fresh rendezvous channel is alive;
                // a failed acknowledgment only means the waiter is gone.
                let _ = send_ack(&ack);
                MissedBlockVerdict::Stopped
            },
        }
    }
}

} // verus!
