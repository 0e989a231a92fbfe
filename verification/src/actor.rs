//! The shape every checker actor shares: a receive loop over a tagged
//! command stream, `Check(payload)` while running, `Terminate` to stop, and
//! no transition out of stopped.
//!
//! Each checker has its own command enum of this shape; `CheckerCommand` is
//! the common model, and the lemma below pins the loop protocol down: a
//! loop processes exactly the `Check` payloads that precede the first
//! `Terminate`, so a command enqueued after termination is never processed.

use vstd::prelude::*;

verus! {

/// How a check's finding is reported.
#[derive(Clone, Copy, Debug, PartialEq, Eq, Structural)]
pub enum Severity {
    /// Healthy.
    Info,
    /// Suspicious but below a threshold, or a result was absent.
    Warning,
    /// Unhealthy, or the call itself failed.
    Error,
}

/// What a checker does after one command.
#[derive(Clone, Copy, Debug, PartialEq, Eq, Structural)]
pub enum CheckerStep {
    /// Keep receiving.
    Continue,
    /// The receive loop is over; the actor never restarts.
    Stopped,
}

/// The command stream every checker consumes: payloads to check, or the
/// order to stop, carrying the channel on which to acknowledge.
pub enum CheckerCommand<P> {
    Check(P),
    Terminate(std::sync::mpsc::SyncSender<()>),
}

/// The payloads a receive loop handles, given the whole command stream: it
/// takes commands in order and stops for good at the first `Terminate`.
pub open spec fn processed_payloads<P>(cmds: Seq<CheckerCommand<P>>) -> Seq<P>
    decreases cmds.len(),
{
    if cmds.len() == 0 {
        Seq::empty()
    } else {
        match cmds[0] {
            CheckerCommand::Check(p) => seq![p] + processed_payloads(cmds.skip(1)),
            CheckerCommand::Terminate(_) => Seq::empty(),
        }
    }
}

/// The payloads of every `Check` command of a stream, in order.
pub open spec fn check_payloads<P>(cmds: Seq<CheckerCommand<P>>) -> Seq<P>
    decreases cmds.len(),
{
    if cmds.len() == 0 {
        Seq::empty()
    } else {
        match cmds[0] {
            CheckerCommand::Check(p) => seq![p] + check_payloads(cmds.skip(1)),
            CheckerCommand::Terminate(_) => check_payloads(cmds.skip(1)),
        }
    }
}

/// Commands are delivered first-in, first-out, so a checker never processes
/// a `Check` enqueued after its `Terminate` was enqueued: the loop handles
/// exactly the `Check` payloads that stand before the first `Terminate` of
/// its stream, and nothing from the rest.
pub proof fn lemma_loop_processes_prefix_only<P>(cmds: Seq<CheckerCommand<P>>, t: int)
    requires
        0 <= t < cmds.len(),
        cmds[t] is Terminate,
        forall|j: int| 0 <= j < t ==> !(#[trigger] cmds[j] is Terminate),
    ensures
        processed_payloads(cmds) == check_payloads(cmds.take(t)),
    decreases t,
{
    if t == 0 {
        assert(check_payloads(cmds.take(0)) =~= Seq::<P>::empty());
    } else {
        let rest = cmds.skip(1);
        assert(rest[t - 1] is Terminate);
        assert(forall|j: int| 0 <= j < t - 1 ==> !(#[trigger] rest[j] is Terminate));
        lemma_loop_processes_prefix_only(rest, t - 1);
        assert(cmds.take(t).skip(1) =~= rest.take(t - 1));
        assert(!(cmds[0] is Terminate));
        match cmds[0] {
            CheckerCommand::Check(p) => {
                assert(cmds.take(t)[0] == cmds[0]);
                assert(check_payloads(cmds.take(t)) == seq![p] + check_payloads(rest.take(t - 1)));
            },
            CheckerCommand::Terminate(_) => {},
        }
    }
}

} // verus!
