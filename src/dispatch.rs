//! The accept loop's decisions: what happens to an accepted connection, and
//! when the loop stops accepting.
use vstd::prelude::*;
use crate::admission::{admits, is_admitted, Network, PeerAddr};

verus! {

/// What the dispatcher does with a connection it accepted.
#[derive(Clone, Copy, Debug, PartialEq, Eq, Structural)]
pub enum Dispatch {
    /// Close the connection at once: no IPC channel, no byte relayed.
    DropConnection,
    /// Open one IPC channel for it and hand both to a new relay task.
    OpenChannel,
}

/// The decision for a peer under an optional policy.
pub open spec fn decide(policy: Option<Network>, peer: PeerAddr) -> Dispatch {
    if admits(policy, peer) {
        Dispatch::OpenChannel
    } else {
        Dispatch::DropConnection
    }
}

/// A connection from `peer` was accepted: admit it or drop it.
pub fn on_accepted(peer: PeerAddr, policy: &Option<Network>) -> (r: Dispatch)
    requires
        policy matches Some(net) ==> net.wf(),
    ensures
        r == decide(*policy, peer),
{
    if is_admitted(peer, policy) {
        Dispatch::OpenChannel
    } else {
        Dispatch::DropConnection
    }
}

/// Admission correctness: under a configured range, a peer inside it gets an
/// IPC channel, and a peer outside it is dropped without one.
pub proof fn lemma_admission(net: Network, peer: PeerAddr)
    requires
        net.wf(),
    ensures
        net.holds(peer) ==> decide(Some(net), peer) == Dispatch::OpenChannel,
        !net.holds(peer) ==> decide(Some(net), peer) == Dispatch::DropConnection,
{
}

/// With no range configured, every peer is admitted.
pub proof fn lemma_no_policy(peer: PeerAddr)
    ensures
        decide(None, peer) == Dispatch::OpenChannel,
{
}

/// Which of the two raced futures completed first.
#[derive(Clone, Copy, Debug, PartialEq, Eq, Structural)]
pub enum RaceOutcome {
    /// One accept-and-handle step finished.
    Dispatched,
    /// The external interrupt fired.
    Interrupted,
}

/// What the outer loop does next.
#[derive(Clone, Copy, Debug, PartialEq, Eq, Structural)]
pub enum LoopAction {
    /// Race another dispatch step against the interrupt.
    RaceAgain,
    /// Leave the loop: accept no further connection.
    Exit,
}

/// The shutdown coordinator of the outer accept loop.
pub struct AcceptLoop {
    pub stopped: bool,
}

/// The action after one race, from whether the loop had stopped.
pub open spec fn loop_step(stopped: bool, outcome: RaceOutcome) -> (bool, LoopAction) {
    let now = stopped || outcome == RaceOutcome::Interrupted;
    (now, if now { LoopAction::Exit } else { LoopAction::RaceAgain })
}

/// The actions taken for a sequence of race outcomes.
pub open spec fn loop_actions(stopped: bool, outcomes: Seq<RaceOutcome>) -> Seq<LoopAction>
    decreases outcomes.len(),
{
    if outcomes.len() == 0 {
        Seq::empty()
    } else {
        let (now, a) = loop_step(stopped, outcomes[0]);
        seq![a] + loop_actions(now, outcomes.drop_first())
    }
}

impl AcceptLoop {
    /// A loop that still accepts.
    pub fn new() -> (r: AcceptLoop)
        ensures
            !r.stopped,
    {
        AcceptLoop { stopped: false }
    }

    /// One race completed with `outcome`.
    pub fn on_race(&mut self, outcome: RaceOutcome) -> (r: LoopAction)
        ensures
            (final(self).stopped, r) == loop_step(old(self).stopped, outcome),
            final(self).stopped == (old(self).stopped || outcome == RaceOutcome::Interrupted),
            r == LoopAction::Exit <==> final(self).stopped,
    {
        if let RaceOutcome::Interrupted = outcome {
            self.stopped = true;
        }
        if self.stopped {
            LoopAction::Exit
        } else {
            LoopAction::RaceAgain
        }
    }
}

proof fn lemma_stopped_stays(outcomes: Seq<RaceOutcome>, j: int)
    requires
        0 <= j < outcomes.len(),
    ensures
        loop_actions(true, outcomes)[j] == LoopAction::Exit,
    decreases outcomes.len(),
{
    lemma_actions_len(true, outcomes);
    lemma_actions_len(true, outcomes.drop_first());
    let rest = loop_actions(true, outcomes.drop_first());
    assert(loop_actions(true, outcomes) == seq![LoopAction::Exit] + rest);
    if j > 0 {
        lemma_stopped_stays(outcomes.drop_first(), j - 1);
        assert(loop_actions(true, outcomes)[j] == rest[j - 1]);
    }
}

/// Shutdown: once the interrupt has won a race, every later race leaves the
/// loop, so no further connection is accepted.
pub proof fn lemma_shutdown(stopped: bool, outcomes: Seq<RaceOutcome>, i: int, j: int)
    requires
        0 <= i <= j < outcomes.len(),
        outcomes[i] == RaceOutcome::Interrupted,
    ensures
        loop_actions(stopped, outcomes).len() == outcomes.len(),
        loop_actions(stopped, outcomes)[j] == LoopAction::Exit,
    decreases outcomes.len(),
{
    lemma_actions_len(stopped, outcomes);
    let (now, a) = loop_step(stopped, outcomes[0]);
    lemma_actions_len(now, outcomes.drop_first());
    let rest = loop_actions(now, outcomes.drop_first());
    assert(loop_actions(stopped, outcomes) == seq![a] + rest);
    if i > 0 {
        lemma_shutdown(now, outcomes.drop_first(), i - 1, j - 1);
        assert(loop_actions(stopped, outcomes)[j] == rest[j - 1]);
    } else if j > 0 {
        lemma_stopped_stays(outcomes.drop_first(), j - 1);
        assert(loop_actions(stopped, outcomes)[j] == rest[j - 1]);
    }
}

proof fn lemma_actions_len(stopped: bool, outcomes: Seq<RaceOutcome>)
    ensures
        loop_actions(stopped, outcomes).len() == outcomes.len(),
    decreases outcomes.len(),
{
    if outcomes.len() > 0 {
        let (now, a) = loop_step(stopped, outcomes[0]);
        lemma_actions_len(now, outcomes.drop_first());
    }
}

} // verus!
