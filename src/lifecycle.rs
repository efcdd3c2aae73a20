use vstd::prelude::*;

verus! {

/// The phases of one pipeline instance, in the only order they are taken.
#[derive(Clone, Copy, Debug, PartialEq, Eq, Structural)]
pub enum PipelinePhase {
    /// Packets are being read and routed.
    Running,
    /// Reading has stopped and the inbound queues are closed; workers flush.
    Draining,
    /// Every worker has terminated; the aggregation channel closes.
    Joined,
    /// The presentation loop has ended.
    Stopped,
}

/// The position of a phase in the lifecycle.
pub open spec fn rank(p: PipelinePhase) -> nat {
    match p {
        PipelinePhase::Running => 0,
        PipelinePhase::Draining => 1,
        PipelinePhase::Joined => 2,
        PipelinePhase::Stopped => 3,
    }
}

/// The phase that follows `p`; `Stopped` is final.
pub open spec fn successor(p: PipelinePhase) -> PipelinePhase {
    match p {
        PipelinePhase::Running => PipelinePhase::Draining,
        PipelinePhase::Draining => PipelinePhase::Joined,
        _ => PipelinePhase::Stopped,
    }
}

/// The phase reached from `p` after `n` transitions.
pub open spec fn after_steps(p: PipelinePhase, n: nat) -> PipelinePhase
    decreases n,
{
    if n == 0 {
        p
    } else {
        after_steps(successor(p), (n - 1) as nat)
    }
}

impl PipelinePhase {
    /// The next phase of the lifecycle.
    pub fn advance(self) -> (r: PipelinePhase)
        ensures
            r == successor(self),
            self != PipelinePhase::Stopped ==> rank(r) == rank(self) + 1,
            self == PipelinePhase::Stopped ==> r == self,
    {
        match self {
            PipelinePhase::Running => PipelinePhase::Draining,
            PipelinePhase::Draining => PipelinePhase::Joined,
            _ => PipelinePhase::Stopped,
        }
    }
}

/// Whatever phase a pipeline is in, it is `Stopped` after as many transitions
/// as phases remain (three from `Running`), and it passes through every phase
/// in between: no transition skips `Draining`.
pub proof fn lemma_lifecycle_terminates(p: PipelinePhase, n: nat)
    requires
        n >= 3 - rank(p),
    ensures
        after_steps(p, n) == PipelinePhase::Stopped,
        p == PipelinePhase::Running ==> after_steps(p, 1) == PipelinePhase::Draining,
        forall|k: nat| k <= 3 - rank(p) ==> rank(#[trigger] after_steps(p, k)) == rank(p) + k,
    decreases n,
{
    reveal_with_fuel(after_steps, 2);
    if n > 0 {
        lemma_lifecycle_terminates(successor(p), (n - 1) as nat);
    }
    assert forall|k: nat| k <= 3 - rank(p) implies rank(#[trigger] after_steps(p, k)) == rank(p)
        + k by {
        lemma_rank_steps(p, k);
    }
}

proof fn lemma_rank_steps(p: PipelinePhase, k: nat)
    requires
        k <= 3 - rank(p),
    ensures
        rank(after_steps(p, k)) == rank(p) + k,
    decreases k,
{
    if k > 0 {
        lemma_rank_steps(successor(p), (k - 1) as nat);
    }
}

} // verus!
