//! The order of the phases: each goes from pending to running to succeeded
//! or failed, one at a time and never back; the first failure halts the
//! rest.
use vstd::prelude::*;

use crate::phase::{Phase, PhaseOutcome};

verus! {

/// Where one phase stands.
#[derive(Clone, Copy, PartialEq, Eq, Structural, Debug)]
pub enum PhaseStatus {
    Pending,
    Running,
    Succeeded,
    Failed,
}

/// The number of phases.
pub const PHASE_COUNT: usize = 3;

/// The phase at position `i` of the run.
pub open spec fn phase_at(i: int) -> Phase {
    if i == 0 {
        Phase::Setup
    } else if i == 1 {
        Phase::Prepare
    } else {
        Phase::Run
    }
}

/// How far a status is along its one-way path.
pub open spec fn rank(s: PhaseStatus) -> int {
    match s {
        PhaseStatus::Pending => 0,
        PhaseStatus::Running => 1,
        _ => 2,
    }
}

/// The phases of one run and where each stands.
pub struct Pipeline {
    /// How many phases have succeeded; they are the first ones.
    done: usize,
    running: bool,
    failed: bool,
}

impl Pipeline {
    pub closed spec fn well_formed(&self) -> bool {
        &&& self.done <= PHASE_COUNT
        &&& !(self.running && self.failed)
        &&& (self.running || self.failed) ==> self.done < PHASE_COUNT
    }

    /// The status of the phase at position `i`.
    pub closed spec fn status(&self, i: int) -> PhaseStatus {
        if i < self.done {
            PhaseStatus::Succeeded
        } else if i == self.done && self.running {
            PhaseStatus::Running
        } else if i == self.done && self.failed {
            PhaseStatus::Failed
        } else {
            PhaseStatus::Pending
        }
    }

    /// Whether a phase has failed, which halts the run.
    pub closed spec fn halted(&self) -> bool {
        self.failed
    }

    /// No phase has started yet.
    pub fn new() -> (r: Pipeline)
        ensures
            r.well_formed(),
            !r.halted(),
            forall|i: int| 0 <= i < PHASE_COUNT ==> r.status(i) == PhaseStatus::Pending,
    {
        Pipeline { done: 0, running: false, failed: false }
    }

    /// Starts the next phase: the first pending one, when no phase is
    /// running and none has failed.
    pub fn start(&mut self) -> (r: Option<Phase>)
        requires
            old(self).well_formed(),
        ensures
            final(self).well_formed(),
            final(self).halted() == old(self).halted(),
            old(self).halted() ==> r is None,
            match r {
                Some(p) => exists|k: int|
                    0 <= k < PHASE_COUNT && p == phase_at(k) && old(self).status(k)
                        == PhaseStatus::Pending && final(self).status(k) == PhaseStatus::Running
                        && (forall|i: int| 0 <= i < k ==> old(self).status(i) == PhaseStatus::Succeeded)
                        && (forall|i: int| i != k ==> final(self).status(i) == old(self).status(i)),
                None => (old(self).halted() || (exists|i: int|
                    0 <= i < PHASE_COUNT && old(self).status(i) == PhaseStatus::Running) || (forall|
                    i: int,
                | 0 <= i < PHASE_COUNT ==> old(self).status(i) == PhaseStatus::Succeeded))
                    && forall|i: int| final(self).status(i) == old(self).status(i),
            },
    {
        if self.running || self.failed || self.done >= PHASE_COUNT {
            proof {
                if self.running {
                    assert(old(self).status(self.done as int) == PhaseStatus::Running);
                }
            }
            return None;
        }
        self.running = true;
        let phase = if self.done == 0 {
            Phase::Setup
        } else if self.done == 1 {
            Phase::Prepare
        } else {
            Phase::Run
        };
        proof {
            let k = self.done as int;
            assert(old(self).status(k) == PhaseStatus::Pending);
            assert(phase == phase_at(k));
        }
        Some(phase)
    }

    /// Ends the running phase with `outcome`; nothing changes when no phase
    /// is running.
    pub fn finish(&mut self, outcome: &PhaseOutcome)
        requires
            old(self).well_formed(),
        ensures
            final(self).well_formed(),
            forall|i: int| rank(old(self).status(i)) <= rank(final(self).status(i)),
            forall|i: int|
                old(self).status(i) != PhaseStatus::Running ==> final(self).status(i) == old(
                    self,
                ).status(i),
            forall|i: int|
                old(self).status(i) == PhaseStatus::Running ==> final(self).status(i) == if outcome
                    is Succeeded {
                    PhaseStatus::Succeeded
                } else {
                    PhaseStatus::Failed
                },
            final(self).halted() == (old(self).halted() || (old(self).running_spec()
                && !(outcome is Succeeded))),
    {
        if !self.running {
            return;
        }
        self.running = false;
        if outcome.is_success() {
            self.done = self.done + 1;
        } else {
            self.failed = true;
        }
    }

    pub closed spec fn running_spec(&self) -> bool {
        self.running
    }

    /// Whether a phase has failed.
    pub fn is_halted(&self) -> (r: bool)
        ensures
            r == self.halted(),
    {
        self.failed
    }
}

} // verus!
