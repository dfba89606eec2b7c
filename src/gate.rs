use vstd::prelude::*;

verus! {

/// The policy precondition in front of audio dispatch: audio may only be
/// emitted once the host has reported a user gesture. The gesture lock opens once
/// and never closes again for the rest of the session.
pub struct GestureGate {
    enabled: bool,
}

impl View for GestureGate {
    type V = bool;

    closed spec fn view(&self) -> bool {
        self.enabled
    }
}

impl GestureGate {
    /// A gate in its initial, locked state.
    pub fn new() -> (r: GestureGate)
        ensures
            !r@,
    {
        GestureGate { enabled: false }
    }

    /// Records that a gesture signal was observed; the gesture lock is open afterwards.
    pub fn open(&mut self)
        ensures
            final(self)@,
    {
        self.enabled = true;
    }

    /// Whether a gesture has been observed.
    pub fn is_open(&self) -> (r: bool)
        ensures
            r == self@,
    {
        self.enabled
    }
}

/// One step keeps an open gate open.
pub open spec fn stays_open(before: bool, after: bool) -> bool {
    before ==> after
}

/// Along any run of steps that each keep an open gate open, a gate seen open
/// at some point is open at every later point.
pub proof fn lemma_gate_monotone(run: Seq<bool>, i: int, j: int)
    requires
        forall|k: int| 0 <= k < run.len() - 1 ==> stays_open(#[trigger] run[k], run[k + 1]),
        0 <= i <= j < run.len(),
        run[i],
    ensures
        run[j],
    decreases j - i,
{
    if i < j {
        assert(stays_open(run[i], run[i + 1]));
        lemma_gate_monotone(run, i + 1, j);
    }
}

} // verus!
