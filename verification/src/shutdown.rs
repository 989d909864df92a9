//! The shutdown coordinator: a two-state machine that resolves the wait
//! for termination exactly once, on whichever supported signal arrives
//! first.

use vstd::prelude::*;

verus! {

/// The two OS termination signals the supervisor listens for.
#[derive(Clone, Copy, Debug, PartialEq, Eq)]
pub enum TermSignal {
    Interrupt,
    Terminate,
}

#[derive(Clone, Copy, Debug, PartialEq, Eq)]
pub enum Phase {
    Running,
    ShuttingDown,
}

/// One step of the machine: the next phase, and the signal to report as
/// having triggered shutdown, if this step resolved the wait.
pub open spec fn step_spec(phase: Phase, sig: TermSignal) -> (Phase, Option<TermSignal>) {
    match phase {
        Phase::Running => (Phase::ShuttingDown, Some(sig)),
        Phase::ShuttingDown => (Phase::ShuttingDown, None),
    }
}

/// Tracks whether a termination signal has already resolved the wait.
pub struct ShutdownCoordinator {
    phase: Phase,
}

impl ShutdownCoordinator {
    pub closed spec fn spec_phase(self) -> Phase {
        self.phase
    }

    /// The coordinator starts running once all services are launched.
    pub fn new() -> (r: ShutdownCoordinator)
        ensures
            r.spec_phase() == Phase::Running,
    {
        ShutdownCoordinator { phase: Phase::Running }
    }

    /// Deliver a termination signal.  Returns the signal exactly when it
    /// is the first one, i.e. when it resolves the wait; a later signal
    /// has no further observable effect.
    pub fn on_signal(&mut self, sig: TermSignal) -> (r: Option<TermSignal>)
        ensures
            (final(self).spec_phase(), r) == step_spec(old(self).spec_phase(), sig),
            final(self).spec_phase() == Phase::ShuttingDown,
            r == (if old(self).spec_phase() == Phase::Running {
                Some(sig)
            } else {
                None::<TermSignal>
            }),
    {
        match self.phase {
            Phase::Running => {
                self.phase = Phase::ShuttingDown;
                Some(sig)
            },
            Phase::ShuttingDown => None,
        }
    }
}

/// Delivering either supported signal resolves the wait exactly once:
/// the first signal transitions the machine to shutting down and is
/// reported; whatever signal is delivered afterwards is not reported
/// and leaves the machine where it is.
pub proof fn lemma_shutdown_resolves_once(first: TermSignal, later: TermSignal)
    ensures
        step_spec(Phase::Running, first) == (Phase::ShuttingDown, Some(first)),
        step_spec(step_spec(Phase::Running, first).0, later) == (
            Phase::ShuttingDown,
            None::<TermSignal>,
        ),
{
}

} // verus!
