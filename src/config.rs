use vstd::prelude::*;

use crate::errors::ShutdownError;

verus! {

/// The lifecycle of a shutdown: `Running`, then `ShuttingDown`, then `Completed`.
#[derive(Debug, Clone, Copy, PartialEq, Eq, Structural)]
pub enum ShutdownState {
    Running,
    ShuttingDown,
    Completed,
}

impl ShutdownState {
    /// Position of the phase in the lifecycle order.
    pub open spec fn rank(self) -> nat {
        match self {
            ShutdownState::Running => 0,
            ShutdownState::ShuttingDown => 1,
            ShutdownState::Completed => 2,
        }
    }

    /// `next` is this phase or a later one.
    pub open spec fn precedes(self, next: ShutdownState) -> bool {
        self.rank() <= next.rank()
    }

    /// The edges of the lifecycle: staying put, or moving on to the next phase.
    pub open spec fn may_become(self, next: ShutdownState) -> bool {
        next == self || next.rank() == self.rank() + 1
    }

    /// Position of the phase in the lifecycle order.
    pub fn ordinal(&self) -> (r: u8)
        ensures
            r as nat == self.rank(),
    {
        match self {
            ShutdownState::Running => 0,
            ShutdownState::ShuttingDown => 1,
            ShutdownState::Completed => 2,
        }
    }
}

/// The shutdown flag and the shutdown phase of the process.
///
/// The flag is set once a shutdown has been requested; from then on the
/// phase is past `Running`. The phase only ever moves forward.
#[derive(Debug)]
pub struct SystemConfig {
    shutdown_signal: bool,
    shutdown_state: ShutdownState,
}

impl SystemConfig {
    /// The flag implies that the phase has left `Running`.
    pub closed spec fn wf(&self) -> bool {
        self.shutdown_signal ==> self.shutdown_state != ShutdownState::Running
    }

    pub closed spec fn phase(&self) -> ShutdownState {
        self.shutdown_state
    }

    pub closed spec fn signaled(&self) -> bool {
        self.shutdown_signal
    }

    /// The phase that a shutdown request leads to.
    pub open spec fn requested_phase(&self) -> ShutdownState {
        if self.phase() == ShutdownState::Running {
            ShutdownState::ShuttingDown
        } else {
            self.phase()
        }
    }

    pub fn new() -> (r: Self)
        ensures
            r.wf(),
            r.phase() == ShutdownState::Running,
            !r.signaled(),
    {
        SystemConfig { shutdown_signal: false, shutdown_state: ShutdownState::Running }
    }

    /// The current phase.
    pub fn shutdown_state(&self) -> (r: ShutdownState)
        ensures
            r == self.phase(),
    {
        self.shutdown_state
    }

    /// Whether a shutdown has been requested.
    pub fn is_shutdown_requested(&self) -> (r: bool)
        ensures
            r == self.signaled(),
    {
        self.shutdown_signal
    }

    /// Sets the flag and moves the phase to `ShuttingDown`; a phase that is
    /// already past `ShuttingDown` stays where it is.
    pub fn request_shutdown(&mut self) -> (r: Result<(), ShutdownError>)
        requires
            old(self).wf(),
        ensures
            final(self).wf(),
            r is Ok,
            final(self).signaled(),
            final(self).phase() == old(self).requested_phase(),
            old(self).phase().precedes(final(self).phase()),
    {
        self.shutdown_signal = true;
        if self.shutdown_state == ShutdownState::Running {
            self.shutdown_state = ShutdownState::ShuttingDown;
        }
        Ok(())
    }

    /// Moves the phase to `state`. Only the edges of the lifecycle are legal
    /// (staying put, `Running` to `ShuttingDown`, `ShuttingDown` to
    /// `Completed`); any other request is refused with the current phase and
    /// changes nothing.
    pub fn set_shutdown_state(&mut self, state: ShutdownState) -> (r: Result<(), ShutdownState>)
        requires
            old(self).wf(),
        ensures
            final(self).wf(),
            final(self).signaled() == old(self).signaled(),
            old(self).phase().may_become(state) ==> r is Ok && final(self).phase() == state,
            !old(self).phase().may_become(state) ==> r == Err::<(), ShutdownState>(old(self).phase())
                && final(self).phase() == old(self).phase(),
            old(self).phase().precedes(final(self).phase()),
    {
        let current = self.shutdown_state.ordinal();
        let next = state.ordinal();
        if next == current || next == current + 1 {
            self.shutdown_state = state;
            Ok(())
        } else {
            Err(self.shutdown_state)
        }
    }
}

/// Reads of the phase taken over time never go backwards: if each read
/// is at or before the next one, the first is at or before every later one.
pub proof fn lemma_phase_never_regresses(reads: Seq<ShutdownState>, i: int, j: int)
    requires
        forall|k: int| 0 <= k < reads.len() - 1 ==> #[trigger] reads[k].precedes(reads[k + 1]),
        0 <= i <= j < reads.len(),
    ensures
        reads[i].precedes(reads[j]),
    decreases j - i,
{
    if i < j {
        lemma_phase_never_regresses(reads, i + 1, j);
        assert(reads[i].precedes(reads[i + 1]));
    }
}

} // verus!
