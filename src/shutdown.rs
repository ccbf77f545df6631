use vstd::prelude::*;

use crate::config::{ShutdownState, SystemConfig};
use crate::errors::{PlatformFailure, ShutdownError};

verus! {

/// How long resource reclamation may take, in milliseconds.
pub const CLEANUP_DEADLINE_MS: u64 = 5000;

/// Relies on nix::sys::signal::kill: delivers SIGTERM to `pid`, and on a
/// refusal hands back the errno that nix reports.
#[verifier::external_body]
fn send_sigterm(pid: i32) -> Result<(), i32>
    requires
        pid > 0,
{
    match nix::sys::signal::kill(nix::unistd::Pid::from_raw(pid), nix::sys::signal::Signal::SIGTERM) {
        Ok(()) => Ok(()),
        Err(e) => Err(e as i32),
    }
}

/// Settles a termination attempt: on success the shutdown is requested,
/// on failure the error is reported and nothing changes.
pub fn complete_termination(config: &mut SystemConfig, outcome: Result<(), PlatformFailure>) -> (r: Result<(), ShutdownError>)
    requires
        old(config).wf(),
    ensures
        final(config).wf(),
        outcome is Ok ==> r is Ok && final(config).signaled() && final(config).phase() == old(config).requested_phase(),
        outcome matches Err(f) ==> r == Err::<(), ShutdownError>(ShutdownError::PlatformError(f))
            && *final(config) == *old(config),
        old(config).phase().precedes(final(config).phase()),
{
    match outcome {
        Ok(()) => config.request_shutdown(),
        Err(f) => Err(ShutdownError::PlatformError(f)),
    }
}

/// Asks process `pid` to stop with SIGTERM. When the signal is delivered the
/// shutdown is requested; when it is refused a `PlatformError` comes back
/// and the phase is left as it was.
pub fn handle_shutdown(config: &mut SystemConfig, pid: i32) -> (r: Result<(), ShutdownError>)
    requires
        old(config).wf(),
        pid > 0,
    ensures
        final(config).wf(),
        r is Ok ==> final(config).signaled() && final(config).phase() == old(config).requested_phase(),
        r is Err ==> *final(config) == *old(config),
        r matches Err(e) ==> e matches ShutdownError::PlatformError(PlatformFailure::SignalFailed(_)),
        old(config).phase().precedes(final(config).phase()),
{
    let delivered = send_sigterm(pid);
    let outcome = match delivered {
        Ok(()) => Ok(()),
        Err(errno) => Err(PlatformFailure::SignalFailed(errno)),
    };
    complete_termination(config, outcome)
}

/// Verdict of a handle based termination, from whether the process handle
/// was opened, whether termination was accepted, and whether the handle was
/// closed again. A failed close is reported even after a successful
/// termination.
pub fn windows_termination_outcome(opened: bool, terminated: bool, closed: bool) -> (r: Result<(), PlatformFailure>)
    ensures
        !opened ==> r == Err::<(), PlatformFailure>(PlatformFailure::OpenHandleFailed),
        opened && !terminated ==> r == Err::<(), PlatformFailure>(PlatformFailure::TerminateFailed),
        opened && terminated && !closed ==> r == Err::<(), PlatformFailure>(PlatformFailure::CloseHandleFailed),
        opened && terminated && closed ==> r is Ok,
{
    if !opened {
        Err(PlatformFailure::OpenHandleFailed)
    } else if !terminated {
        Err(PlatformFailure::TerminateFailed)
    } else if !closed {
        Err(PlatformFailure::CloseHandleFailed)
    } else {
        Ok(())
    }
}

/// One best-effort step of resource reclamation.
#[derive(Debug, Clone, Copy, PartialEq, Eq, Structural)]
pub enum CleanupStep {
    /// Run the embedded interpreter's garbage collector.
    CollectGarbage,
    /// Delete the browser cache directory if it exists.
    RemoveCache,
}

/// The steps of reclamation, in the order they run.
pub open spec fn cleanup_steps() -> Seq<CleanupStep> {
    seq![CleanupStep::CollectGarbage, CleanupStep::RemoveCache]
}

/// Progress of a reclamation: a fixed sequence of best-effort steps bounded
/// by one deadline. Failed steps are counted, not propagated; running past
/// the deadline fails the whole reclamation.
#[derive(Debug)]
pub struct Reclamation {
    deadline_ms: u64,
    elapsed_ms: u64,
    done: usize,
    failures: usize,
    expired: bool,
}

impl Reclamation {
    pub closed spec fn deadline(&self) -> nat {
        self.deadline_ms as nat
    }

    /// Time spent so far (saturating at `u64::MAX`).
    pub closed spec fn elapsed(&self) -> nat {
        self.elapsed_ms as nat
    }

    /// Number of steps that have run.
    pub closed spec fn completed(&self) -> nat {
        self.done as nat
    }

    /// Number of steps that ran and failed.
    pub closed spec fn failures(&self) -> nat {
        self.failures as nat
    }

    /// The deadline timer has fired.
    pub closed spec fn expired(&self) -> bool {
        self.expired
    }

    pub closed spec fn wf(&self) -> bool {
        &&& self.done <= cleanup_steps().len()
        &&& self.failures <= self.done
    }

    /// The deadline has passed, by the timer or by the time the steps took.
    pub open spec fn timed_out(&self) -> bool {
        self.expired() || self.elapsed() > self.deadline()
    }

    /// Whether a further step is to run.
    pub open spec fn pending(&self) -> bool {
        !self.timed_out() && self.completed() < cleanup_steps().len()
    }

    /// What the reclamation has come to: `None` while steps remain within the
    /// deadline, a timeout once the deadline has passed, otherwise success
    /// with the number of failed steps.
    pub open spec fn spec_outcome(&self) -> Option<Result<nat, ShutdownError>> {
        if self.timed_out() {
            Some(Err(ShutdownError::Timeout))
        } else if self.completed() < cleanup_steps().len() {
            None
        } else {
            Some(Ok(self.failures()))
        }
    }

    pub fn new(deadline_ms: u64) -> (r: Self)
        ensures
            r.wf(),
            r.deadline() == deadline_ms,
            r.elapsed() == 0,
            r.completed() == 0,
            r.failures() == 0,
            !r.expired(),
    {
        Reclamation { deadline_ms, elapsed_ms: 0, done: 0, failures: 0, expired: false }
    }

    /// The step to run next, if one is still to run.
    pub fn next_step(&self) -> (r: Option<CleanupStep>)
        requires
            self.wf(),
        ensures
            self.pending() ==> r == Some(cleanup_steps()[self.completed() as int]),
            !self.pending() ==> r is None,
    {
        if self.expired || self.elapsed_ms > self.deadline_ms || self.done >= 2 {
            None
        } else if self.done == 0 {
            Some(CleanupStep::CollectGarbage)
        } else {
            Some(CleanupStep::RemoveCache)
        }
    }

    /// Records that the pending step ran for `elapsed_ms` and whether it
    /// succeeded. Ignored when no step is pending.
    pub fn record_step(&mut self, succeeded: bool, elapsed_ms: u64)
        requires
            old(self).wf(),
        ensures
            final(self).wf(),
            final(self).deadline() == old(self).deadline(),
            final(self).expired() == old(self).expired(),
            old(self).pending() ==> {
                &&& final(self).completed() == old(self).completed() + 1
                &&& final(self).failures() == old(self).failures() + if succeeded { 0nat } else { 1nat }
                &&& final(self).elapsed() == if old(self).elapsed() + elapsed_ms > u64::MAX {
                    u64::MAX as int
                } else {
                    old(self).elapsed() + elapsed_ms
                }
            },
            !old(self).pending() ==> *final(self) == *old(self),
    {
        if self.expired || self.elapsed_ms > self.deadline_ms || self.done >= 2 {
            return;
        }
        self.done = self.done + 1;
        if !succeeded {
            self.failures = self.failures + 1;
        }
        self.elapsed_ms = self.elapsed_ms.saturating_add(elapsed_ms);
    }

    /// Records that the deadline timer fired before the steps finished.
    pub fn expire(&mut self)
        requires
            old(self).wf(),
        ensures
            final(self).wf(),
            final(self).expired(),
            final(self).deadline() == old(self).deadline(),
            final(self).elapsed() == old(self).elapsed(),
            final(self).completed() == old(self).completed(),
            final(self).failures() == old(self).failures(),
    {
        self.expired = true;
    }

    /// What the reclamation has come to; see `spec_outcome`.
    pub fn outcome(&self) -> (r: Option<Result<usize, ShutdownError>>)
        requires
            self.wf(),
        ensures
            match r {
                None => self.spec_outcome() is None,
                Some(Ok(n)) => self.spec_outcome() == Some(Ok::<nat, ShutdownError>(n as nat)),
                Some(Err(e)) => self.spec_outcome() == Some(Err::<nat, ShutdownError>(e)),
            },
    {
        if self.expired || self.elapsed_ms > self.deadline_ms {
            Some(Err(ShutdownError::Timeout))
        } else if self.done < 2 {
            None
        } else {
            Some(Ok(self.failures))
        }
    }
}

/// Once the deadline has passed, a reclamation reports `Timeout` whatever
/// its steps did, and goes on doing so after any further record.
pub proof fn lemma_timeout_is_final(before: Reclamation, after: Reclamation)
    requires
        before.timed_out(),
        before.deadline() == after.deadline(),
        before.expired() ==> after.expired(),
        after.elapsed() >= before.elapsed(),
    ensures
        before.spec_outcome() == Some(Err::<nat, ShutdownError>(ShutdownError::Timeout)),
        after.spec_outcome() == Some(Err::<nat, ShutdownError>(ShutdownError::Timeout)),
{
}

/// Final step of a shutdown: after termination and reclamation, a successful
/// reclamation completes the shutdown; a failed one is reported and leaves
/// the phase as it was.
pub fn complete_shutdown(config: &mut SystemConfig, reclaimed: Result<usize, ShutdownError>) -> (r: Result<(), ShutdownError>)
    requires
        old(config).wf(),
        old(config).phase() != ShutdownState::Running,
    ensures
        final(config).wf(),
        reclaimed is Ok ==> r is Ok && final(config).phase() == ShutdownState::Completed
            && final(config).signaled() == old(config).signaled(),
        reclaimed matches Err(e) ==> r == Err::<(), ShutdownError>(e) && *final(config) == *old(config),
{
    match reclaimed {
        Ok(_) => {
            let moved = config.set_shutdown_state(ShutdownState::Completed);
            assert(moved is Ok);
            Ok(())
        },
        Err(e) => Err(e),
    }
}

/// Exit status of the process after a shutdown: 0 on success, 1 otherwise.
pub fn exit_code(result: &Result<(), ShutdownError>) -> (r: i32)
    ensures
        result is Ok ==> r == 0,
        result is Err ==> r == 1,
{
    match result {
        Ok(()) => 0,
        Err(_) => 1,
    }
}

} // verus!
