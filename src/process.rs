use vstd::prelude::*;

verus! {

/// How a signalling or reaping system call on a process ended.
#[derive(Clone, Copy, Debug, PartialEq, Eq, Structural)]
pub enum CallOutcome {
    /// The call succeeded.
    Succeeded,
    /// No process has the given id.
    NoSuchProcess,
    /// Any other failure.
    Failed,
}

/// Why terminating a process did not complete.
#[derive(Clone, Copy, Debug, PartialEq, Eq, Structural)]
pub enum KillError {
    /// The process was gone before the terminate signal was sent.
    NoSuchProcess,
    /// Signalling or reaping failed in a way that breaks the server's
    /// bookkeeping.
    Fatal,
}

/// What follows the terminate signal.
#[derive(Clone, Copy, Debug, PartialEq, Eq, Structural)]
pub enum KillStep {
    /// Wait for the process to exit and reap it.
    Reap,
    /// Termination ends here, with this error.
    Abandon(KillError),
}

/// The step after sending the terminate signal ended with `signal`.
pub open spec fn spec_after_signal(signal: CallOutcome) -> KillStep {
    match signal {
        CallOutcome::Succeeded => KillStep::Reap,
        CallOutcome::NoSuchProcess => KillStep::Abandon(KillError::NoSuchProcess),
        _ => KillStep::Abandon(KillError::Fatal),
    }
}

/// The result of termination once reaping ended with `reap`.
pub open spec fn spec_after_reap(reap: CallOutcome) -> Result<(), KillError> {
    match reap {
        CallOutcome::Succeeded => Ok(()),
        _ => Err(KillError::Fatal),
    }
}

/// Decides what follows the terminate signal: a delivered signal is followed
/// by reaping; a process that no longer exists ends termination at once with
/// `NoSuchProcess`; any other failure is fatal.
pub fn after_terminate_signal(signal: CallOutcome) -> (r: KillStep)
    ensures
        r == spec_after_signal(signal),
{
    match signal {
        CallOutcome::Succeeded => KillStep::Reap,
        CallOutcome::NoSuchProcess => KillStep::Abandon(KillError::NoSuchProcess),
        _ => KillStep::Abandon(KillError::Fatal),
    }
}

/// Decides the result of termination from how reaping ended: the process
/// must be reaped now; any failure to reap it is fatal.
pub fn after_reap(reap: CallOutcome) -> (r: Result<(), KillError>)
    ensures
        r == spec_after_reap(reap),
{
    match reap {
        CallOutcome::Succeeded => Ok(()),
        _ => Err(KillError::Fatal),
    }
}

/// Terminating a process that has already exited never waits on it: if it
/// is gone, termination ends at once with `NoSuchProcess`; if it is still
/// there unreaped, the signal reaches it and reaping it succeeds.
pub proof fn lemma_kill_exited_process(signal: CallOutcome, reap: CallOutcome)
    requires
        signal == CallOutcome::Succeeded || signal == CallOutcome::NoSuchProcess,
        reap == CallOutcome::Succeeded,
    ensures
        signal == CallOutcome::NoSuchProcess ==> spec_after_signal(signal) == KillStep::Abandon(
            KillError::NoSuchProcess,
        ),
        signal == CallOutcome::Succeeded ==> spec_after_signal(signal) == KillStep::Reap
            && spec_after_reap(reap) == Ok::<(), KillError>(()),
{
}

} // verus!
