//! The parent's side of each fork: classifying how a child ended. The
//! binary performs the blocking wait itself and hands the observed event
//! here as plain values.

use vstd::prelude::*;

verus! {

/// What the wait on one specific child observed, as plain values: a normal
/// exit with its code, termination by a signal, or a failure of the wait
/// call itself (an errno).
#[derive(Clone, Copy, Debug, PartialEq, Eq, Structural)]
pub enum ChildEvent {
    Exited(i32),
    Signaled(i32),
    WaitFailed(i32),
}

/// The supervisor's verdict on one child. An abnormal termination and a
/// failed wait call share the class distinct from an ordinary non-zero exit.
#[derive(Clone, Copy, Debug, PartialEq, Eq, Structural)]
pub enum Outcome {
    /// The child exited zero: the scan was attempted.
    Success,
    /// The child exited non-zero; the code is kept for the log.
    ChildFailed(i32),
    /// The child ended abnormally or could not be waited for.
    WaitError,
}

/// Exit code zero is success; any other exit code is a child failure kept
/// with its code; everything else is the distinct wait-error class.
pub open spec fn spec_classify(e: ChildEvent) -> Outcome {
    match e {
        ChildEvent::Exited(code) => if code == 0 {
            Outcome::Success
        } else {
            Outcome::ChildFailed(code)
        },
        ChildEvent::Signaled(_) => Outcome::WaitError,
        ChildEvent::WaitFailed(_) => Outcome::WaitError,
    }
}

/// Classify one observed child event. The caller logs the outcome and goes
/// on to the next candidate whatever it was: no verdict here aborts the loop.
pub fn classify_exit(e: ChildEvent) -> (r: Outcome)
    ensures
        r == spec_classify(e),
{
    match e {
        ChildEvent::Exited(code) => if code == 0 {
            Outcome::Success
        } else {
            Outcome::ChildFailed(code)
        },
        ChildEvent::Signaled(_) => Outcome::WaitError,
        ChildEvent::WaitFailed(_) => Outcome::WaitError,
    }
}

} // verus!
