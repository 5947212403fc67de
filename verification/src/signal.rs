use std::sync::atomic::{AtomicBool, Ordering};
use vstd::prelude::*;

verus! {

/// Error produced by a cancellation checkpoint once the shared termination
/// flag has been observed set. The orchestrator surfaces it as a distinct
/// "cancelled" outcome, never as a generic failure.
#[derive(Debug)]
pub struct SignalReceived;

impl SignalReceived {
    /// Diagnostic text for this error, offered in place of a `Display` impl.
    pub fn message(&self) -> (m: &'static str)
        ensures
            m@ == "received termination signal"@,
    {
        "received termination signal"
    }
}

/// The outcome a cancellation checkpoint must produce for a given value of
/// the shared flag: the run goes on exactly when the flag was not set.
pub open spec fn signal_outcome(loaded: bool) -> Result<(), SignalReceived> {
    if loaded {
        Err(SignalReceived)
    } else {
        Ok(())
    }
}

/// Decide a checkpoint from a value already read off the shared flag.
pub fn check_signal_value(loaded: bool) -> (r: Result<(), SignalReceived>)
    ensures
        r == signal_outcome(loaded),
        r is Err <==> loaded,
{
    if loaded {
        Err(SignalReceived)
    } else {
        Ok(())
    }
}

/// Read the shared termination flag once and turn what was read into a
/// checkpoint outcome. The flag is set at most once, by an external signal
/// source; a single relaxed atomic load suffices, so no contract can relate
/// the outcome to any earlier or later read. `check_signal_value` carries
/// the checkpoint decision itself.
pub fn check_signal(terminate: &AtomicBool) -> (r: Result<(), SignalReceived>)
{
    check_signal_value(terminate.load(Ordering::Relaxed))
}

} // verus!
