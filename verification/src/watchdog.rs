//! The watchdog on platforms that have none: starting it always reports
//! that it is unavailable.

use vstd::prelude::*;

verus! {

/// Why the watchdog could not run.
#[derive(Debug, Clone, Copy, PartialEq, Eq, Structural)]
pub enum WatchdogError {
    /// No watchdog facility exists on this platform.
    WatchdogNotAvailable,
}

impl WatchdogError {
    /// A short description of the failure.
    pub fn message(&self) -> (r: &'static str)
        ensures
            r@ == "The watchdog is not available on this platform"@,
    {
        "The watchdog is not available on this platform"
    }
}

/// Start the watchdog; on this platform there is none, so this always
/// reports it unavailable.
pub fn start_watchdog() -> (r: Result<(), WatchdogError>)
    ensures
        r == Result::<(), WatchdogError>::Err(WatchdogError::WatchdogNotAvailable),
{
    Err(WatchdogError::WatchdogNotAvailable)
}

} // verus!
