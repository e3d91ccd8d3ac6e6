//! The guard that tells a clean shutdown of the server from a fault.
//!
//! The guard is made at the top of the server thread's body and marked only
//! immediately before the body returns. Whoever releases the guard, on the
//! normal path or while a fault unwinds the thread, reports what it says.

use vstd::prelude::*;

verus! {

/// Watches over one run of the server thread.
pub struct ServerWatcher {
    /// Whether the thread has reached its normal end.
    pub natural: bool,
}

impl ServerWatcher {
    /// A guard for a thread that has not reached its normal end yet.
    pub fn new() -> (r: ServerWatcher)
        ensures
            !r.natural,
    {
        ServerWatcher { natural: false }
    }

    /// Records that the thread is about to return normally.
    pub fn mark_natural(&mut self)
        ensures
            final(self).natural,
    {
        self.natural = true;
    }

    /// The report for the release of the guard: a clean shutdown if the
    /// thread was marked as ending normally, a fault if not.
    pub fn report(&self) -> (r: &'static str)
        ensures
            self.natural ==> r@ == "Server closed without panicking"@,
            !self.natural ==> r@ == "Server panicked!"@,
    {
        if self.natural {
            "Server closed without panicking"
        } else {
            "Server panicked!"
        }
    }
}

} // verus!
