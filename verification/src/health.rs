//! The health signal: one boolean that says whether the configuration source
//! is currently thought healthy.
//!
//! The supervisor only ever lowers the signal, on a failure that it answers
//! with a retry. Raising it again after sustained success is the business of
//! whoever owns the watch functions; `restore` is there for them.

use vstd::prelude::*;

verus! {

/// The supervisor's view of the shared liveness flag.
#[derive(Clone, Copy, Debug, PartialEq, Eq, Structural)]
pub struct HealthSignal {
    /// Whether the source counts as healthy.
    pub healthy: bool,
}

impl HealthSignal {
    /// The signal at process start: healthy.
    pub fn new() -> (h: HealthSignal)
        ensures
            h.healthy,
    {
        HealthSignal { healthy: true }
    }

    /// Reads the signal.
    pub fn is_healthy(&self) -> (b: bool)
        ensures
            b == self.healthy,
    {
        self.healthy
    }

    /// Lowers the signal.
    pub fn mark_unhealthy(&mut self)
        ensures
            !final(self).healthy,
    {
        self.healthy = false;
    }

    /// Raises the signal again.
    pub fn restore(&mut self)
        ensures
            final(self).healthy,
    {
        self.healthy = true;
    }
}

impl Default for HealthSignal {
    fn default() -> (h: HealthSignal)
        ensures
            h.healthy,
    {
        HealthSignal { healthy: true }
    }
}

} // verus!
