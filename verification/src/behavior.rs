//! Customizable application behaviors.

use vstd::prelude::*;

verus! {

/// The standard behavior: no extra layers, probes always answer 200.
#[derive(Clone, Copy, Debug)]
pub struct StandardAppBehavior;

impl StandardAppBehavior {
    /// Status of the readiness probe.
    pub fn readiness_status(&self) -> (r: u16)
        ensures
            r == 200,
    {
        200
    }

    /// Status of the liveness probe.
    pub fn liveness_status(&self) -> (r: u16)
        ensures
            r == 200,
    {
        200
    }
}

} // verus!
