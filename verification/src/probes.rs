//! Service probes and maintenance mode: readiness answers follow the maintenance
//! switch, which the maintenance endpoints turn on and off.

use vstd::prelude::*;

use crate::text::owned;

verus! {

/// Permission required to switch maintenance mode.
pub const MAINTENANCE_PERMISSION: &'static str = "maintenance";

/// Configuration for service probes and management mode API.
#[derive(Clone, Debug)]
pub struct ProbeConfig {
    /// URL path for readiness probe.
    pub readiness_path: String,
    /// URL path for liveness probe.
    pub liveness_path: String,
    /// URL path to enable maintenance mode.
    pub maintenance_on_path: String,
    /// URL path to disable maintenance mode.
    pub maintenance_off_path: String,
}

impl Default for ProbeConfig {
    fn default() -> (r: ProbeConfig)
        ensures
            r.readiness_path@ == "/probe/ready"@,
            r.liveness_path@ == "/probe/live"@,
            r.maintenance_on_path@ == "/maintenance/on"@,
            r.maintenance_off_path@ == "/maintenance/off"@,
    {
        ProbeConfig {
            readiness_path: owned("/probe/ready"),
            liveness_path: owned("/probe/live"),
            maintenance_on_path: owned("/maintenance/on"),
            maintenance_off_path: owned("/maintenance/off"),
        }
    }
}

/// The endpoints served by the probe router.
#[derive(Clone, Copy, Debug, PartialEq, Eq, Structural)]
pub enum ProbeAction {
    /// Readiness probe (GET).
    Readiness,
    /// Liveness probe (GET).
    Liveness,
    /// Enable maintenance mode (POST).
    MaintenanceOn,
    /// Disable maintenance mode (POST).
    MaintenanceOff,
}

impl ProbeAction {
    /// Whether the endpoint switches maintenance mode, and so needs the
    /// maintenance permission.
    pub fn needs_maintenance_permission(&self) -> (r: bool)
        ensures
            r == (*self == ProbeAction::MaintenanceOn || *self == ProbeAction::MaintenanceOff),
    {
        match self {
            ProbeAction::MaintenanceOn | ProbeAction::MaintenanceOff => true,
            _ => false,
        }
    }

    /// Permissions the endpoint requires.
    pub fn required_permissions(&self) -> (r: Vec<String>)
        ensures
            r@.len() == if *self == ProbeAction::MaintenanceOn || *self == ProbeAction::MaintenanceOff { 1int } else { 0int },
            r@.len() == 1 ==> r@[0]@ == MAINTENANCE_PERMISSION@,
    {
        let mut v: Vec<String> = Vec::new();
        if self.needs_maintenance_permission() {
            v.push(owned(MAINTENANCE_PERMISSION));
        }
        v
    }
}

/// The flags behind the probe endpoints.
#[derive(Clone, Copy, Debug, PartialEq, Eq, Structural)]
pub struct ProbeStateInner {
    /// Maintenance mode is on.
    pub in_maintenance: bool,
}

/// Shared state of the probe endpoints: whether the service is in maintenance mode.
#[derive(Clone, Copy, Debug, PartialEq, Eq, Structural)]
pub struct ProbeState {
    /// The flags.
    pub inner: ProbeStateInner,
}

/// What one endpoint call does: the maintenance flag afterwards, the status
/// code, and whether the flag changed.
pub open spec fn probe_step(in_maintenance: bool, action: ProbeAction) -> (bool, u16, bool) {
    match action {
        ProbeAction::Readiness => (in_maintenance, if in_maintenance { 503u16 } else { 200u16 }, false),
        ProbeAction::Liveness => (in_maintenance, 200u16, false),
        ProbeAction::MaintenanceOn => (true, 200u16, !in_maintenance),
        ProbeAction::MaintenanceOff => (false, 200u16, in_maintenance),
    }
}

impl Default for ProbeState {
    /// A service starts in maintenance mode.
    fn default() -> (r: ProbeState)
        ensures
            r.inner.in_maintenance,
    {
        ProbeState { inner: ProbeStateInner { in_maintenance: true } }
    }
}

impl ProbeState {
    /// Readiness probe: 503 while in maintenance mode, 200 otherwise.
    pub fn readiness(&self) -> (r: u16)
        ensures
            r == probe_step(self.inner.in_maintenance, ProbeAction::Readiness).1,
    {
        if self.inner.in_maintenance {
            503
        } else {
            200
        }
    }

    /// Liveness probe: always 200.
    pub fn liveness(&self) -> (r: u16)
        ensures
            r == 200,
    {
        200
    }

    /// Enable maintenance mode; tells whether it was off before.
    pub fn maintenance_on(&mut self) -> (r: bool)
        ensures
            final(self).inner.in_maintenance,
            r == !old(self).inner.in_maintenance,
    {
        let was = self.inner.in_maintenance;
        self.inner.in_maintenance = true;
        !was
    }

    /// Disable maintenance mode; tells whether it was on before.
    pub fn maintenance_off(&mut self) -> (r: bool)
        ensures
            !final(self).inner.in_maintenance,
            r == old(self).inner.in_maintenance,
    {
        let was = self.inner.in_maintenance;
        self.inner.in_maintenance = false;
        was
    }

    /// Serves one endpoint call: the status code and whether the maintenance flag changed.
    pub fn handle(&mut self, action: ProbeAction) -> (r: (u16, bool))
        ensures
            (final(self).inner.in_maintenance, r.0, r.1) == probe_step(old(self).inner.in_maintenance, action),
    {
        match action {
            ProbeAction::Readiness => (self.readiness(), false),
            ProbeAction::Liveness => (self.liveness(), false),
            ProbeAction::MaintenanceOn => {
                let changed = self.maintenance_on();
                (200, changed)
            },
            ProbeAction::MaintenanceOff => {
                let changed = self.maintenance_off();
                (200, changed)
            },
        }
    }
}

/// The readiness probe reports what the last maintenance switch set: ready after
/// maintenance is turned off, unavailable after it is turned on or before any
/// switch; probes never change the state; switching twice is the same as once.
pub proof fn law_readiness_follows_maintenance(s: bool, a: ProbeAction, b: ProbeAction)
    ensures
        probe_step(probe_step(s, ProbeAction::MaintenanceOff).0, ProbeAction::Readiness).1 == 200,
        probe_step(probe_step(s, ProbeAction::MaintenanceOn).0, ProbeAction::Readiness).1 == 503,
        probe_step(true, ProbeAction::Readiness).1 == 503,
        (a == ProbeAction::Readiness || a == ProbeAction::Liveness) ==> probe_step(s, a).0 == s,
        probe_step(s, ProbeAction::Liveness).1 == 200,
        (a == ProbeAction::MaintenanceOn || a == ProbeAction::MaintenanceOff) ==> probe_step(probe_step(s, a).0, a) == (
        probe_step(s, a).0, 200u16, false),
{
}

} // verus!
