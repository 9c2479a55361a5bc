//! The coarse health rollup shown for a device.

use vstd::prelude::*;

verus! {

/// The overall condition of a device.
#[derive(Debug, Clone, Copy, PartialEq, Eq, Structural)]
pub enum Health {
    Healthy,
    Degraded,
    Poor,
}

/// Which parts of the device are up.
#[derive(Debug, Clone, Copy, PartialEq, Eq, Structural)]
pub struct Status {
    pub iotedged: bool,
    pub edge_agent: bool,
    pub edge_hub: bool,
    pub other_modules: bool,
}

/// A rollup together with the status it was computed from.
#[derive(Debug, Clone, Copy, PartialEq, Eq, Structural)]
pub struct HealthStatus {
    pub health: Health,
    pub status: Status,
}

/// The rollup rule: all three core parts must be up for anything better than
/// `Poor`; the flag for the other modules then decides between the two rest.
pub open spec fn rollup(s: Status) -> Health {
    if s.iotedged && s.edge_agent && s.edge_hub {
        if s.other_modules {
            Health::Healthy
        } else {
            Health::Degraded
        }
    } else {
        Health::Poor
    }
}

impl HealthStatus {
    pub fn new(health: Health, status: Status) -> (r: Self)
        ensures
            r.health == health,
            r.status == status,
    {
        HealthStatus { health, status }
    }
}

impl Status {
    /// A status with every part down.
    pub fn new() -> (r: Self)
        ensures
            !r.iotedged,
            !r.edge_agent,
            !r.edge_hub,
            !r.other_modules,
    {
        Status { iotedged: false, edge_agent: false, edge_hub: false, other_modules: false }
    }

    pub fn set_iotedged(&mut self)
        ensures
            *final(self) == (Status { iotedged: true, ..*old(self) }),
    {
        self.iotedged = true;
    }

    pub fn set_edge_agent(&mut self, val: bool)
        ensures
            *final(self) == (Status { edge_agent: val, ..*old(self) }),
    {
        self.edge_agent = val;
    }

    pub fn set_edge_hub(&mut self, val: bool)
        ensures
            *final(self) == (Status { edge_hub: val, ..*old(self) }),
    {
        self.edge_hub = val;
    }

    pub fn set_other_modules(&mut self, val: bool)
        ensures
            *final(self) == (Status { other_modules: val, ..*old(self) }),
    {
        self.other_modules = val;
    }

    pub fn return_health(&self) -> (r: Health)
        ensures
            r == rollup(*self),
    {
        if self.iotedged && self.edge_agent && self.edge_hub {
            if self.other_modules {
                Health::Healthy
            } else {
                Health::Degraded
            }
        } else {
            Health::Poor
        }
    }
}

} // verus!
