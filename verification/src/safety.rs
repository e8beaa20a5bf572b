//! Status vocabulary of the safety layer.

use vstd::prelude::*;

verus! {

/// Condition of the cooling system's filter.
#[derive(Debug, Clone, Copy)]
pub enum FilterStatus {
    Clean,
    Dirty,
    Replaced,
    Missing,
}

/// Readiness of the emergency subsystems.
#[derive(Debug, Clone, Copy)]
pub struct EmergencySystemStatus {
    pub emergency_stop_functional: bool,
    pub fire_suppression_ready: bool,
    pub radiation_monitoring_active: bool,
    pub evacuation_signals_ready: bool,
}

impl EmergencySystemStatus {
    /// Whether every emergency subsystem is ready.
    pub fn all_ready(&self) -> (r: bool)
        ensures
            r == (self.emergency_stop_functional && self.fire_suppression_ready
                && self.radiation_monitoring_active && self.evacuation_signals_ready),
    {
        self.emergency_stop_functional && self.fire_suppression_ready
            && self.radiation_monitoring_active && self.evacuation_signals_ready
    }
}

} // verus!
