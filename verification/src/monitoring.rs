//! Status vocabulary of the monitoring layer: severities, alert
//! categories and component statuses reported to consumers.

use vstd::prelude::*;

verus! {

/// Thermal condition of the system.
#[derive(Debug, Clone, Copy)]
pub enum TemperatureStatus {
    Normal,
    Warning,
    Critical,
    Emergency,
}

/// Condition of the power supply.
#[derive(Debug, Clone, Copy)]
pub enum PowerStatus {
    Normal,
    Warning,
    Critical,
    Backup,
}

/// Severity of a logged error.
#[derive(Debug, Clone, Copy, PartialEq, Eq, Structural)]
pub enum ErrorSeverity {
    Info,
    Warning,
    Error,
    Critical,
}

/// Severity of a raised alert.
#[derive(Debug, Clone, Copy, PartialEq, Eq, Structural)]
pub enum AlertSeverity {
    Info,
    Warning,
    Critical,
    Emergency,
}

/// What part of the system an alert concerns.
#[derive(Debug, Clone, Copy)]
pub enum AlertCategory {
    System,
    Performance,
    Safety,
    Hardware,
    Software,
    Network,
}

} // verus!
