//! Configuration records consumed by the monitoring and logging layers.
//!
//! The values are read once from the external configuration collaborator;
//! this module holds the records and their defaults.

use vstd::prelude::*;

verus! {

/// Monitoring behaviour: what to collect and how often.
#[derive(Debug, Clone)]
pub struct MonitoringConfig {
    pub metrics_collection: bool,
    pub performance_tracking: bool,
    pub alert_system: bool,
    pub data_retention_days: u32,
    pub export_interval_minutes: u32,
    pub health_check_interval_seconds: u32,
}

impl Default for MonitoringConfig {
    /// Everything on, thirty days of retention, quarter-hour exports,
    /// half-minute health checks.
    fn default() -> (d: Self)
        ensures
            d == (MonitoringConfig {
                metrics_collection: true,
                performance_tracking: true,
                alert_system: true,
                data_retention_days: 30u32,
                export_interval_minutes: 15u32,
                health_check_interval_seconds: 30u32,
            }),
    {
        MonitoringConfig {
            metrics_collection: true,
            performance_tracking: true,
            alert_system: true,
            data_retention_days: 30,
            export_interval_minutes: 15,
            health_check_interval_seconds: 30,
        }
    }
}

/// How log output is rotated.
#[derive(Debug, Clone)]
pub enum LogRotation {
    Daily,
    Weekly,
    Size,
}

/// Logging behaviour: level, sinks, rotation.
#[derive(Debug, Clone)]
pub struct LoggingConfig {
    pub level: String,
    pub file_logging: bool,
    pub console_logging: bool,
    pub log_directory: String,
    pub max_file_size_mb: u32,
    pub max_files: u32,
    pub rotation: LogRotation,
}

impl Default for LoggingConfig {
    /// Info-level logging to console and daily-rotated files.
    fn default() -> (d: Self)
        ensures
            d.level@ == "info"@,
            d.file_logging,
            d.console_logging,
            d.log_directory@ == "logs"@,
            d.max_file_size_mb == 100u32,
            d.max_files == 10u32,
            d.rotation is Daily,
    {
        LoggingConfig {
            level: "info".to_string(),
            file_logging: true,
            console_logging: true,
            log_directory: "logs".to_string(),
            max_file_size_mb: 100,
            max_files: 10,
            rotation: LogRotation::Daily,
        }
    }
}

} // verus!
