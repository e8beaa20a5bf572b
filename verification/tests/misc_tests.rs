use hexar::config::{LogRotation, LoggingConfig, MonitoringConfig};
use hexar::monitoring::AlertSeverity;
use hexar::parser::{ErrorPattern, ErrorSeverity};
use hexar::safety::{EmergencySystemStatus, FilterStatus};

#[test]
fn error_pattern_exposes_name_and_description() {
    let pattern = ErrorPattern {
        name: "Invalid FD Header".to_string(),
        severity: ErrorSeverity::Error,
        description: "Expected 0xFD header byte not found".to_string(),
        fix_suggestion: Some("Check serial connection and baud rate".to_string()),
    };
    assert_eq!(pattern.get_name(), "Invalid FD Header");
    assert_eq!(pattern.get_description(), "Expected 0xFD header byte not found");
    assert_eq!(pattern.severity, ErrorSeverity::Error);
}

#[test]
fn monitoring_config_defaults() {
    let config = MonitoringConfig::default();
    assert!(config.metrics_collection);
    assert!(config.performance_tracking);
    assert!(config.alert_system);
    assert_eq!(config.data_retention_days, 30);
    assert_eq!(config.export_interval_minutes, 15);
    assert_eq!(config.health_check_interval_seconds, 30);
}

#[test]
fn logging_config_defaults() {
    let config = LoggingConfig::default();
    assert_eq!(config.level, "info");
    assert!(config.file_logging);
    assert!(config.console_logging);
    assert_eq!(config.log_directory, "logs");
    assert_eq!(config.max_file_size_mb, 100);
    assert_eq!(config.max_files, 10);
    assert!(matches!(config.rotation, LogRotation::Daily));
}

#[test]
fn emergency_status_reports_readiness() {
    let ready = EmergencySystemStatus {
        emergency_stop_functional: true,
        fire_suppression_ready: true,
        radiation_monitoring_active: true,
        evacuation_signals_ready: true,
    };
    assert!(ready.all_ready());
    let degraded = EmergencySystemStatus { fire_suppression_ready: false, ..ready };
    assert!(!degraded.all_ready());
    assert!(matches!(FilterStatus::Clean, FilterStatus::Clean));
    assert!(AlertSeverity::Critical != AlertSeverity::Emergency);
}
