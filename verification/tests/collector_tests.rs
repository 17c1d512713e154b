use synheart_sensor_agent::{check_permission, CollectorConfig, CollectorError, NoopCollector};

#[test]
fn macos_test_collector_config_default() {
    let config = CollectorConfig::default();
    assert!(config.capture_keyboard);
    assert!(config.capture_mouse);
}

#[test]
fn windows_test_collector_config_default() {
    let config = CollectorConfig::default();
    assert!(config.capture_keyboard);
    assert!(config.capture_mouse);
}

#[test]
fn test_noop_collector_lifecycle() {
    let mut collector = NoopCollector::new(CollectorConfig::default());
    assert!(!collector.is_running());
    assert!(collector.start().is_ok());
    assert!(collector.is_running());
    // Starting while active fails and changes nothing.
    assert!(matches!(collector.start(), Err(CollectorError::AlreadyRunning)));
    assert!(collector.is_running());
    // Stopping is safe to repeat.
    collector.stop();
    assert!(!collector.is_running());
    collector.stop();
    assert!(!collector.is_running());
    // The inert backend never emits events.
    assert!(collector.try_recv().is_none());
}

#[test]
fn test_check_permission_always_granted() {
    assert!(check_permission());
}

#[test]
fn test_collector_error_messages() {
    assert_eq!(CollectorError::AlreadyRunning.message(), "Collector is already running");
    assert_eq!(
        CollectorError::PermissionDenied.message(),
        "Input Monitoring permission not granted"
    );
}
