use synheart_sensor_agent::{TransparencyLog, PRIVACY_DECLARATION};

#[test]
fn test_transparency_log_counting() {
    let mut log = TransparencyLog::new(0);

    log.record_keyboard_event();
    log.record_keyboard_event();
    log.record_mouse_event();

    let stats = log.stats(5_000);
    assert_eq!(stats.keyboard_events, 2);
    assert_eq!(stats.mouse_events, 1);
    assert_eq!(stats.session_duration_secs, 5);
}

#[test]
fn test_transparency_log_reset() {
    let mut log = TransparencyLog::new(0);

    log.record_keyboard_events(100);
    log.record_mouse_events(50);
    log.reset();

    let stats = log.stats(0);
    assert_eq!(stats.keyboard_events, 0);
    assert_eq!(stats.mouse_events, 0);
}

#[test]
fn test_summary_format() {
    let log = TransparencyLog::new(0);
    let summary = log.summary(0);

    assert!(summary.contains("Keyboard events"));
    assert!(summary.contains("Mouse events"));
    assert!(summary.contains("Privacy Guarantee"));
    assert!(summary.contains("No key content captured"));
}

#[test]
fn test_window_and_snapshot_counters() {
    let mut log = TransparencyLog::new(1_000);
    log.record_window_completed();
    log.record_snapshot_exported();
    log.record_snapshot_exported();
    let stats = log.stats(1_000);
    assert_eq!(stats.windows_completed, 1);
    assert_eq!(stats.snapshots_exported, 2);
    assert_eq!(stats.session_duration_secs, 0);
}

#[test]
fn test_privacy_declaration_contents() {
    assert!(PRIVACY_DECLARATION.contains("PRIVACY"));
    assert!(PRIVACY_DECLARATION.contains("NEVER CAPTURE"));
    assert!(PRIVACY_DECLARATION.contains("keys you press"));
}
