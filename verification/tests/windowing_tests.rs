use synheart_sensor_agent::{EventWindow, KeyboardEvent, SensorEvent, WindowManager};

const T0: u64 = 1_000_000;

#[test]
fn test_window_creation() {
    let window = EventWindow::new(T0, 10_000);
    assert_eq!(window.start, T0);
    assert_eq!(window.end, T0 + 10_000);
    assert!(window.is_empty());
}

#[test]
fn test_window_contains() {
    let window = EventWindow::new(T0, 10_000);
    assert!(window.contains(T0));
    assert!(window.contains(T0 + 5_000));
    assert!(!window.contains(T0 + 10_000));
    assert!(!window.contains(T0 - 1_000));
}

#[test]
fn test_window_manager_basic() {
    let mut manager = WindowManager::new(10, 300);

    for _ in 0..5 {
        let event = SensorEvent::Keyboard(KeyboardEvent::new(T0, true));
        manager.process_event(event);
    }

    // The window is not complete yet.
    assert!(!manager.has_completed_windows());

    // Flush to complete the current window.
    manager.flush();
    assert!(manager.has_completed_windows());

    let windows = manager.take_completed_windows();
    assert_eq!(windows.len(), 1);
    assert_eq!(windows[0].keyboard_events.len(), 5);
}

#[test]
fn test_session_boundary_closes_window() {
    // Ten-second windows, five-second session gap.
    let mut manager = WindowManager::new(10, 5);
    manager.process_event(SensorEvent::Keyboard(KeyboardEvent::new(T0, true)));
    // A six-second gap exceeds the threshold; the open window closes early
    // even though its own duration has not elapsed.
    manager.process_event(SensorEvent::Keyboard(KeyboardEvent::new(T0 + 6_000, true)));
    assert_eq!(manager.completed_window_count(), 1);
    manager.flush();
    let windows = manager.take_completed_windows();
    assert_eq!(windows.len(), 2);
    assert!(windows[0].is_session_start);
    assert_eq!(windows[0].start, T0);
    assert!(windows[1].is_session_start);
    assert_eq!(windows[1].start, T0 + 6_000);
}

#[test]
fn test_small_gap_is_not_a_session_boundary() {
    let mut manager = WindowManager::new(10, 5);
    manager.process_event(SensorEvent::Keyboard(KeyboardEvent::new(T0, true)));
    manager.process_event(SensorEvent::Keyboard(KeyboardEvent::new(T0 + 4_000, true)));
    assert_eq!(manager.completed_window_count(), 0);
    manager.flush();
    let windows = manager.take_completed_windows();
    assert_eq!(windows.len(), 1);
    assert_eq!(windows[0].keyboard_events.len(), 2);
}

#[test]
fn test_window_expiry_without_new_events() {
    let mut manager = WindowManager::new(10, 300);
    manager.process_event(SensorEvent::Keyboard(KeyboardEvent::new(T0, true)));
    // Before the end, nothing expires.
    manager.check_window_expiry(T0 + 9_999);
    assert!(!manager.has_completed_windows());
    // At the end, the window closes with zero additional input.
    manager.check_window_expiry(T0 + 10_000);
    assert!(manager.has_completed_windows());
    let windows = manager.take_completed_windows();
    assert_eq!(windows.len(), 1);
    assert_eq!(windows[0].keyboard_events.len(), 1);
}

#[test]
fn test_flush_on_empty_manager_is_noop() {
    let mut manager = WindowManager::new(10, 300);
    manager.flush();
    assert!(!manager.has_completed_windows());
    // Flushing twice after one window still yields exactly one window.
    manager.process_event(SensorEvent::Keyboard(KeyboardEvent::new(T0, true)));
    manager.flush();
    manager.flush();
    assert_eq!(manager.completed_window_count(), 1);
}

#[test]
fn test_event_past_window_end_opens_new_window() {
    let mut manager = WindowManager::new(10, 300);
    manager.process_event(SensorEvent::Keyboard(KeyboardEvent::new(T0, true)));
    // Within the session gap but past the window's fixed duration.
    manager.process_event(SensorEvent::Keyboard(KeyboardEvent::new(T0 + 12_000, true)));
    assert_eq!(manager.completed_window_count(), 1);
    manager.flush();
    let windows = manager.take_completed_windows();
    assert_eq!(windows.len(), 2);
    // The new window is anchored at the event's own timestamp.
    assert_eq!(windows[1].start, T0 + 12_000);
    assert!(!windows[1].is_session_start);
}

#[test]
fn test_completed_windows_are_never_empty() {
    let mut manager = WindowManager::new(10, 300);
    // Expiring and flushing with no events surfaces nothing.
    manager.check_window_expiry(T0 + 100_000);
    manager.flush();
    assert_eq!(manager.take_completed_windows().len(), 0);
    // Events within their windows always arrive inside [start, end).
    manager.process_event(SensorEvent::Keyboard(KeyboardEvent::new(T0, true)));
    manager.process_event(SensorEvent::Keyboard(KeyboardEvent::new(T0 + 500, true)));
    manager.flush();
    let windows = manager.take_completed_windows();
    for w in &windows {
        assert!(!w.is_empty());
        for e in &w.keyboard_events {
            assert!(w.start <= e.timestamp && e.timestamp < w.end);
        }
    }
}
