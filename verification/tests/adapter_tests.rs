use synheart_sensor_agent::adapter::BehaviorKind;
use synheart_sensor_agent::{
    EventWindow, KeyboardEvent, MouseEvent, SensorBehaviorAdapter, SensorEvent,
    SensorFluxProcessor,
};

const T0: u64 = 1_000_000;

#[test]
fn test_adapter_creation() {
    let adapter = SensorBehaviorAdapter::with_defaults();
    assert!(adapter.device_id.starts_with("sensor-"));
    assert_eq!(adapter.timezone, "UTC");
}

#[test]
fn test_empty_window_conversion() {
    let adapter = SensorBehaviorAdapter::with_defaults();
    let window = EventWindow::new(T0, 10_000);
    let session = adapter.convert("test-session", &window);

    assert_eq!(session.session_id, "test-session");
    assert!(session.events.is_empty());
    assert_eq!(session.start_ms, T0);
    assert_eq!(session.end_ms, T0 + 10_000);
}

#[test]
fn test_conversion_orders_and_classifies_events() {
    let adapter = SensorBehaviorAdapter::new("device".to_string(), "UTC".to_string());
    let mut window = EventWindow::new(T0, 10_000);
    // A key press, a key release (not converted), a click, a movement.
    window.add_event(SensorEvent::Keyboard(KeyboardEvent::new(T0 + 500, true)));
    window.add_event(SensorEvent::Keyboard(KeyboardEvent::new(T0 + 600, false)));
    window.add_event(SensorEvent::Mouse(MouseEvent::click(T0 + 100, true)));
    window.add_event(SensorEvent::Mouse(MouseEvent::movement(T0 + 900, 3_000, 4_000)));

    let session = adapter.convert("s", &window);
    assert_eq!(session.events.len(), 3);
    // Events come out in time order, regardless of source.
    assert_eq!(session.events[0].timestamp, T0 + 100);
    assert_eq!(session.events[0].kind, BehaviorKind::Tap);
    assert_eq!(session.events[0].tap_duration_ms, Some(100));
    assert_eq!(session.events[1].timestamp, T0 + 500);
    assert_eq!(session.events[1].kind, BehaviorKind::Typing);
    assert_eq!(session.events[2].timestamp, T0 + 900);
    assert_eq!(session.events[2].kind, BehaviorKind::Scroll);
    assert_eq!(session.events[2].velocity, Some(5_000));
}

#[test]
fn test_processor_creation() {
    let processor = SensorFluxProcessor::new(20);
    assert_eq!(processor.session_count(), 0);
}

#[test]
fn test_processor_with_device_id() {
    let processor = SensorFluxProcessor::with_device_id(20, "test-device");
    assert_eq!(processor.session_count(), 0);
}

#[test]
fn test_processor_counts_sessions() {
    let mut processor = SensorFluxProcessor::new(20);
    let mut window = EventWindow::new(T0, 10_000);
    for i in 0..5u64 {
        window.add_event(SensorEvent::Keyboard(KeyboardEvent::new(T0 + i * 100, true)));
        window.add_event(SensorEvent::Keyboard(KeyboardEvent::new(T0 + i * 100 + 50, false)));
    }
    // Whatever the pipeline decides about so small a session, the session
    // count advances.
    let _ = processor.update_baseline(&window);
    assert_eq!(processor.session_count(), 1);
}

#[test]
fn test_load_baselines_rejects_garbage() {
    let mut processor = SensorFluxProcessor::new(20);
    assert!(processor.load_baselines("not valid json").is_err());
}

#[test]
fn test_baselines_round_trip() {
    let processor = SensorFluxProcessor::new(20);
    let saved = processor.save_baselines().unwrap();
    let mut restored = SensorFluxProcessor::new(20);
    assert!(restored.load_baselines(&saved).is_ok());
}
