use synheart_sensor_agent::jsonin::snapshot_from_json;
use synheart_sensor_agent::jsonout::snapshot_to_json;
use synheart_sensor_agent::{
    compute_features, EventWindow, HsiBuilder, KeyboardEvent, SensorEvent,
};

const T0: u64 = 1_000_000;
const COMPUTED_AT: u64 = 2_000_000;

fn empty_window() -> EventWindow {
    EventWindow::new(T0, 10_000)
}

#[test]
fn test_hsi_builder_instance_id() {
    let builder1 = HsiBuilder::new();
    let builder2 = HsiBuilder::new();
    assert_ne!(builder1.instance_id(), builder2.instance_id());
    assert_eq!(builder1.instance_id().len(), 36);
}

#[test]
fn test_hsi_snapshot_creation() {
    let builder = HsiBuilder::new();
    let window = empty_window();
    let features = compute_features(&window);

    let snapshot = builder.build(&window, &features, COMPUTED_AT);

    assert_eq!(snapshot.hsi_version, "1.0");
    assert_eq!(snapshot.producer.name, "synheart-sensor-agent");
    assert!(!snapshot.privacy.contains_pii);
    assert!(snapshot.privacy.derived_metrics_allowed);
}

#[test]
fn test_hsi_1_0_compliance() {
    let builder = HsiBuilder::new();
    let window = empty_window();
    let features = compute_features(&window);

    let snapshot = builder.build(&window, &features, COMPUTED_AT);

    assert_eq!(snapshot.hsi_version, "1.0");
    assert!(!snapshot.observed_at_utc.is_empty());
    assert!(!snapshot.computed_at_utc.is_empty());
    assert!(!snapshot.window_ids.is_empty());
    assert!(!snapshot.windows.is_empty());

    // Window ids match the window definitions' keys.
    for id in &snapshot.window_ids {
        assert!(snapshot.windows.iter().any(|(key, _)| key == id));
    }

    assert!(!snapshot.privacy.contains_pii);

    let readings = &snapshot.axes.behavior.readings;
    assert!(!readings.is_empty());
    for reading in readings {
        assert!(!reading.axis.is_empty());
        assert!(reading.confidence <= 1_000);
        assert!(!reading.window_id.is_empty());
        if let Some(score) = reading.score {
            assert!(score <= 1_000, "score out of range: {score}");
        }
    }
}

#[test]
fn test_hsi_json_serialization() {
    let builder = HsiBuilder::new();
    let window = empty_window();
    let features = compute_features(&window);

    let json = builder.build_json(&window, &features, COMPUTED_AT).unwrap();

    assert!(json.contains("hsi_version"));
    assert!(json.contains("observed_at_utc"));
    assert!(json.contains("computed_at_utc"));
    assert!(json.contains("producer"));
    assert!(json.contains("window_ids"));
    assert!(json.contains("windows"));
    assert!(json.contains("privacy"));
    assert!(json.contains("contains_pii"));
}

#[test]
fn test_source_quality_calculation() {
    let builder = HsiBuilder::new();
    let window = empty_window();
    let features = compute_features(&window);

    let snapshot = builder.build(&window, &features, COMPUTED_AT);

    let (_, source) = &snapshot.sources[0];
    // An empty window has zero quality and is degraded.
    assert!(source.quality < 500);
    assert!(source.degraded);
}

#[test]
fn test_source_quality_steps() {
    let builder = HsiBuilder::new();
    let mut window = EventWindow::new(T0, 10_000);
    for i in 0..12u64 {
        window.add_event(SensorEvent::Keyboard(KeyboardEvent::new(T0 + i, true)));
    }
    let features = compute_features(&window);
    let snapshot = builder.build(&window, &features, COMPUTED_AT);
    let (_, source) = &snapshot.sources[0];
    // Twelve events: quality 0.75, not degraded.
    assert_eq!(source.quality, 750);
    assert!(!source.degraded);
    assert_eq!(snapshot.axes.behavior.readings[0].confidence, 675);
}

#[test]
fn test_snapshot_json_parses_and_declares_no_pii() {
    // The emitted document is real JSON: parse it back with an independent
    // JSON implementation and check the attestation and shape.
    let builder = HsiBuilder::new().with_session_id("session-1".to_string());
    let mut window = EventWindow::new(T0, 10_000);
    window.add_event(SensorEvent::Keyboard(KeyboardEvent::new(T0 + 5, true)));
    window.add_event(SensorEvent::Keyboard(KeyboardEvent::new(T0 + 55, false)));
    let features = compute_features(&window);

    let json = builder.build_json(&window, &features, COMPUTED_AT).unwrap();
    let value: serde_json::Value = serde_json::from_str(&json).unwrap();

    assert_eq!(value["hsi_version"], serde_json::Value::String("1.0".to_string()));
    assert_eq!(value["privacy"]["contains_pii"], serde_json::Value::Bool(false));
    assert_eq!(value["meta"]["session_id"], serde_json::Value::String("session-1".to_string()));
    assert_eq!(value["axes"]["behavior"]["readings"].as_array().unwrap().len(), 12);
    // Timestamps render through the calendar: the window end lies shortly
    // after the epoch.
    assert!(value["observed_at_utc"].as_str().unwrap().starts_with("1970-01-01T00:"));
}

#[test]
fn test_json_rejects_unescapable_session_id() {
    let builder = HsiBuilder::new().with_session_id("bad\"quote".to_string());
    let window = empty_window();
    let features = compute_features(&window);
    assert!(builder.build_json(&window, &features, COMPUTED_AT).is_err());
}

#[test]
fn test_snapshot_round_trip() {
    let builder = HsiBuilder::new().with_session_id("session-2".to_string());
    let mut window = EventWindow::new(T0, 10_000);
    window.add_event(SensorEvent::Keyboard(KeyboardEvent::new(T0 + 5, true)));
    window.add_event(SensorEvent::Keyboard(KeyboardEvent::new(T0 + 55, false)));
    let features = compute_features(&window);
    let snapshot = builder.build(&window, &features, COMPUTED_AT);

    let json = snapshot_to_json(&snapshot).unwrap();
    let parsed = snapshot_from_json(&json).unwrap();

    // The parsed document equals the original in every field, and renders
    // back to the same text.
    assert_eq!(parsed, snapshot);
    assert_eq!(snapshot_to_json(&parsed).unwrap(), json);
}

#[test]
fn test_snapshot_from_json_rejects_garbage() {
    assert!(snapshot_from_json("not json at all").is_none());
    assert!(snapshot_from_json("{}").is_none());
}

#[test]
fn test_empty_window_snapshot_scores_are_zero() {
    // The all-zero default for an empty window carries through to the
    // snapshot: every behavioral axis reads zero.
    let builder = HsiBuilder::new();
    let window = empty_window();
    let features = compute_features(&window);
    let snapshot = builder.build(&window, &features, COMPUTED_AT);
    for reading in &snapshot.axes.behavior.readings {
        assert_eq!(reading.score, Some(0));
    }
}
