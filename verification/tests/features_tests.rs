use synheart_sensor_agent::features::{
    compute_behavioral_signals, compute_keyboard_features, compute_mouse_features,
};
use synheart_sensor_agent::{
    compute_features, std_dev, EventWindow, KeyboardEvent, KeyboardEventType, MouseEvent,
};

const T0: u64 = 1_000_000;

fn make_keyboard_event(is_down: bool, offset_ms: u64) -> KeyboardEvent {
    KeyboardEvent::with_type(T0 + offset_ms, is_down, KeyboardEventType::TypingTap)
}

fn make_navigation_event(is_down: bool, offset_ms: u64) -> KeyboardEvent {
    KeyboardEvent::with_type(T0 + offset_ms, is_down, KeyboardEventType::NavigationKey)
}

#[test]
fn test_keyboard_features_empty() {
    let features = compute_keyboard_features(&vec![], 10_000);
    assert_eq!(features.typing_rate, 0);
}

#[test]
fn test_keyboard_features_basic() {
    let events = vec![
        make_keyboard_event(true, 0),
        make_keyboard_event(false, 50),
        make_keyboard_event(true, 100),
        make_keyboard_event(false, 150),
        make_keyboard_event(true, 200),
        make_keyboard_event(false, 250),
    ];

    let features = compute_keyboard_features(&events, 1_000);
    // Three key presses in one second: a rate of 3.0, in thousandths.
    assert_eq!(features.typing_rate, 3_000);
}

#[test]
fn test_std_dev() {
    // The values 2, 4, 4, 4, 5, 5, 7, 9, in thousandths.
    let values: Vec<i64> = vec![2_000, 4_000, 4_000, 4_000, 5_000, 5_000, 7_000, 9_000];
    let sd = std_dev(&values);
    assert!((sd as f64 / 1000.0 - 2.0).abs() < 0.1);
}

#[test]
fn test_behavioral_signals_bounds() {
    let keyboard = Default::default();
    let mouse = Default::default();
    let signals = compute_behavioral_signals(&keyboard, &mouse);

    // All signals lie within [0, 1] (thousandths).
    assert!(signals.interaction_rhythm <= 1_000);
    assert!(signals.friction <= 1_000);
    assert!(signals.motor_stability <= 1_000);
    assert!(signals.focus_continuity_proxy <= 1_000);
}

#[test]
fn test_typing_tap_count() {
    let events = vec![
        make_keyboard_event(true, 0),
        make_keyboard_event(false, 50),
        make_keyboard_event(true, 100),
        make_keyboard_event(false, 150),
        make_keyboard_event(true, 200),
        make_keyboard_event(false, 250),
    ];

    let features = compute_keyboard_features(&events, 1_000);
    assert_eq!(features.typing_tap_count, 3);
}

#[test]
fn test_typing_cadence_stability_bounds() {
    let features_empty = compute_keyboard_features(&vec![], 10_000);
    assert!(features_empty.typing_cadence_stability <= 1_000);

    let events = vec![
        make_keyboard_event(true, 0),
        make_keyboard_event(false, 50),
        make_keyboard_event(true, 100),
        make_keyboard_event(false, 150),
        make_keyboard_event(true, 200),
        make_keyboard_event(false, 250),
    ];
    let features = compute_keyboard_features(&events, 1_000);
    assert!(features.typing_cadence_stability <= 1_000);
    // Regular intervals yield a high stability.
    assert!(features.typing_cadence_stability > 500);
}

#[test]
fn test_typing_gap_ratio_bounds() {
    let features_empty = compute_keyboard_features(&vec![], 10_000);
    assert_eq!(features_empty.typing_gap_ratio, 0);

    // Fast typing with no pauses.
    let events = vec![
        make_keyboard_event(true, 0),
        make_keyboard_event(false, 50),
        make_keyboard_event(true, 100),
        make_keyboard_event(false, 150),
    ];
    let features = compute_keyboard_features(&events, 1_000);
    assert!(features.typing_gap_ratio <= 1_000);
    assert_eq!(features.typing_gap_ratio, 0);

    // Typing with a pause beyond 500 milliseconds.
    let events_with_gaps = vec![
        make_keyboard_event(true, 0),
        make_keyboard_event(false, 50),
        make_keyboard_event(true, 600),
        make_keyboard_event(false, 650),
    ];
    let features_gaps = compute_keyboard_features(&events_with_gaps, 1_000);
    assert!(features_gaps.typing_gap_ratio > 0);
}

#[test]
fn test_typing_interaction_intensity_bounds() {
    let features_empty = compute_keyboard_features(&vec![], 10_000);
    assert!(features_empty.typing_interaction_intensity <= 1_000);

    // High intensity: fast, regular, no gaps.
    let fast_events = vec![
        make_keyboard_event(true, 0),
        make_keyboard_event(false, 30),
        make_keyboard_event(true, 60),
        make_keyboard_event(false, 90),
        make_keyboard_event(true, 120),
        make_keyboard_event(false, 150),
        make_keyboard_event(true, 180),
        make_keyboard_event(false, 210),
        make_keyboard_event(true, 240),
        make_keyboard_event(false, 270),
    ];
    let features = compute_keyboard_features(&fast_events, 1_000);
    assert!(features.typing_interaction_intensity <= 1_000);
    assert!(features.typing_interaction_intensity > 300);
}

#[test]
fn test_navigation_key_separation() {
    let events = vec![
        make_keyboard_event(true, 0),
        make_keyboard_event(false, 50),
        make_navigation_event(true, 100),
        make_navigation_event(false, 150),
        make_keyboard_event(true, 200),
        make_keyboard_event(false, 250),
        make_navigation_event(true, 300),
        make_navigation_event(false, 350),
    ];

    let features = compute_keyboard_features(&events, 1_000);

    // Only the two typing presses count toward typing metrics.
    assert_eq!(features.typing_tap_count, 2);
    assert_eq!(features.typing_rate, 2_000);

    // The two navigation presses count separately.
    assert_eq!(features.navigation_key_count, 2);
    assert_eq!(features.keyboard_scroll_rate, 2_000);
}

#[test]
fn test_navigation_keys_dont_inflate_typing_metrics() {
    let nav_only_events = vec![
        make_navigation_event(true, 0),
        make_navigation_event(false, 50),
        make_navigation_event(true, 100),
        make_navigation_event(false, 150),
        make_navigation_event(true, 200),
        make_navigation_event(false, 250),
    ];

    let features = compute_keyboard_features(&nav_only_events, 1_000);

    assert_eq!(features.typing_tap_count, 0);
    assert_eq!(features.typing_rate, 0);

    assert_eq!(features.navigation_key_count, 3);
    assert_eq!(features.keyboard_scroll_rate, 3_000);
}

#[test]
fn test_keyboard_scroll_rate_bounds() {
    let features_empty = compute_keyboard_features(&vec![], 10_000);
    assert_eq!(features_empty.keyboard_scroll_rate, 0);
    assert_eq!(features_empty.navigation_key_count, 0);

    let nav_events = vec![
        make_navigation_event(true, 0),
        make_navigation_event(false, 30),
        make_navigation_event(true, 60),
        make_navigation_event(false, 90),
        make_navigation_event(true, 120),
        make_navigation_event(false, 150),
    ];
    let features = compute_keyboard_features(&nav_events, 1_000);
    assert_eq!(features.navigation_key_count, 3);
    assert!(features.keyboard_scroll_rate > 0);
}

#[test]
fn test_mouse_features_basic() {
    let events = vec![
        MouseEvent::movement(T0, 3_000, 4_000),
        MouseEvent::click(T0 + 100, true),
        MouseEvent::movement(T0 + 200, 3_000, 4_000),
        MouseEvent::scroll(T0 + 300, 0, 5_000),
    ];
    let features = compute_mouse_features(&events, 1_000);
    // Two movements, one click, one scroll over one second.
    assert_eq!(features.mouse_activity_rate, 2_000);
    assert_eq!(features.click_rate, 1_000);
    assert_eq!(features.scroll_rate, 1_000);
    // Both movements have magnitude 5.0, so the mean is exact and the
    // variability is zero.
    assert_eq!(features.mean_velocity, 5_000);
    assert_eq!(features.velocity_variability, 0);
    assert!(features.idle_ratio <= 1_000);
    assert!(features.micro_adjustment_ratio <= 1_000);
}

#[test]
fn test_mouse_features_empty() {
    let features = compute_mouse_features(&vec![], 10_000);
    assert_eq!(features.mouse_activity_rate, 0);
    assert_eq!(features.idle_ratio, 0);
}

#[test]
fn test_idle_ratio_with_single_move_is_full() {
    // Fewer than two movement events count as fully idle.
    let events = vec![MouseEvent::movement(T0, 1_000, 0)];
    let features = compute_mouse_features(&events, 10_000);
    assert_eq!(features.idle_ratio, 1_000);
}

#[test]
fn test_idle_ratio_counts_excess_only() {
    // A three-second gap between moves in a ten-second window: two seconds of
    // excess beyond the one-second threshold, for a ratio of 0.2.
    let events = vec![
        MouseEvent::movement(T0, 1_000, 0),
        MouseEvent::movement(T0 + 3_000, 1_000, 0),
    ];
    let features = compute_mouse_features(&events, 10_000);
    assert_eq!(features.idle_ratio, 200);
}

#[test]
fn test_micro_adjustment_ratio() {
    // One movement below five units, one above.
    let events = vec![
        MouseEvent::movement(T0, 3_000, 0),
        MouseEvent::movement(T0 + 100, 30_000, 0),
    ];
    let features = compute_mouse_features(&events, 1_000);
    assert_eq!(features.micro_adjustment_ratio, 500);
}

#[test]
fn test_acceleration_spikes() {
    // Magnitudes 1.0 then 60.0: a jump of 59 units, beyond the 50-unit
    // threshold.
    let events = vec![
        MouseEvent::movement(T0, 1_000, 0),
        MouseEvent::movement(T0 + 100, 60_000, 0),
    ];
    let features = compute_mouse_features(&events, 1_000);
    assert_eq!(features.acceleration_spikes, 1);
}

#[test]
fn test_session_continuity_nonnegative_for_ordered_input() {
    let events = vec![
        make_keyboard_event(true, 0),
        make_keyboard_event(true, 300),
        make_keyboard_event(true, 900),
    ];
    let features = compute_keyboard_features(&events, 1_000);
    assert!(features.session_continuity >= 0);
    assert!(features.session_continuity <= 1_000);
}

#[test]
fn test_empty_window_features_are_all_zero() {
    // An empty window yields the all-zero record throughout: the behavioral
    // signals are zeroed too, not composed from the zero inputs.
    let window = EventWindow::new(T0, 10_000);
    let features = compute_features(&window);
    assert_eq!(features.keyboard.typing_rate, 0);
    assert_eq!(features.mouse.mouse_activity_rate, 0);
    assert_eq!(features.behavioral.interaction_rhythm, 0);
    assert_eq!(features.behavioral.friction, 0);
    assert_eq!(features.behavioral.motor_stability, 0);
    assert_eq!(features.behavioral.focus_continuity_proxy, 0);
    assert_eq!(features, Default::default());
}
