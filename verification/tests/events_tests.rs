use synheart_sensor_agent::{
    classify_keycode, is_navigation_key, KeyboardEvent, KeyboardEventType, MouseEvent,
    MouseEventType, ScrollDirection, ScrollMagnitude,
};

const T0: u64 = 1_000_000;

#[test]
fn test_keyboard_event_creation() {
    let event = KeyboardEvent::new(T0, true);
    assert!(event.is_key_down);
    assert_eq!(event.event_type, KeyboardEventType::TypingTap);
    assert_eq!(event.timestamp, T0);
}

#[test]
fn test_mouse_movement_magnitude() {
    // Deltas of 3.0 and 4.0 units, in thousandths.
    let event = MouseEvent::movement(T0, 3_000, 4_000);
    assert_eq!(event.event_type, MouseEventType::Move);
    let magnitude = event.delta_magnitude.unwrap();
    assert!((magnitude as f64 / 1000.0 - 5.0).abs() < 0.001);
}

#[test]
fn test_scroll_bucketing() {
    // Deltas of 2.0, 5.0 and 15.0 units, in thousandths.
    let small = MouseEvent::scroll(T0, 0, 2_000);
    assert_eq!(small.scroll_magnitude, Some(ScrollMagnitude::Small));

    let medium = MouseEvent::scroll(T0, 0, 5_000);
    assert_eq!(medium.scroll_magnitude, Some(ScrollMagnitude::Medium));

    let large = MouseEvent::scroll(T0, 0, 15_000);
    assert_eq!(large.scroll_magnitude, Some(ScrollMagnitude::Large));
}

#[test]
fn test_scroll_bucket_boundaries() {
    // Exactly 3 units is medium; exactly 10 units is still medium.
    let at_three = MouseEvent::scroll(T0, 0, 3_000);
    assert_eq!(at_three.scroll_magnitude, Some(ScrollMagnitude::Medium));
    let at_ten = MouseEvent::scroll(T0, 10_000, 0);
    assert_eq!(at_ten.scroll_magnitude, Some(ScrollMagnitude::Medium));
    let above_ten = MouseEvent::scroll(T0, 10_001, 0);
    assert_eq!(above_ten.scroll_magnitude, Some(ScrollMagnitude::Medium));
    let eleven = MouseEvent::scroll(T0, 11_000, 0);
    assert_eq!(eleven.scroll_magnitude, Some(ScrollMagnitude::Large));
}

#[test]
fn test_scroll_direction() {
    assert_eq!(MouseEvent::scroll(T0, 0, 2_000).scroll_direction, Some(ScrollDirection::Down));
    assert_eq!(MouseEvent::scroll(T0, 0, -2_000).scroll_direction, Some(ScrollDirection::Up));
    assert_eq!(MouseEvent::scroll(T0, 2_000, 0).scroll_direction, Some(ScrollDirection::Right));
    assert_eq!(MouseEvent::scroll(T0, -2_000, 0).scroll_direction, Some(ScrollDirection::Left));
}

#[test]
fn test_click_sides() {
    assert_eq!(MouseEvent::click(T0, true).event_type, MouseEventType::LeftClick);
    assert_eq!(MouseEvent::click(T0, false).event_type, MouseEventType::RightClick);
}

#[test]
fn test_navigation_key_classification() {
    // Arrow keys, page up/down, home, end.
    for code in [115i64, 116, 119, 121, 123, 124, 125, 126] {
        assert!(is_navigation_key(code));
        assert_eq!(classify_keycode(code), KeyboardEventType::NavigationKey);
    }
    for code in [0i64, 1, 36, 48, 114, 117, 120, 122, 127] {
        assert!(!is_navigation_key(code));
        assert_eq!(classify_keycode(code), KeyboardEventType::TypingTap);
    }
}
