//! Privacy-reducing input event model.
//!
//! Events carry only timing and magnitude information: timestamps in
//! milliseconds, boolean press state, movement magnitude, and bucketed scroll
//! direction and size. Key identities and absolute coordinates never appear.
//!
//! All magnitudes are fixed-point values in thousandths of a movement unit.

use vstd::prelude::*;
use crate::math::{int_sqrt, floor_sqrt};

verus! {

/// Upper bound on the absolute value of a movement or scroll delta handed to
/// an event constructor, in thousandths of a unit. Keeps the sum of two
/// squared deltas within `u64`.
pub const MAX_DELTA_MILLI: i64 = 3_000_000_000;

/// Upper bound on a stored movement magnitude, in thousandths of a unit.
/// Any magnitude produced from deltas within [`MAX_DELTA_MILLI`] fits.
pub const MAX_MAGNITUDE_MILLI: u64 = 4_300_000_000;

/// Absolute value over mathematical integers.
pub open spec fn iabs(x: int) -> int {
    if x < 0 { -x } else { x }
}

/// Classification of a keyboard event, decided once in the capture callback.
/// The key code itself is discarded immediately after classification.
#[derive(Clone, Copy, Debug, PartialEq, Eq, Structural)]
pub enum KeyboardEventType {
    /// A content-producing key press.
    TypingTap,
    /// A navigation key (arrows, page up/down, home, end).
    NavigationKey,
}

/// A keyboard event carrying only timing, press state and classification.
#[derive(Clone, Copy, Debug, PartialEq, Eq, Structural)]
pub struct KeyboardEvent {
    /// Milliseconds on a monotonic-comparable wall clock.
    pub timestamp: u64,
    /// Whether this is a key press (true) or release (false).
    pub is_key_down: bool,
    /// Typing versus navigation classification.
    pub event_type: KeyboardEventType,
}

impl KeyboardEvent {
    /// A typing-tap keyboard event.
    pub fn new(timestamp: u64, is_key_down: bool) -> (r: Self)
        ensures
            r == (KeyboardEvent { timestamp, is_key_down, event_type: KeyboardEventType::TypingTap }),
    {
        KeyboardEvent { timestamp, is_key_down, event_type: KeyboardEventType::TypingTap }
    }

    /// A keyboard event with an explicit classification.
    pub fn with_type(timestamp: u64, is_key_down: bool, event_type: KeyboardEventType) -> (r: Self)
        ensures
            r == (KeyboardEvent { timestamp, is_key_down, event_type }),
    {
        KeyboardEvent { timestamp, is_key_down, event_type }
    }
}

/// Mouse event kind.
#[derive(Clone, Copy, Debug, PartialEq, Eq, Structural)]
pub enum MouseEventType {
    /// Cursor movement.
    Move,
    /// Left button press.
    LeftClick,
    /// Right button press.
    RightClick,
    /// Scroll wheel event.
    Scroll,
}

/// Scroll direction; no exact amounts are kept.
#[derive(Clone, Copy, Debug, PartialEq, Eq, Structural)]
pub enum ScrollDirection {
    Up,
    Down,
    Left,
    Right,
}

/// Bucketed scroll magnitude, to avoid precise tracking.
#[derive(Clone, Copy, Debug, PartialEq, Eq, Structural)]
pub enum ScrollMagnitude {
    /// Total absolute delta below 3 units.
    Small,
    /// Total absolute delta from 3 to 10 units.
    Medium,
    /// Total absolute delta above 10 units.
    Large,
}

/// A mouse event carrying only timing and magnitude information.
#[derive(Clone, Copy, Debug, PartialEq, Eq, Structural)]
pub struct MouseEvent {
    /// Milliseconds on a monotonic-comparable wall clock.
    pub timestamp: u64,
    /// Kind of mouse event.
    pub event_type: MouseEventType,
    /// Movement magnitude in thousandths of a unit; set for `Move` only.
    pub delta_magnitude: Option<u64>,
    /// Scroll direction; set for `Scroll` only.
    pub scroll_direction: Option<ScrollDirection>,
    /// Scroll magnitude bucket; set for `Scroll` only.
    pub scroll_magnitude: Option<ScrollMagnitude>,
}

/// The stored magnitude, if any, is within the model's bound.
pub open spec fn mouse_event_wf(e: MouseEvent) -> bool {
    e.delta_magnitude matches Some(d) ==> d <= MAX_MAGNITUDE_MILLI
}

/// The Euclidean norm of a 2D delta, in thousandths, rounded down.
pub open spec fn spec_movement_magnitude(dx: int, dy: int) -> int {
    floor_sqrt(dx * dx + dy * dy)
}

/// Scroll direction from a scroll delta: the dominant axis wins, with the
/// horizontal axis taking an exact tie.
pub open spec fn spec_scroll_direction(dx: int, dy: int) -> ScrollDirection {
    if iabs(dy) > iabs(dx) {
        if dy > 0 { ScrollDirection::Down } else { ScrollDirection::Up }
    } else if dx > 0 {
        ScrollDirection::Right
    } else {
        ScrollDirection::Left
    }
}

/// Scroll bucket from a scroll delta in thousandths: the total absolute delta
/// in whole units is below 3 for small, at most 10 for medium, above 10 for
/// large.
pub open spec fn spec_scroll_bucket(dx: int, dy: int) -> ScrollMagnitude {
    let total = (iabs(dx) + iabs(dy)) / 1000;
    if total < 3 {
        ScrollMagnitude::Small
    } else if total <= 10 {
        ScrollMagnitude::Medium
    } else {
        ScrollMagnitude::Large
    }
}

impl MouseEvent {
    /// A movement event; `delta_x` and `delta_y` are the relative movement in
    /// thousandths of a unit, and only their Euclidean norm is stored.
    pub fn movement(timestamp: u64, delta_x: i64, delta_y: i64) -> (r: Self)
        requires
            -MAX_DELTA_MILLI <= delta_x <= MAX_DELTA_MILLI,
            -MAX_DELTA_MILLI <= delta_y <= MAX_DELTA_MILLI,
        ensures
            r.timestamp == timestamp,
            r.event_type == MouseEventType::Move,
            r.delta_magnitude == Some(spec_movement_magnitude(delta_x as int, delta_y as int) as u64),
            r.scroll_direction is None,
            r.scroll_magnitude is None,
            mouse_event_wf(r),
    {
        proof {
            assert(delta_x * delta_x <= MAX_DELTA_MILLI * MAX_DELTA_MILLI
                && delta_y * delta_y <= MAX_DELTA_MILLI * MAX_DELTA_MILLI
                && 0 <= delta_x * delta_x && 0 <= delta_y * delta_y) by (nonlinear_arith)
                requires
                    -MAX_DELTA_MILLI <= delta_x <= MAX_DELTA_MILLI,
                    -MAX_DELTA_MILLI <= delta_y <= MAX_DELTA_MILLI;
        }
        let xx: u64 = (delta_x * delta_x) as u64;
        let yy: u64 = (delta_y * delta_y) as u64;
        let magnitude: u64 = int_sqrt(xx as u128 + yy as u128);
        proof {
            let s = delta_x * delta_x + delta_y * delta_y;
            assert(magnitude * magnitude <= s);
            assert(magnitude <= MAX_MAGNITUDE_MILLI) by (nonlinear_arith)
                requires
                    magnitude * magnitude <= s,
                    s <= 2 * (MAX_DELTA_MILLI * MAX_DELTA_MILLI),
                    0 <= magnitude;
            crate::math::lemma_floor_sqrt_is(s, magnitude as int);
        }
        MouseEvent {
            timestamp,
            event_type: MouseEventType::Move,
            delta_magnitude: Some(magnitude),
            scroll_direction: None,
            scroll_magnitude: None,
        }
    }

    /// A click event; only the button-down transition is reported.
    pub fn click(timestamp: u64, is_left: bool) -> (r: Self)
        ensures
            r.timestamp == timestamp,
            r.event_type == (if is_left { MouseEventType::LeftClick } else { MouseEventType::RightClick }),
            r.delta_magnitude is None,
            r.scroll_direction is None,
            r.scroll_magnitude is None,
            mouse_event_wf(r),
    {
        MouseEvent {
            timestamp,
            event_type: if is_left { MouseEventType::LeftClick } else { MouseEventType::RightClick },
            delta_magnitude: None,
            scroll_direction: None,
            scroll_magnitude: None,
        }
    }

    /// A scroll event; `delta_x` and `delta_y` are in thousandths of a unit.
    /// Only the direction and the bucketed magnitude are stored.
    pub fn scroll(timestamp: u64, delta_x: i64, delta_y: i64) -> (r: Self)
        requires
            -MAX_DELTA_MILLI <= delta_x <= MAX_DELTA_MILLI,
            -MAX_DELTA_MILLI <= delta_y <= MAX_DELTA_MILLI,
        ensures
            r.timestamp == timestamp,
            r.event_type == MouseEventType::Scroll,
            r.delta_magnitude is None,
            r.scroll_direction == Some(spec_scroll_direction(delta_x as int, delta_y as int)),
            r.scroll_magnitude == Some(spec_scroll_bucket(delta_x as int, delta_y as int)),
            mouse_event_wf(r),
    {
        let ax: i64 = if delta_x < 0 { -delta_x } else { delta_x };
        let ay: i64 = if delta_y < 0 { -delta_y } else { delta_y };
        let direction: ScrollDirection = if ay > ax {
            if delta_y > 0 { ScrollDirection::Down } else { ScrollDirection::Up }
        } else if delta_x > 0 {
            ScrollDirection::Right
        } else {
            ScrollDirection::Left
        };
        let total: i64 = (ax + ay) / 1000;
        let magnitude: ScrollMagnitude = if total < 3 {
            ScrollMagnitude::Small
        } else if total <= 10 {
            ScrollMagnitude::Medium
        } else {
            ScrollMagnitude::Large
        };
        MouseEvent {
            timestamp,
            event_type: MouseEventType::Scroll,
            delta_magnitude: None,
            scroll_direction: Some(direction),
            scroll_magnitude: Some(magnitude),
        }
    }
}

/// Unified event type handed from the capture backend to the window manager.
#[derive(Clone, Copy, Debug, PartialEq, Eq, Structural)]
pub enum SensorEvent {
    Keyboard(KeyboardEvent),
    Mouse(MouseEvent),
}

/// The timestamp of a sensor event, at the spec level.
pub open spec fn spec_event_timestamp(e: SensorEvent) -> u64 {
    match e {
        SensorEvent::Keyboard(k) => k.timestamp,
        SensorEvent::Mouse(m) => m.timestamp,
    }
}

impl SensorEvent {
    /// The timestamp of the event.
    pub fn timestamp(&self) -> (r: u64)
        ensures
            r == spec_event_timestamp(*self),
    {
        match self {
            SensorEvent::Keyboard(e) => e.timestamp,
            SensorEvent::Mouse(e) => e.timestamp,
        }
    }
}

/// Whether a platform virtual-key code names a navigation key: the arrow
/// keys, page up/down, home, or end. The code is used for this classification
/// only and is never stored on an event.
pub open spec fn spec_is_navigation_key(keycode: i64) -> bool {
    keycode == 123 || keycode == 124 || keycode == 125 || keycode == 126
        || keycode == 116 || keycode == 121 || keycode == 115 || keycode == 119
}

/// Decide whether a virtual-key code is a navigation key.
pub fn is_navigation_key(keycode: i64) -> (r: bool)
    ensures
        r == spec_is_navigation_key(keycode),
{
    keycode == 123 || keycode == 124 || keycode == 125 || keycode == 126
        || keycode == 116 || keycode == 121 || keycode == 115 || keycode == 119
}

/// Classify a virtual-key code as navigation or typing. The code itself is
/// discarded after this decision.
pub fn classify_keycode(keycode: i64) -> (r: KeyboardEventType)
    ensures
        r == (if spec_is_navigation_key(keycode) { KeyboardEventType::NavigationKey } else { KeyboardEventType::TypingTap }),
{
    if is_navigation_key(keycode) {
        KeyboardEventType::NavigationKey
    } else {
        KeyboardEventType::TypingTap
    }
}

} // verus!
