//! Conversion of an event window into a behavioral session for the flux
//! pipeline: key presses become typing events, clicks become taps, movement
//! and scrolling become scroll events, and the result is ordered by time.

use vstd::prelude::*;
use vstd::string::StringExecFns;
use vstd::seq_lib::lemma_multiset_commutative;
use crate::events::{KeyboardEvent, MouseEvent, MouseEventType};
use crate::trusted::uuid_v4_string;
use crate::windowing::EventWindow;

verus! {

/// The behavioral event kinds this producer emits.
#[derive(Clone, Copy, Debug, PartialEq, Eq, Structural)]
pub enum BehaviorKind {
    /// A typing key press.
    Typing,
    /// A click.
    Tap,
    /// Cursor movement or wheel scrolling.
    Scroll,
}

/// One behavioral event: timing, kind, and magnitude data only.
#[derive(Clone, Copy, Debug, PartialEq, Eq, Structural)]
pub struct AdapterEvent {
    /// Milliseconds on the wall clock.
    pub timestamp: u64,
    /// Behavioral kind.
    pub kind: BehaviorKind,
    /// Movement magnitude in thousandths of a unit, when known.
    pub velocity: Option<u64>,
    /// Estimated click duration in milliseconds, for taps.
    pub tap_duration_ms: Option<u32>,
}

/// A behavioral session: one window's events in time order, with identity.
pub struct AdapterSession {
    pub session_id: String,
    pub device_id: String,
    pub timezone: String,
    pub start_ms: u64,
    pub end_ms: u64,
    pub events: Vec<AdapterEvent>,
}

/// The typing event a key press maps to.
pub open spec fn typing_event_of(k: KeyboardEvent) -> AdapterEvent {
    AdapterEvent { timestamp: k.timestamp, kind: BehaviorKind::Typing, velocity: None, tap_duration_ms: None }
}

/// The behavioral event a mouse event maps to: movement and scrolling carry
/// interaction intensity as scroll events, clicks become taps with an
/// estimated duration.
pub open spec fn behavior_of_mouse(m: MouseEvent) -> AdapterEvent {
    match m.event_type {
        MouseEventType::Move => AdapterEvent {
            timestamp: m.timestamp,
            kind: BehaviorKind::Scroll,
            velocity: m.delta_magnitude,
            tap_duration_ms: None,
        },
        MouseEventType::Scroll => AdapterEvent {
            timestamp: m.timestamp,
            kind: BehaviorKind::Scroll,
            velocity: m.delta_magnitude,
            tap_duration_ms: None,
        },
        MouseEventType::LeftClick => AdapterEvent {
            timestamp: m.timestamp,
            kind: BehaviorKind::Tap,
            velocity: None,
            tap_duration_ms: Some(100),
        },
        MouseEventType::RightClick => AdapterEvent {
            timestamp: m.timestamp,
            kind: BehaviorKind::Tap,
            velocity: None,
            tap_duration_ms: Some(100),
        },
    }
}

/// The typing events of the key presses, in order.
pub open spec fn map_keyboard(s: Seq<KeyboardEvent>) -> Seq<AdapterEvent>
    decreases s.len(),
{
    if s.len() == 0 {
        Seq::empty()
    } else {
        map_keyboard(s.drop_last())
            + if s.last().is_key_down { seq![typing_event_of(s.last())] } else { Seq::empty() }
    }
}

/// The behavioral events of the mouse events, in order.
pub open spec fn map_mouse(s: Seq<MouseEvent>) -> Seq<AdapterEvent> {
    s.map_values(|m: MouseEvent| behavior_of_mouse(m))
}

/// Every mapped typing event carries the timestamp of one of the keyboard
/// events.
pub proof fn lemma_map_keyboard_times(s: Seq<KeyboardEvent>)
    ensures
        map_keyboard(s).len() <= s.len(),
        forall|i: int| 0 <= i < map_keyboard(s).len()
            ==> exists|q: int| 0 <= q < s.len()
                && (#[trigger] map_keyboard(s)[i]).timestamp == (#[trigger] s[q]).timestamp,
    decreases s.len(),
{
    if s.len() > 0 {
        let pre = s.drop_last();
        lemma_map_keyboard_times(pre);
        assert forall|i: int| 0 <= i < map_keyboard(s).len()
            implies exists|q: int| 0 <= q < s.len()
                && (#[trigger] map_keyboard(s)[i]).timestamp == (#[trigger] s[q]).timestamp by {
            if i < map_keyboard(pre).len() {
                let q = choose|q: int| 0 <= q < pre.len()
                    && map_keyboard(pre)[i].timestamp == pre[q].timestamp;
                assert(map_keyboard(s)[i].timestamp == s[q].timestamp);
            } else {
                assert(map_keyboard(s)[i].timestamp == s[s.len() - 1].timestamp);
            }
        }
    }
}

/// The events appear in non-decreasing timestamp order.
pub open spec fn events_time_ordered(s: Seq<AdapterEvent>) -> bool {
    forall|i: int, j: int| 0 <= i <= j < s.len()
        ==> (#[trigger] s[i]).timestamp <= (#[trigger] s[j]).timestamp
}

/// Merge two time-ordered event lists into one, keeping every event.
fn merge_by_time(a: Vec<AdapterEvent>, b: Vec<AdapterEvent>) -> (r: Vec<AdapterEvent>)
    requires
        events_time_ordered(a@),
        events_time_ordered(b@),
    ensures
        events_time_ordered(r@),
        r@.to_multiset() == a@.to_multiset().add(b@.to_multiset()),
        r@.len() == a@.len() + b@.len(),
        forall|k: int| 0 <= k < r@.len() ==> a@.contains(#[trigger] r@[k]) || b@.contains(r@[k]),
{
    broadcast use vstd::seq_lib::group_to_multiset_ensures;

    let mut out: Vec<AdapterEvent> = Vec::new();
    let mut i: usize = 0;
    let mut j: usize = 0;
    while i < a.len() || j < b.len()
        invariant
            0 <= i <= a@.len(),
            0 <= j <= b@.len(),
            events_time_ordered(a@),
            events_time_ordered(b@),
            events_time_ordered(out@),
            out@.len() == i + j,
            out@.to_multiset() == a@.take(i as int).to_multiset().add(b@.take(j as int).to_multiset()),
            out@.len() > 0 && i < a@.len() ==> out@.last().timestamp <= a@[i as int].timestamp,
            out@.len() > 0 && j < b@.len() ==> out@.last().timestamp <= b@[j as int].timestamp,
            forall|k: int| 0 <= k < out@.len() ==> a@.contains(#[trigger] out@[k]) || b@.contains(out@[k]),
        decreases a@.len() + b@.len() - i - j,
    {
        let take_a: bool = if i >= a.len() {
            false
        } else if j >= b.len() {
            true
        } else {
            a[i].timestamp <= b[j].timestamp
        };
        if take_a {
            let ghost pre = out@;
            proof {
                assert(a@.take(i + 1) =~= a@.take(i as int).push(a@[i as int]));
            }
            out.push(a[i]);
            proof {
                vstd::seq_lib::to_multiset_build(pre, a@[i as int]);
                assert(out@.to_multiset() == pre.to_multiset().insert(a@[i as int]));
                vstd::seq_lib::to_multiset_build(a@.take(i as int), a@[i as int]);
                assert(a@.take(i + 1).to_multiset() == a@.take(i as int).to_multiset().insert(a@[i as int]));
                assert(a@.take(i as int).to_multiset().insert(a@[i as int]).add(b@.take(j as int).to_multiset())
                    =~= a@.take(i as int).to_multiset().add(b@.take(j as int).to_multiset()).insert(a@[i as int]));
            }
            i = i + 1;
        } else {
            let ghost pre = out@;
            proof {
                assert(b@.take(j + 1) =~= b@.take(j as int).push(b@[j as int]));
            }
            out.push(b[j]);
            proof {
                vstd::seq_lib::to_multiset_build(pre, b@[j as int]);
                assert(out@.to_multiset() == pre.to_multiset().insert(b@[j as int]));
                vstd::seq_lib::to_multiset_build(b@.take(j as int), b@[j as int]);
                assert(b@.take(j + 1).to_multiset() == b@.take(j as int).to_multiset().insert(b@[j as int]));
                assert(a@.take(i as int).to_multiset().add(b@.take(j as int).to_multiset().insert(b@[j as int]))
                    =~= a@.take(i as int).to_multiset().add(b@.take(j as int).to_multiset()).insert(b@[j as int]));
            }
            j = j + 1;
        }
    }
    proof {
        assert(a@.take(a@.len() as int) =~= a@);
        assert(b@.take(b@.len() as int) =~= b@);
    }
    out
}

/// Converts reduced sensor events into behavioral sessions, stamped with a
/// device identity and timezone.
pub struct SensorBehaviorAdapter {
    /// The device identifier stamped on each session.
    pub device_id: String,
    /// The timezone stamped on each session.
    pub timezone: String,
}

impl SensorBehaviorAdapter {
    /// An adapter with the given device and timezone identity.
    pub fn new(device_id: String, timezone: String) -> (r: Self)
        ensures
            r.device_id == device_id,
            r.timezone == timezone,
    {
        SensorBehaviorAdapter { device_id, timezone }
    }

    /// An adapter with a fresh `sensor-` device identifier and the UTC
    /// timezone.
    pub fn with_defaults() -> (r: Self)
        ensures
            r.device_id@.len() == 43,
            r.device_id@.subrange(0, 7) == "sensor-"@,
            r.timezone@ == "UTC"@,
            forall|i: int| 0 <= i < r.device_id@.len()
                ==> (#[trigger] r.device_id@[i]) != '"' && r.device_id@[i] != '\\',
    {
        proof {
            reveal_strlit("sensor-");
        }
        let mut device_id = String::from_str("sensor-");
        device_id.append(uuid_v4_string().as_str());
        proof {
            assert(device_id@.subrange(0, 7) =~= "sensor-"@);
            assert forall|i: int| 0 <= i < device_id@.len()
                implies (#[trigger] device_id@[i]) != '"' && device_id@[i] != '\\' by {
                reveal_strlit("sensor-");
                assert("sensor-"@.len() == 7);
            }
        }
        SensorBehaviorAdapter { device_id, timezone: String::from_str("UTC") }
    }

    /// Convert one window into a behavioral session: key presses, clicks and
    /// movements mapped to behavioral events, merged into time order.
    #[verifier::rlimit(50)]
    pub fn convert(&self, session_id: &str, window: &EventWindow) -> (r: AdapterSession)
        requires
            window@.wf(),
        ensures
            r.session_id@ == session_id@,
            r.device_id@ == self.device_id@,
            r.timezone@ == self.timezone@,
            r.start_ms == window@.start,
            r.end_ms == window@.end,
            events_time_ordered(r.events@),
            r.events@.to_multiset() == (map_keyboard(window@.keyboard_events)
                + map_mouse(window@.mouse_events)).to_multiset(),
            forall|i: int| 0 <= i < r.events@.len()
                ==> window@.start <= (#[trigger] r.events@[i]).timestamp < window@.end,
    {
        broadcast use vstd::seq_lib::group_to_multiset_ensures;

        let ghost kb = window@.keyboard_events;
        let ghost ms = window@.mouse_events;

        // Typing events from key presses, in order.
        let mut typing_events: Vec<AdapterEvent> = Vec::new();
        let mut i: usize = 0;
        let n: usize = window.keyboard_events.len();
        while i < n
            invariant
                0 <= i <= n,
                n == kb.len(),
                kb == window@.keyboard_events,
                window@.wf(),
                typing_events@ == map_keyboard(kb.take(i as int)),
                typing_events@.len() <= i,
                events_time_ordered(typing_events@),
                typing_events@.len() > 0 && i < kb.len()
                    ==> typing_events@.last().timestamp <= kb[i as int].timestamp,
            decreases n - i,
        {
            proof {
                assert(kb.take(i + 1).drop_last() =~= kb.take(i as int));
                assert(kb.take(i + 1).last() == kb[i as int]);
            }
            let e = window.keyboard_events[i];
            if e.is_key_down {
                typing_events.push(AdapterEvent {
                    timestamp: e.timestamp,
                    kind: BehaviorKind::Typing,
                    velocity: None,
                    tap_duration_ms: None,
                });
            }
            proof {
                assert(typing_events@ =~= map_keyboard(kb.take(i + 1)));
            }
            i = i + 1;
        }
        proof {
            assert(kb.take(n as int) =~= kb);
        }

        // Behavioral events from mouse events, in order.
        let mut mouse_events: Vec<AdapterEvent> = Vec::new();
        let mut j: usize = 0;
        let m: usize = window.mouse_events.len();
        while j < m
            invariant
                0 <= j <= m,
                m == ms.len(),
                ms == window@.mouse_events,
                window@.wf(),
                mouse_events@.len() == j,
                forall|k: int| 0 <= k < j ==> #[trigger] mouse_events@[k] == behavior_of_mouse(ms[k]),
            decreases m - j,
        {
            let e = window.mouse_events[j];
            let converted: AdapterEvent = match e.event_type {
                MouseEventType::Move => AdapterEvent {
                    timestamp: e.timestamp,
                    kind: BehaviorKind::Scroll,
                    velocity: e.delta_magnitude,
                    tap_duration_ms: None,
                },
                MouseEventType::Scroll => AdapterEvent {
                    timestamp: e.timestamp,
                    kind: BehaviorKind::Scroll,
                    velocity: e.delta_magnitude,
                    tap_duration_ms: None,
                },
                MouseEventType::LeftClick => AdapterEvent {
                    timestamp: e.timestamp,
                    kind: BehaviorKind::Tap,
                    velocity: None,
                    tap_duration_ms: Some(100),
                },
                MouseEventType::RightClick => AdapterEvent {
                    timestamp: e.timestamp,
                    kind: BehaviorKind::Tap,
                    velocity: None,
                    tap_duration_ms: Some(100),
                },
            };
            mouse_events.push(converted);
            j = j + 1;
        }
        proof {
            assert(mouse_events@ =~= map_mouse(ms));
            assert forall|p: int, q: int| 0 <= p <= q < mouse_events@.len()
                implies (#[trigger] mouse_events@[p]).timestamp <= (#[trigger] mouse_events@[q]).timestamp by {
                assert(mouse_events@[p] == behavior_of_mouse(ms[p]));
                assert(mouse_events@[q] == behavior_of_mouse(ms[q]));
            }
        }

        let ghost a_seq = typing_events@;
        let ghost b_seq = mouse_events@;
        let events = merge_by_time(typing_events, mouse_events);
        proof {
            lemma_multiset_commutative(map_keyboard(kb), map_mouse(ms));
            assert(events@.to_multiset() == a_seq.to_multiset().add(b_seq.to_multiset()));
            assert((map_keyboard(kb) + map_mouse(ms)).to_multiset()
                =~= map_keyboard(kb).to_multiset().add(map_mouse(ms).to_multiset()));
            lemma_map_keyboard_times(kb);
            assert forall|i: int| 0 <= i < events@.len()
                implies window@.start <= (#[trigger] events@[i]).timestamp < window@.end by {
                if a_seq.contains(events@[i]) {
                    let k = choose|k: int| 0 <= k < a_seq.len() && a_seq[k] == events@[i];
                    let q = choose|q: int| 0 <= q < kb.len()
                        && map_keyboard(kb)[k].timestamp == kb[q].timestamp;
                } else {
                    let k = choose|k: int| 0 <= k < b_seq.len() && b_seq[k] == events@[i];
                    assert(b_seq[k] == behavior_of_mouse(ms[k]));
                }
            }
        }

        AdapterSession {
            session_id: String::from_str(session_id),
            device_id: self.device_id.clone(),
            timezone: self.timezone.clone(),
            start_ms: window.start,
            end_ms: window.end,
            events,
        }
    }
}

/// Convert one window into a behavioral session, with the given device
/// identifier or a fresh default identity.
pub fn convert_to_behavior_session(session_id: &str, window: &EventWindow, device_id: Option<&str>) -> (r: AdapterSession)
    requires
        window@.wf(),
    ensures
        r.session_id@ == session_id@,
        events_time_ordered(r.events@),
        r.events@.to_multiset() == (map_keyboard(window@.keyboard_events)
            + map_mouse(window@.mouse_events)).to_multiset(),
{
    let adapter = match device_id {
        Some(id) => SensorBehaviorAdapter::new(String::from_str(id), String::from_str("UTC")),
        None => SensorBehaviorAdapter::with_defaults(),
    };
    adapter.convert(session_id, window)
}

} // verus!
