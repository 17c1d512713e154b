//! Collection of events into fixed-duration time windows.
//!
//! Events are assigned to windows of a configured duration (ten seconds by
//! default). A gap between consecutive events beyond the configured session
//! threshold closes the open window and marks the next one as the start of a
//! new behavioral session. Empty windows are discarded at close time and are
//! never surfaced as completed.

use vstd::prelude::*;
use crate::events::{KeyboardEvent, MouseEvent, SensorEvent, spec_event_timestamp, mouse_event_wf};

verus! {

/// Upper bound on a window duration, in milliseconds. Keeps all interval
/// arithmetic over a window's events comfortably inside machine integers.
pub const MAX_WINDOW_MS: u64 = 1_000_000_000;

/// Mathematical model of an event window.
#[verifier::ext_equal]
pub struct WindowV {
    pub start: u64,
    pub end: u64,
    pub keyboard_events: Seq<KeyboardEvent>,
    pub mouse_events: Seq<MouseEvent>,
    pub is_session_start: bool,
}

impl WindowV {
    /// The window is internally consistent: bounded duration, bounded event
    /// counts, every event timestamp within `[start, end)`, events in
    /// non-decreasing time order, and magnitudes within the model's bound.
    pub open spec fn wf(self) -> bool {
        &&& self.start <= self.end
        &&& self.end - self.start <= MAX_WINDOW_MS
        &&& self.keyboard_events.len() <= u32::MAX
        &&& self.mouse_events.len() <= u32::MAX
        &&& forall|i: int| 0 <= i < self.keyboard_events.len()
            ==> self.start <= (#[trigger] self.keyboard_events[i]).timestamp < self.end
        &&& forall|i: int| 0 <= i < self.mouse_events.len()
            ==> self.start <= (#[trigger] self.mouse_events[i]).timestamp < self.end
        &&& forall|i: int| 0 <= i < self.mouse_events.len() ==> mouse_event_wf(#[trigger] self.mouse_events[i])
        &&& forall|i: int, j: int| 0 <= i <= j < self.keyboard_events.len()
            ==> (#[trigger] self.keyboard_events[i]).timestamp <= (#[trigger] self.keyboard_events[j]).timestamp
        &&& forall|i: int, j: int| 0 <= i <= j < self.mouse_events.len()
            ==> (#[trigger] self.mouse_events[i]).timestamp <= (#[trigger] self.mouse_events[j]).timestamp
    }

    /// The window holds no events.
    pub open spec fn is_empty(self) -> bool {
        self.keyboard_events.len() == 0 && self.mouse_events.len() == 0
    }

    /// A timestamp falls within the window.
    pub open spec fn spec_contains(self, timestamp: u64) -> bool {
        self.start <= timestamp && timestamp < self.end
    }

    /// Every event already in the window is no later than `t`.
    pub open spec fn all_at_most(self, t: u64) -> bool {
        &&& forall|i: int| 0 <= i < self.keyboard_events.len()
            ==> (#[trigger] self.keyboard_events[i]).timestamp <= t
        &&& forall|i: int| 0 <= i < self.mouse_events.len()
            ==> (#[trigger] self.mouse_events[i]).timestamp <= t
    }
}

/// The window resulting from appending one event.
pub open spec fn push_event(w: WindowV, e: SensorEvent) -> WindowV {
    match e {
        SensorEvent::Keyboard(k) => WindowV { keyboard_events: w.keyboard_events.push(k), ..w },
        SensorEvent::Mouse(m) => WindowV { mouse_events: w.mouse_events.push(m), ..w },
    }
}

/// A freshly opened window anchored at `start`.
pub open spec fn fresh_window(start: u64, duration: u64, is_session_start: bool) -> WindowV {
    WindowV {
        start,
        end: (start + duration) as u64,
        keyboard_events: Seq::empty(),
        mouse_events: Seq::empty(),
        is_session_start,
    }
}

/// A mutable accumulator of events for one fixed-duration window.
pub struct EventWindow {
    /// Start time of the window, in milliseconds.
    pub start: u64,
    /// End time of the window (`start` plus the window duration).
    pub end: u64,
    /// Keyboard events in arrival order.
    pub keyboard_events: Vec<KeyboardEvent>,
    /// Mouse events in arrival order.
    pub mouse_events: Vec<MouseEvent>,
    /// Whether this window opened a new behavioral session.
    pub is_session_start: bool,
}

impl View for EventWindow {
    type V = WindowV;

    open spec fn view(&self) -> WindowV {
        WindowV {
            start: self.start,
            end: self.end,
            keyboard_events: self.keyboard_events@,
            mouse_events: self.mouse_events@,
            is_session_start: self.is_session_start,
        }
    }
}

impl EventWindow {
    /// A new empty window of the given duration (milliseconds), anchored at
    /// `start`.
    pub fn new(start: u64, duration_ms: u64) -> (r: Self)
        requires
            duration_ms <= MAX_WINDOW_MS,
            start + duration_ms <= u64::MAX,
        ensures
            r@ == fresh_window(start, duration_ms, false),
            r@.wf(),
    {
        let r = EventWindow {
            start,
            end: start + duration_ms,
            keyboard_events: Vec::new(),
            mouse_events: Vec::new(),
            is_session_start: false,
        };
        proof {
            assert(r@ =~= fresh_window(start, duration_ms, false));
        }
        r
    }

    /// Whether a timestamp falls within this window.
    pub fn contains(&self, timestamp: u64) -> (r: bool)
        ensures
            r == self@.spec_contains(timestamp),
    {
        timestamp >= self.start && timestamp < self.end
    }

    /// Append an event. The event must fall inside the window, arrive no
    /// earlier than the events already present, and leave the event counts
    /// within bounds.
    pub fn add_event(&mut self, event: SensorEvent)
        requires
            old(self)@.wf(),
            old(self)@.spec_contains(spec_event_timestamp(event)),
            old(self)@.all_at_most(spec_event_timestamp(event)),
            old(self)@.keyboard_events.len() < u32::MAX,
            old(self)@.mouse_events.len() < u32::MAX,
            event matches SensorEvent::Mouse(m) ==> mouse_event_wf(m),
        ensures
            final(self)@ == push_event(old(self)@, event),
            final(self)@.wf(),
    {
        match event {
            SensorEvent::Keyboard(e) => self.keyboard_events.push(e),
            SensorEvent::Mouse(e) => self.mouse_events.push(e),
        }
        proof {
            assert(final(self)@ =~= push_event(old(self)@, event));
        }
    }

    /// Whether the window has no events.
    pub fn is_empty(&self) -> (r: bool)
        ensures
            r == self@.is_empty(),
    {
        self.keyboard_events.len() == 0 && self.mouse_events.len() == 0
    }

    /// Total number of events in the window.
    pub fn event_count(&self) -> (r: u64)
        requires
            self@.wf(),
        ensures
            r == self@.keyboard_events.len() + self@.mouse_events.len(),
    {
        self.keyboard_events.len() as u64 + self.mouse_events.len() as u64
    }

    /// Duration of the window in milliseconds.
    pub fn duration_ms(&self) -> (r: u64)
        requires
            self@.start <= self@.end,
        ensures
            r == self@.end - self@.start,
    {
        self.end - self.start
    }
}

/// Mathematical model of the window manager.
#[verifier::ext_equal]
pub struct ManagerV {
    pub window_duration: u64,
    pub session_gap_threshold: u64,
    pub current_window: Option<WindowV>,
    pub completed_windows: Seq<WindowV>,
    pub last_event_time: Option<u64>,
}

impl ManagerV {
    /// The manager is internally consistent: a positive bounded window
    /// duration; an open window, if any, is well formed, spans exactly the
    /// configured duration, and the last observed event falls inside it and
    /// no earlier than its contents; completed windows are well formed and
    /// non-empty.
    pub open spec fn wf(self) -> bool {
        &&& 1 <= self.window_duration <= MAX_WINDOW_MS
        &&& match self.current_window {
            Some(w) => {
                &&& w.wf()
                &&& w.end == w.start + self.window_duration
                &&& match self.last_event_time {
                    Some(t) => w.spec_contains(t) && w.all_at_most(t),
                    None => false,
                }
            },
            None => true,
        }
        &&& forall|i: int| 0 <= i < self.completed_windows.len()
            ==> (#[trigger] self.completed_windows[i]).wf() && !self.completed_windows[i].is_empty()
    }

    /// An event at time `t` opens a new session: either no event has been
    /// seen, or the gap since the last one exceeds the session threshold.
    pub open spec fn is_new_session(self, t: u64) -> bool {
        match self.last_event_time {
            None => true,
            Some(last) => t > last + self.session_gap_threshold,
        }
    }
}

/// The manager after closing the open window, if any: a non-empty window
/// moves to the completed set; an empty one is discarded.
pub open spec fn close_current(m: ManagerV) -> ManagerV {
    match m.current_window {
        None => m,
        Some(w) => ManagerV {
            current_window: None,
            completed_windows: if w.is_empty() { m.completed_windows } else { m.completed_windows.push(w) },
            ..m
        },
    }
}

/// The manager after processing one event: a session boundary closes the open
/// window; an event past the open window's end closes it too; the event is
/// then appended to the (possibly freshly opened) current window, which is
/// anchored at the event's own timestamp and tagged as a session start when a
/// boundary was detected.
pub open spec fn process_step(m: ManagerV, e: SensorEvent) -> ManagerV {
    let t = spec_event_timestamp(e);
    let new_session = m.is_new_session(t);
    let m1 = if new_session { close_current(m) } else { m };
    let m2 = match m1.current_window {
        None => ManagerV {
            current_window: Some(fresh_window(t, m.window_duration, new_session)),
            ..m1
        },
        Some(w) => {
            if t >= w.end {
                ManagerV {
                    current_window: Some(fresh_window(t, m.window_duration, new_session)),
                    ..close_current(m1)
                }
            } else {
                m1
            }
        },
    };
    let m3 = ManagerV {
        current_window: Some(push_event(m2.current_window->Some_0, e)),
        ..m2
    };
    ManagerV { last_event_time: Some(t), ..m3 }
}

/// Assigns incoming events to fixed-duration windows and detects session
/// boundaries from input gaps. Single-threaded by design: the channel receive
/// loop is its sole mutator.
pub struct WindowManager {
    /// Duration of each window, in milliseconds.
    pub window_duration: u64,
    /// Gap threshold for session boundaries, in milliseconds.
    pub session_gap_threshold: u64,
    /// Window currently being filled.
    pub current_window: Option<EventWindow>,
    /// Completed windows, in close order, awaiting collection.
    pub completed_windows: Vec<EventWindow>,
    /// Timestamp of the last event received.
    pub last_event_time: Option<u64>,
}

impl View for WindowManager {
    type V = ManagerV;

    open spec fn view(&self) -> ManagerV {
        ManagerV {
            window_duration: self.window_duration,
            session_gap_threshold: self.session_gap_threshold,
            current_window: match self.current_window {
                Some(w) => Some(w@),
                None => None,
            },
            completed_windows: self.completed_windows@.map_values(|w: EventWindow| w@),
            last_event_time: self.last_event_time,
        }
    }
}

impl WindowManager {
    /// A new manager with the window duration and session gap threshold given
    /// in seconds.
    pub fn new(window_duration_secs: u64, session_gap_threshold_secs: u64) -> (r: Self)
        requires
            1 <= window_duration_secs,
            window_duration_secs * 1000 <= MAX_WINDOW_MS,
            session_gap_threshold_secs * 1000 <= u64::MAX,
        ensures
            r@ == (ManagerV {
                window_duration: (window_duration_secs * 1000) as u64,
                session_gap_threshold: (session_gap_threshold_secs * 1000) as u64,
                current_window: None,
                completed_windows: Seq::empty(),
                last_event_time: None,
            }),
            r@.wf(),
    {
        let r = WindowManager {
            window_duration: window_duration_secs * 1000,
            session_gap_threshold: session_gap_threshold_secs * 1000,
            current_window: None,
            completed_windows: Vec::new(),
            last_event_time: None,
        };
        proof {
            assert(r@ =~= ManagerV {
                window_duration: (window_duration_secs * 1000) as u64,
                session_gap_threshold: (session_gap_threshold_secs * 1000) as u64,
                current_window: None,
                completed_windows: Seq::empty(),
                last_event_time: None,
            });
        }
        r
    }

    /// Close the current window, moving it to the completed set when it is
    /// non-empty and discarding it otherwise.
    fn complete_current_window(&mut self)
        requires
            old(self)@.wf(),
        ensures
            final(self)@ == close_current(old(self)@),
            final(self)@.wf(),
            final(self)@.current_window is None,
    {
        let ghost pre = self@;
        match self.current_window.take() {
            None => {
                proof {
                    assert(self@ =~= close_current(pre));
                }
            },
            Some(window) => {
                if !window.is_empty() {
                    self.completed_windows.push(window);
                }
                proof {
                    assert(self@.completed_windows =~= close_current(pre).completed_windows);
                    assert(self@ =~= close_current(pre));
                }
            },
        }
    }

    /// Process one incoming event, closing and opening windows as the session
    /// and expiry rules require, and appending the event to the open window.
    ///
    /// Events must arrive in non-decreasing timestamp order.
    pub fn process_event(&mut self, event: SensorEvent)
        requires
            old(self)@.wf(),
            spec_event_timestamp(event) + old(self)@.window_duration <= u64::MAX,
            old(self)@.last_event_time matches Some(t) ==> t <= spec_event_timestamp(event),
            event matches SensorEvent::Mouse(m) ==> mouse_event_wf(m),
            old(self)@.current_window matches Some(w)
                ==> w.keyboard_events.len() < u32::MAX && w.mouse_events.len() < u32::MAX,
        ensures
            final(self)@ == process_step(old(self)@, event),
            final(self)@.wf(),
    {
        let ghost pre = self@;
        let event_time = event.timestamp();

        let is_new_session = match self.last_event_time {
            Some(last_time) => event_time - last_time > self.session_gap_threshold,
            None => true,
        };
        assert(is_new_session == pre.is_new_session(event_time));

        if is_new_session && self.current_window.is_some() {
            self.complete_current_window();
        }
        let ghost m1 = if pre.is_new_session(event_time) { close_current(pre) } else { pre };
        assert(self@ == m1);

        if self.current_window.is_none() {
            let mut window = EventWindow::new(event_time, self.window_duration);
            window.is_session_start = is_new_session;
            self.current_window = Some(window);
            proof {
                assert(self@.current_window->Some_0 =~= fresh_window(event_time, pre.window_duration, is_new_session));
            }
        } else {
            let end = match &self.current_window {
                Some(w) => w.end,
                None => 0,
            };
            if event_time >= end {
                self.complete_current_window();
                let mut window = EventWindow::new(event_time, self.window_duration);
                window.is_session_start = is_new_session;
                self.current_window = Some(window);
                proof {
                    assert(self@.current_window->Some_0 =~= fresh_window(event_time, pre.window_duration, is_new_session));
                }
            }
        }
        let ghost m2 = match m1.current_window {
            None => ManagerV {
                current_window: Some(fresh_window(event_time, pre.window_duration, pre.is_new_session(event_time))),
                ..m1
            },
            Some(w) => {
                if event_time >= w.end {
                    ManagerV {
                        current_window: Some(fresh_window(event_time, pre.window_duration, pre.is_new_session(event_time))),
                        ..close_current(m1)
                    }
                } else {
                    m1
                }
            },
        };
        proof {
            assert(self@ =~= m2);
        }

        if let Some(ref mut window) = self.current_window {
            window.add_event(event);
        }
        self.last_event_time = Some(event_time);
        proof {
            assert(self@ =~= process_step(pre, event));
        }
    }

    /// Unconditionally close the current window (used on pause or shutdown).
    pub fn flush(&mut self)
        requires
            old(self)@.wf(),
        ensures
            final(self)@ == close_current(old(self)@),
            final(self)@.wf(),
    {
        self.complete_current_window();
    }

    /// Drain and return the completed windows, in close order. Every returned
    /// window is well formed and non-empty.
    pub fn take_completed_windows(&mut self) -> (r: Vec<EventWindow>)
        requires
            old(self)@.wf(),
        ensures
            r@.map_values(|w: EventWindow| w@) == old(self)@.completed_windows,
            final(self)@ == (ManagerV { completed_windows: Seq::empty(), ..old(self)@ }),
            final(self)@.wf(),
            forall|i: int| 0 <= i < r@.len() ==> (#[trigger] r@[i])@.wf() && !r@[i]@.is_empty(),
    {
        let mut out: Vec<EventWindow> = Vec::new();
        core::mem::swap(&mut out, &mut self.completed_windows);
        proof {
            assert(final(self)@ =~= ManagerV { completed_windows: Seq::empty(), ..old(self)@ });
            assert(out@.map_values(|w: EventWindow| w@) =~= old(self)@.completed_windows);
            assert(forall|i: int| 0 <= i < out@.len()
                ==> (#[trigger] out@[i])@ == old(self)@.completed_windows[i]);
        }
        out
    }

    /// Whether completed windows are waiting to be collected.
    pub fn has_completed_windows(&self) -> (r: bool)
        ensures
            r == (self@.completed_windows.len() > 0),
    {
        self.completed_windows.len() > 0
    }

    /// Number of completed windows waiting to be collected.
    pub fn completed_window_count(&self) -> (r: usize)
        ensures
            r == self@.completed_windows.len(),
    {
        self.completed_windows.len()
    }

    /// Close the current window if its end time has passed, even with no new
    /// events.
    pub fn check_window_expiry(&mut self, now: u64)
        requires
            old(self)@.wf(),
        ensures
            final(self)@ == (if old(self)@.current_window matches Some(w) && now >= w.end {
                close_current(old(self)@)
            } else {
                old(self)@
            }),
            final(self)@.wf(),
    {
        let expired = match &self.current_window {
            Some(window) => now >= window.end,
            None => false,
        };
        if expired {
            self.complete_current_window();
        }
    }
}

/// Number of events a window holds.
pub open spec fn window_event_count(w: WindowV) -> int {
    w.keyboard_events.len() as int + w.mouse_events.len() as int
}

/// Total number of events held across a sequence of windows.
pub open spec fn windows_event_sum(ws: Seq<WindowV>) -> int
    decreases ws.len(),
{
    if ws.len() == 0 { 0 } else { windows_event_sum(ws.drop_last()) + window_event_count(ws.last()) }
}

/// Total number of events the manager holds, across the open window and the
/// completed set.
pub open spec fn total_event_count(m: ManagerV) -> int {
    windows_event_sum(m.completed_windows) + match m.current_window {
        Some(w) => window_event_count(w),
        None => 0,
    }
}

/// Closing the open window moves its events, never duplicating or dropping
/// one: only a window with no events is discarded.
pub proof fn lemma_close_preserves_events(m: ManagerV)
    ensures
        total_event_count(close_current(m)) == total_event_count(m),
{
    match m.current_window {
        None => {},
        Some(w) => {
            if !w.is_empty() {
                assert(m.completed_windows.push(w).drop_last() =~= m.completed_windows);
            }
        },
    }
}

/// Every event is assigned to exactly one window: processing one event grows
/// the total number of events held across the open and completed windows by
/// exactly one.
pub proof fn lemma_event_assigned_once(m: ManagerV, e: SensorEvent)
    ensures
        total_event_count(process_step(m, e)) == total_event_count(m) + 1,
{
    let t = spec_event_timestamp(e);
    let new_session = m.is_new_session(t);
    let m1 = if new_session { close_current(m) } else { m };
    if new_session {
        lemma_close_preserves_events(m);
    }
    match m1.current_window {
        None => {},
        Some(w) => {
            if t >= w.end {
                lemma_close_preserves_events(m1);
            }
        },
    }
}

/// Closing is idempotent: closing an already-closed (or never-opened) window
/// slot changes nothing, so a second `flush` after any `flush` is a no-op and
/// surfaces no window.
pub proof fn lemma_flush_idempotent(m: ManagerV)
    ensures
        close_current(close_current(m)) == close_current(m),
        m.current_window is None ==> close_current(m) == m,
{
    assert(close_current(close_current(m)) =~= close_current(m));
    if m.current_window is None {
        assert(close_current(m) =~= m);
    }
}

/// Every event of a window lies within the window's own `[start, end)`.
pub open spec fn window_contains_its_events(w: WindowV) -> bool {
    &&& forall|i: int| 0 <= i < w.keyboard_events.len()
        ==> w.start <= (#[trigger] w.keyboard_events[i]).timestamp < w.end
    &&& forall|i: int| 0 <= i < w.mouse_events.len()
        ==> w.start <= (#[trigger] w.mouse_events[i]).timestamp < w.end
}

/// Every window a well-formed manager holds — open or completed — contains
/// only events whose timestamps lie within the window's own `[start, end)`,
/// and every completed window is non-empty.
pub proof fn lemma_manager_windows_within_bounds(m: ManagerV)
    requires
        m.wf(),
    ensures
        m.current_window matches Some(w) ==> window_contains_its_events(w),
        forall|i: int| 0 <= i < m.completed_windows.len()
            ==> window_contains_its_events(#[trigger] m.completed_windows[i])
                && !m.completed_windows[i].is_empty(),
{
}

/// A session boundary closes the open window even if its duration has not
/// elapsed, and the next window opens at the event's own timestamp with
/// `is_session_start` set.
pub proof fn lemma_session_boundary(m: ManagerV, e: SensorEvent)
    requires
        m.wf(),
        m.is_new_session(spec_event_timestamp(e)),
    ensures
        process_step(m, e).current_window matches Some(w) && w.is_session_start
            && w.start == spec_event_timestamp(e),
        match m.current_window {
            Some(w) => process_step(m, e).completed_windows
                == if w.is_empty() { m.completed_windows } else { m.completed_windows.push(w) },
            None => process_step(m, e).completed_windows == m.completed_windows,
        },
{
    let t = spec_event_timestamp(e);
    let m1 = close_current(m);
    assert(m1.current_window is None);
}

} // verus!
