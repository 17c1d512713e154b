//! Privacy-preserving transparency counters.
//!
//! The log tracks how much was collected — never what. Persistence and
//! sharing across threads belong to the surrounding program.

use vstd::prelude::*;
use vstd::string::StringExecFns;
use crate::strfmt::{push_u64_dec, spec_u64_dec};

verus! {

/// Counters of processed events, completed windows and exported snapshots.
#[derive(Clone, Copy, Debug, PartialEq, Eq, Structural)]
pub struct TransparencyLog {
    /// Keyboard events processed.
    pub keyboard_events: u64,
    /// Mouse events processed.
    pub mouse_events: u64,
    /// Windows completed.
    pub windows_completed: u64,
    /// Snapshots exported.
    pub snapshots_exported: u64,
    /// Session start, in milliseconds.
    pub session_start: u64,
}

/// A point-in-time copy of the counters, with the session duration.
#[derive(Clone, Copy, Debug, PartialEq, Eq, Structural)]
pub struct TransparencyStats {
    pub keyboard_events: u64,
    pub mouse_events: u64,
    pub windows_completed: u64,
    pub snapshots_exported: u64,
    pub session_start: u64,
    pub session_duration_secs: u64,
}

impl TransparencyLog {
    /// A fresh log with all counters at zero.
    pub fn new(session_start_ms: u64) -> (r: Self)
        ensures
            r == (TransparencyLog {
                keyboard_events: 0,
                mouse_events: 0,
                windows_completed: 0,
                snapshots_exported: 0,
                session_start: session_start_ms,
            }),
    {
        TransparencyLog {
            keyboard_events: 0,
            mouse_events: 0,
            windows_completed: 0,
            snapshots_exported: 0,
            session_start: session_start_ms,
        }
    }

    /// Count one keyboard event.
    pub fn record_keyboard_event(&mut self)
        requires
            old(self).keyboard_events < u64::MAX,
        ensures
            *final(self) == (TransparencyLog {
                keyboard_events: (old(self).keyboard_events + 1) as u64,
                ..*old(self)
            }),
    {
        self.keyboard_events = self.keyboard_events + 1;
    }

    /// Count several keyboard events.
    pub fn record_keyboard_events(&mut self, count: u64)
        requires
            old(self).keyboard_events + count <= u64::MAX,
        ensures
            *final(self) == (TransparencyLog {
                keyboard_events: (old(self).keyboard_events + count) as u64,
                ..*old(self)
            }),
    {
        self.keyboard_events = self.keyboard_events + count;
    }

    /// Count one mouse event.
    pub fn record_mouse_event(&mut self)
        requires
            old(self).mouse_events < u64::MAX,
        ensures
            *final(self) == (TransparencyLog {
                mouse_events: (old(self).mouse_events + 1) as u64,
                ..*old(self)
            }),
    {
        self.mouse_events = self.mouse_events + 1;
    }

    /// Count several mouse events.
    pub fn record_mouse_events(&mut self, count: u64)
        requires
            old(self).mouse_events + count <= u64::MAX,
        ensures
            *final(self) == (TransparencyLog {
                mouse_events: (old(self).mouse_events + count) as u64,
                ..*old(self)
            }),
    {
        self.mouse_events = self.mouse_events + count;
    }

    /// Count one completed window.
    pub fn record_window_completed(&mut self)
        requires
            old(self).windows_completed < u64::MAX,
        ensures
            *final(self) == (TransparencyLog {
                windows_completed: (old(self).windows_completed + 1) as u64,
                ..*old(self)
            }),
    {
        self.windows_completed = self.windows_completed + 1;
    }

    /// Count one exported snapshot.
    pub fn record_snapshot_exported(&mut self)
        requires
            old(self).snapshots_exported < u64::MAX,
        ensures
            *final(self) == (TransparencyLog {
                snapshots_exported: (old(self).snapshots_exported + 1) as u64,
                ..*old(self)
            }),
    {
        self.snapshots_exported = self.snapshots_exported + 1;
    }

    /// The current statistics, with the session duration up to `now_ms`.
    pub fn stats(&self, now_ms: u64) -> (r: TransparencyStats)
        ensures
            r.keyboard_events == self.keyboard_events,
            r.mouse_events == self.mouse_events,
            r.windows_completed == self.windows_completed,
            r.snapshots_exported == self.snapshots_exported,
            r.session_start == self.session_start,
            r.session_duration_secs == spec_duration_secs(*self, now_ms),
    {
        TransparencyStats {
            keyboard_events: self.keyboard_events,
            mouse_events: self.mouse_events,
            windows_completed: self.windows_completed,
            snapshots_exported: self.snapshots_exported,
            session_start: self.session_start,
            session_duration_secs: if now_ms >= self.session_start {
                (now_ms - self.session_start) / 1000
            } else {
                0
            },
        }
    }

    /// A readable summary of the counters and the privacy guarantee.
    #[verifier::rlimit(50)]
    pub fn summary(&self, now_ms: u64) -> (r: String)
        ensures
            r@ == spec_summary_counts(*self, now_ms) + spec_summary_privacy(),
    {
        let stats = self.stats(now_ms);
        let mut out = String::from_str("Session Statistics:\n- Keyboard events processed: ");
        push_u64_dec(&mut out, stats.keyboard_events);
        out.append("\n- Mouse events processed: ");
        push_u64_dec(&mut out, stats.mouse_events);
        proof {
            assert(out@ =~= "Session Statistics:\n- Keyboard events processed: "@
                + spec_u64_dec(self.keyboard_events as int)
                + "\n- Mouse events processed: "@ + spec_u64_dec(self.mouse_events as int));
        }
        let ghost c1 = out@;
        out.append("\n- Windows completed: ");
        push_u64_dec(&mut out, stats.windows_completed);
        out.append("\n- Snapshots exported: ");
        push_u64_dec(&mut out, stats.snapshots_exported);
        out.append("\n- Session duration: ");
        push_u64_dec(&mut out, stats.session_duration_secs);
        proof {
            assert(out@ =~= c1 + "\n- Windows completed: "@ + spec_u64_dec(self.windows_completed as int)
                + "\n- Snapshots exported: "@ + spec_u64_dec(self.snapshots_exported as int)
                + "\n- Session duration: "@ + spec_u64_dec(spec_duration_secs(*self, now_ms) as int));
            assert(out@ =~= spec_summary_counts(*self, now_ms));
        }
        out.append(" seconds\n\nPrivacy Guarantee:\n- No key content captured\n- No cursor coordinates captured\n- Only timing and magnitude data retained");
        proof {
            assert(out@ =~= spec_summary_counts(*self, now_ms) + spec_summary_privacy());
        }
        out
    }

    /// Reset all counters; the session start stays.
    pub fn reset(&mut self)
        ensures
            *final(self) == (TransparencyLog {
                keyboard_events: 0,
                mouse_events: 0,
                windows_completed: 0,
                snapshots_exported: 0,
                session_start: old(self).session_start,
            }),
    {
        self.keyboard_events = 0;
        self.mouse_events = 0;
        self.windows_completed = 0;
        self.snapshots_exported = 0;
    }
}

/// The session duration in whole seconds, never negative.
pub open spec fn spec_duration_secs(log: TransparencyLog, now_ms: u64) -> u64 {
    if now_ms >= log.session_start {
        ((now_ms - log.session_start) / 1000) as u64
    } else {
        0u64
    }
}

/// The counter section of the summary.
pub open spec fn spec_summary_counts(log: TransparencyLog, now_ms: u64) -> Seq<char> {
    "Session Statistics:\n- Keyboard events processed: "@ + spec_u64_dec(log.keyboard_events as int)
        + "\n- Mouse events processed: "@ + spec_u64_dec(log.mouse_events as int)
        + "\n- Windows completed: "@ + spec_u64_dec(log.windows_completed as int)
        + "\n- Snapshots exported: "@ + spec_u64_dec(log.snapshots_exported as int)
        + "\n- Session duration: "@ + spec_u64_dec(spec_duration_secs(log, now_ms) as int)
}

/// The fixed privacy text of the summary.
pub open spec fn spec_summary_privacy() -> Seq<char> {
    " seconds\n\nPrivacy Guarantee:\n- No key content captured\n- No cursor coordinates captured\n- Only timing and magnitude data retained"@
}

} // verus!
