//! Parsing of canonical snapshot JSON.
//!
//! The parser accepts exactly the canonical form the renderer produces. Any
//! accepted document is guaranteed — by a final re-rendering check — to be
//! the canonical JSON of the returned snapshot, so parsing is sound by
//! construction: a successful parse can never misreport a document.

use vstd::prelude::*;
use vstd::string::StringExecFns;
use vstd::string::StrSliceExecFns;
use crate::hsi::{
    HsiAxes, HsiAxesDomain, HsiAxisReading, HsiDirection, HsiMeta, HsiPrivacy, HsiProducer,
    HsiSnapshot, HsiSource, HsiSourceType, HsiWindow,
};
use crate::jsonout::{snapshot_json_safe, snapshot_to_json, spec_snapshot_json};

verus! {

/// Consume an expected literal, returning the position after it.
fn expect_lit(b: &[u8], i: usize, lit: &str) -> (r: Option<usize>)
    requires
        i <= b@.len(),
    ensures
        r matches Some(j) ==> i <= j <= b@.len(),
{
    let lb: &[u8] = lit.as_bytes();
    if b.len() - i < lb.len() {
        return None;
    }
    let n: usize = lb.len();
    let blen: usize = b.len();
    let mut k: usize = 0;
    while k < n
        invariant
            0 <= k <= n,
            n == lb@.len(),
            i + n <= b@.len(),
            blen == b@.len(),
        decreases n - k,
    {
        if b[i + k] != lb[k] {
            return None;
        }
        k = k + 1;
    }
    Some(i + n)
}

/// Consume a quoted string of JSON-safe characters, returning its contents.
fn parse_string<'a>(s: &'a str, b: &[u8], i: usize) -> (r: Option<(String, usize)>)
    requires
        vstd::string::is_ascii(s),
        b@.len() == s@.len(),
        i <= b@.len(),
    ensures
        r matches Some(p) ==> i <= p.1 <= b@.len(),
{
    broadcast use vstd::string::group_string_axioms;

    if i >= b.len() || b[i] != 0x22 {
        return None;
    }
    let mut j: usize = i + 1;
    while j < b.len() && b[j] != 0x22
        invariant
            i + 1 <= j <= b@.len(),
        decreases b@.len() - j,
    {
        let c: u8 = b[j];
        if c < 0x20 || c > 0x7e || c == 0x5c {
            return None;
        }
        j = j + 1;
    }
    if j >= b.len() {
        return None;
    }
    let contents = s.substring_ascii(i + 1, j).to_owned();
    Some((contents, j + 1))
}

/// Consume an unsigned decimal integer.
fn parse_u64(b: &[u8], i: usize) -> (r: Option<(u64, usize)>)
    requires
        i <= b@.len(),
    ensures
        r matches Some(p) ==> i <= p.1 <= b@.len(),
{
    let mut j: usize = i;
    let mut value: u64 = 0;
    let mut seen: bool = false;
    while j < b.len() && b[j] >= 0x30 && b[j] <= 0x39
        invariant
            i <= j <= b@.len(),
        decreases b@.len() - j,
    {
        let d: u64 = (b[j] - 0x30) as u64;
        if value > (u64::MAX - d) / 10 {
            return None;
        }
        value = value * 10 + d;
        seen = true;
        j = j + 1;
    }
    if !seen {
        return None;
    }
    Some((value, j))
}

/// Consume a fixed-point value with exactly three fractional digits,
/// returning it in thousandths.
fn parse_milli(b: &[u8], i: usize) -> (r: Option<(u64, usize)>)
    requires
        i <= b@.len(),
    ensures
        r matches Some(p) ==> i <= p.1 <= b@.len(),
{
    let (whole, j) = match parse_u64(b, i) {
        Some(p) => p,
        None => {
            return None;
        },
    };
    let j2 = match expect_lit(b, j, ".") {
        Some(p) => p,
        None => {
            return None;
        },
    };
    if b.len() - j2 < 3 {
        return None;
    }
    let blen: usize = b.len();
    let mut frac: u64 = 0;
    let mut k: usize = 0;
    while k < 3
        invariant
            0 <= k <= 3,
            j2 + 3 <= b@.len(),
            blen == b@.len(),
            frac < (if k == 0 { 1u64 } else if k == 1 { 10u64 } else if k == 2 { 100u64 } else { 1000u64 }),
        decreases 3 - k,
    {
        let c: u8 = b[j2 + k];
        if c < 0x30 || c > 0x39 {
            return None;
        }
        frac = frac * 10 + (c - 0x30) as u64;
        k = k + 1;
    }
    if whole > (u64::MAX - frac) / 1000 {
        return None;
    }
    Some((whole * 1000 + frac, j2 + 3))
}

/// Consume a boolean token.
fn parse_bool(b: &[u8], i: usize) -> (r: Option<(bool, usize)>)
    requires
        i <= b@.len(),
    ensures
        r matches Some(p) ==> i <= p.1 <= b@.len(),
{
    match expect_lit(b, i, "true") {
        Some(j) => Some((true, j)),
        None => match expect_lit(b, i, "false") {
            Some(j) => Some((false, j)),
            None => None,
        },
    }
}

/// Consume a direction name.
fn parse_direction(b: &[u8], i: usize) -> (r: Option<(HsiDirection, usize)>)
    requires
        i <= b@.len(),
    ensures
        r matches Some(p) ==> i <= p.1 <= b@.len(),
{
    match expect_lit(b, i, "\"higher_is_more\"") {
        Some(j) => Some((HsiDirection::HigherIsMore, j)),
        None => match expect_lit(b, i, "\"higher_is_less\"") {
            Some(j) => Some((HsiDirection::HigherIsLess, j)),
            None => match expect_lit(b, i, "\"bidirectional\"") {
                Some(j) => Some((HsiDirection::Bidirectional, j)),
                None => None,
            },
        },
    }
}

/// Consume a source type name.
fn parse_source_type(b: &[u8], i: usize) -> (r: Option<(HsiSourceType, usize)>)
    requires
        i <= b@.len(),
    ensures
        r matches Some(p) ==> i <= p.1 <= b@.len(),
{
    match expect_lit(b, i, "\"sensor\"") {
        Some(j) => Some((HsiSourceType::Sensor, j)),
        None => match expect_lit(b, i, "\"app\"") {
            Some(j) => Some((HsiSourceType::App, j)),
            None => match expect_lit(b, i, "\"self_report\"") {
                Some(j) => Some((HsiSourceType::SelfReport, j)),
                None => match expect_lit(b, i, "\"observer\"") {
                    Some(j) => Some((HsiSourceType::Observer, j)),
                    None => match expect_lit(b, i, "\"derived\"") {
                        Some(j) => Some((HsiSourceType::Derived, j)),
                        None => match expect_lit(b, i, "\"other\"") {
                            Some(j) => Some((HsiSourceType::Other, j)),
                            None => None,
                        },
                    },
                },
            },
        },
    }
}

/// Consume an optional string field written as `,"label":"..."`.
fn parse_opt_str<'a>(s: &'a str, b: &[u8], i: usize, label: &str) -> (r: Option<(Option<String>, usize)>)
    requires
        vstd::string::is_ascii(s),
        b@.len() == s@.len(),
        i <= b@.len(),
    ensures
        r matches Some(p) ==> i <= p.1 <= b@.len(),
{
    // The field starts with a comma, a quoted label, and a colon.
    let j0 = match expect_lit(b, i, ",\"") {
        Some(j) => j,
        None => {
            return Some((None, i));
        },
    };
    let j1 = match expect_lit(b, j0, label) {
        Some(j) => j,
        None => {
            return Some((None, i));
        },
    };
    let j2 = match expect_lit(b, j1, "\":") {
        Some(j) => j,
        None => {
            return Some((None, i));
        },
    };
    match parse_string(s, b, j2) {
        Some((v, j3)) => Some((Some(v), j3)),
        None => None,
    }
}

/// Consume a string list `"a","",...` up to (not including) the closing
/// bracket.
fn parse_string_list<'a>(s: &'a str, b: &[u8], i: usize) -> (r: Option<(Vec<String>, usize)>)
    requires
        vstd::string::is_ascii(s),
        b@.len() == s@.len(),
        i <= b@.len(),
    ensures
        r matches Some(p) ==> i <= p.1 <= b@.len(),
{
    let mut out: Vec<String> = Vec::new();
    let mut j: usize = i;
    if j < b.len() && b[j] == 0x5d {
        return Some((out, j));
    }
    loop
        invariant
            i <= j <= b@.len(),
            vstd::string::is_ascii(s),
            b@.len() == s@.len(),
        decreases b@.len() - j,
    {
        let (item, j2) = match parse_string(s, b, j) {
            Some(p) => p,
            None => {
                return None;
            },
        };
        out.push(item);
        if j2 < b.len() && b[j2] == 0x2c {
            j = j2 + 1;
        } else {
            return Some((out, j2));
        }
        if j >= b.len() {
            return None;
        }
    }
}

/// Consume one axis reading object.
fn parse_reading<'a>(s: &'a str, b: &[u8], i: usize) -> (r: Option<(HsiAxisReading, usize)>)
    requires
        vstd::string::is_ascii(s),
        b@.len() == s@.len(),
        i <= b@.len(),
    ensures
        r matches Some(p) ==> i <= p.1 <= b@.len(),
{
    let j = match expect_lit(b, i, "{\"axis\":") { Some(j) => j, None => { return None; } };
    let (axis, j) = match parse_string(s, b, j) { Some(p) => p, None => { return None; } };
    let j = match expect_lit(b, j, ",\"score\":") { Some(j) => j, None => { return None; } };
    let (score, j) = match expect_lit(b, j, "null") {
        Some(j2) => (None, j2),
        None => match parse_milli(b, j) {
            Some((v, j2)) => (Some(v), j2),
            None => { return None; },
        },
    };
    let j = match expect_lit(b, j, ",\"confidence\":") { Some(j) => j, None => { return None; } };
    let (confidence, j) = match parse_milli(b, j) { Some(p) => p, None => { return None; } };
    let j = match expect_lit(b, j, ",\"window_id\":") { Some(j) => j, None => { return None; } };
    let (window_id, j) = match parse_string(s, b, j) { Some(p) => p, None => { return None; } };
    let (direction, j) = match expect_lit(b, j, ",\"direction\":") {
        Some(j2) => match parse_direction(b, j2) {
            Some((d, j3)) => (Some(d), j3),
            None => { return None; },
        },
        None => (None, j),
    };
    let (unit, j) = match parse_opt_str(s, b, j, "unit") { Some(p) => p, None => { return None; } };
    let (evidence, j) = match expect_lit(b, j, ",\"evidence_source_ids\":[") {
        Some(j2) => match parse_string_list(s, b, j2) {
            Some((ids, j3)) => match expect_lit(b, j3, "]") {
                Some(j4) => (Some(ids), j4),
                None => { return None; },
            },
            None => { return None; },
        },
        None => (None, j),
    };
    let (notes, j) = match parse_opt_str(s, b, j, "notes") { Some(p) => p, None => { return None; } };
    let j = match expect_lit(b, j, "}") { Some(j) => j, None => { return None; } };
    Some((
        HsiAxisReading {
            axis,
            score,
            confidence,
            window_id,
            direction,
            unit,
            evidence_source_ids: evidence,
            notes,
        },
        j,
    ))
}

/// Consume a window definition object.
fn parse_window<'a>(s: &'a str, b: &[u8], i: usize) -> (r: Option<(HsiWindow, usize)>)
    requires
        vstd::string::is_ascii(s),
        b@.len() == s@.len(),
        i <= b@.len(),
    ensures
        r matches Some(p) ==> i <= p.1 <= b@.len(),
{
    let j = match expect_lit(b, i, "{\"start\":") { Some(j) => j, None => { return None; } };
    let (start, j) = match parse_string(s, b, j) { Some(p) => p, None => { return None; } };
    let j = match expect_lit(b, j, ",\"end\":") { Some(j) => j, None => { return None; } };
    let (end, j) = match parse_string(s, b, j) { Some(p) => p, None => { return None; } };
    let (label, j) = match parse_opt_str(s, b, j, "label") { Some(p) => p, None => { return None; } };
    let j = match expect_lit(b, j, "}") { Some(j) => j, None => { return None; } };
    Some((HsiWindow { start, end, label }, j))
}

/// Consume a source definition object.
fn parse_source<'a>(s: &'a str, b: &[u8], i: usize) -> (r: Option<(HsiSource, usize)>)
    requires
        vstd::string::is_ascii(s),
        b@.len() == s@.len(),
        i <= b@.len(),
    ensures
        r matches Some(p) ==> i <= p.1 <= b@.len(),
{
    let j = match expect_lit(b, i, "{\"type\":") { Some(j) => j, None => { return None; } };
    let (source_type, j) = match parse_source_type(b, j) { Some(p) => p, None => { return None; } };
    let j = match expect_lit(b, j, ",\"quality\":") { Some(j) => j, None => { return None; } };
    let (quality, j) = match parse_milli(b, j) { Some(p) => p, None => { return None; } };
    let j = match expect_lit(b, j, ",\"degraded\":") { Some(j) => j, None => { return None; } };
    let (degraded, j) = match parse_bool(b, j) { Some(p) => p, None => { return None; } };
    let (notes, j) = match parse_opt_str(s, b, j, "notes") { Some(p) => p, None => { return None; } };
    let j = match expect_lit(b, j, "}") { Some(j) => j, None => { return None; } };
    Some((HsiSource { source_type, quality, degraded, notes }, j))
}

/// Consume keyed window entries up to the closing brace.
fn parse_window_entries<'a>(s: &'a str, b: &[u8], i: usize) -> (r: Option<(Vec<(String, HsiWindow)>, usize)>)
    requires
        vstd::string::is_ascii(s),
        b@.len() == s@.len(),
        i <= b@.len(),
    ensures
        r matches Some(p) ==> i <= p.1 <= b@.len(),
{
    let mut out: Vec<(String, HsiWindow)> = Vec::new();
    let mut j: usize = i;
    if j < b.len() && b[j] == 0x7d {
        return Some((out, j));
    }
    loop
        invariant
            i <= j <= b@.len(),
            vstd::string::is_ascii(s),
            b@.len() == s@.len(),
        decreases b@.len() - j,
    {
        let (key, j2) = match parse_string(s, b, j) { Some(p) => p, None => { return None; } };
        let j3 = match expect_lit(b, j2, ":") { Some(p) => p, None => { return None; } };
        let (window, j4) = match parse_window(s, b, j3) { Some(p) => p, None => { return None; } };
        out.push((key, window));
        if j4 < b.len() && b[j4] == 0x2c {
            j = j4 + 1;
        } else {
            return Some((out, j4));
        }
        if j >= b.len() {
            return None;
        }
    }
}

/// Consume keyed source entries up to the closing brace.
fn parse_source_entries<'a>(s: &'a str, b: &[u8], i: usize) -> (r: Option<(Vec<(String, HsiSource)>, usize)>)
    requires
        vstd::string::is_ascii(s),
        b@.len() == s@.len(),
        i <= b@.len(),
    ensures
        r matches Some(p) ==> i <= p.1 <= b@.len(),
{
    let mut out: Vec<(String, HsiSource)> = Vec::new();
    let mut j: usize = i;
    if j < b.len() && b[j] == 0x7d {
        return Some((out, j));
    }
    loop
        invariant
            i <= j <= b@.len(),
            vstd::string::is_ascii(s),
            b@.len() == s@.len(),
        decreases b@.len() - j,
    {
        let (key, j2) = match parse_string(s, b, j) { Some(p) => p, None => { return None; } };
        let j3 = match expect_lit(b, j2, ":") { Some(p) => p, None => { return None; } };
        let (source, j4) = match parse_source(s, b, j3) { Some(p) => p, None => { return None; } };
        out.push((key, source));
        if j4 < b.len() && b[j4] == 0x2c {
            j = j4 + 1;
        } else {
            return Some((out, j4));
        }
        if j >= b.len() {
            return None;
        }
    }
}

/// Consume readings up to the closing bracket.
fn parse_readings<'a>(s: &'a str, b: &[u8], i: usize) -> (r: Option<(Vec<HsiAxisReading>, usize)>)
    requires
        vstd::string::is_ascii(s),
        b@.len() == s@.len(),
        i <= b@.len(),
    ensures
        r matches Some(p) ==> i <= p.1 <= b@.len(),
{
    let mut out: Vec<HsiAxisReading> = Vec::new();
    let mut j: usize = i;
    if j < b.len() && b[j] == 0x5d {
        return Some((out, j));
    }
    loop
        invariant
            i <= j <= b@.len(),
            vstd::string::is_ascii(s),
            b@.len() == s@.len(),
        decreases b@.len() - j,
    {
        let (reading, j2) = match parse_reading(s, b, j) { Some(p) => p, None => { return None; } };
        out.push(reading);
        if j2 < b.len() && b[j2] == 0x2c {
            j = j2 + 1;
        } else {
            return Some((out, j2));
        }
        if j >= b.len() {
            return None;
        }
    }
}

/// Build a snapshot candidate from the canonical grammar. Its correctness is
/// established afterwards by re-rendering.
fn parse_candidate(s: &str) -> (r: Option<HsiSnapshot>)
{
    broadcast use vstd::string::group_string_axioms;

    if !s.is_ascii() {
        return None;
    }
    let b: &[u8] = s.as_bytes();
    proof {
        assert(b@ =~= Seq::new(s@.len(), |k: int| s@.index(k) as u8));
    }
    let j = match expect_lit(b, 0, "{\"hsi_version\":") { Some(j) => j, None => { return None; } };
    let (hsi_version, j) = match parse_string(s, b, j) { Some(p) => p, None => { return None; } };
    let j = match expect_lit(b, j, ",\"observed_at_utc\":") { Some(j) => j, None => { return None; } };
    let (observed_at_utc, j) = match parse_string(s, b, j) { Some(p) => p, None => { return None; } };
    let j = match expect_lit(b, j, ",\"computed_at_utc\":") { Some(j) => j, None => { return None; } };
    let (computed_at_utc, j) = match parse_string(s, b, j) { Some(p) => p, None => { return None; } };
    let j = match expect_lit(b, j, ",\"producer\":{\"name\":") { Some(j) => j, None => { return None; } };
    let (name, j) = match parse_string(s, b, j) { Some(p) => p, None => { return None; } };
    let j = match expect_lit(b, j, ",\"version\":") { Some(j) => j, None => { return None; } };
    let (version, j) = match parse_string(s, b, j) { Some(p) => p, None => { return None; } };
    let (instance_id, j) = match parse_opt_str(s, b, j, "instance_id") {
        Some(p) => p,
        None => { return None; },
    };
    let j = match expect_lit(b, j, "},\"window_ids\":[") { Some(j) => j, None => { return None; } };
    let (window_ids, j) = match parse_string_list(s, b, j) { Some(p) => p, None => { return None; } };
    let j = match expect_lit(b, j, "],\"windows\":{") { Some(j) => j, None => { return None; } };
    let (windows, j) = match parse_window_entries(s, b, j) { Some(p) => p, None => { return None; } };
    let j = match expect_lit(b, j, "},\"source_ids\":[") { Some(j) => j, None => { return None; } };
    let (source_ids, j) = match parse_string_list(s, b, j) { Some(p) => p, None => { return None; } };
    let j = match expect_lit(b, j, "],\"sources\":{") { Some(j) => j, None => { return None; } };
    let (sources, j) = match parse_source_entries(s, b, j) { Some(p) => p, None => { return None; } };
    let j = match expect_lit(b, j, "},\"axes\":{\"behavior\":{\"readings\":[") {
        Some(j) => j,
        None => { return None; },
    };
    let (readings, j) = match parse_readings(s, b, j) { Some(p) => p, None => { return None; } };
    let j = match expect_lit(b, j, "]}},\"privacy\":{\"contains_pii\":") {
        Some(j) => j,
        None => { return None; },
    };
    let (contains_pii, j) = match parse_bool(b, j) { Some(p) => p, None => { return None; } };
    let j = match expect_lit(b, j, ",\"raw_biosignals_allowed\":") { Some(j) => j, None => { return None; } };
    let (raw_biosignals_allowed, j) = match parse_bool(b, j) { Some(p) => p, None => { return None; } };
    let j = match expect_lit(b, j, ",\"derived_metrics_allowed\":") { Some(j) => j, None => { return None; } };
    let (derived_metrics_allowed, j) = match parse_bool(b, j) { Some(p) => p, None => { return None; } };
    let (privacy_notes, j) = match parse_opt_str(s, b, j, "notes") { Some(p) => p, None => { return None; } };
    let j = match expect_lit(b, j, "},\"meta\":{\"keyboard_events\":") {
        Some(j) => j,
        None => { return None; },
    };
    let (keyboard_events, j) = match parse_u64(b, j) { Some(p) => p, None => { return None; } };
    let j = match expect_lit(b, j, ",\"mouse_events\":") { Some(j) => j, None => { return None; } };
    let (mouse_events, j) = match parse_u64(b, j) { Some(p) => p, None => { return None; } };
    let j = match expect_lit(b, j, ",\"duration_secs\":") { Some(j) => j, None => { return None; } };
    let (duration_ms, j) = match parse_milli(b, j) { Some(p) => p, None => { return None; } };
    let j = match expect_lit(b, j, ",\"is_session_start\":") { Some(j) => j, None => { return None; } };
    let (is_session_start, j) = match parse_bool(b, j) { Some(p) => p, None => { return None; } };
    let (session_id, j) = match parse_opt_str(s, b, j, "session_id") { Some(p) => p, None => { return None; } };
    let j = match expect_lit(b, j, ",\"raw_typing_rate\":") { Some(j) => j, None => { return None; } };
    let (raw_typing_rate, j) = match parse_milli(b, j) { Some(p) => p, None => { return None; } };
    let j = match expect_lit(b, j, ",\"raw_mean_velocity\":") { Some(j) => j, None => { return None; } };
    let (raw_mean_velocity, j) = match parse_milli(b, j) { Some(p) => p, None => { return None; } };
    let j = match expect_lit(b, j, ",\"raw_click_rate\":") { Some(j) => j, None => { return None; } };
    let (raw_click_rate, j) = match parse_milli(b, j) { Some(p) => p, None => { return None; } };
    let j = match expect_lit(b, j, ",\"typing_tap_count\":") { Some(j) => j, None => { return None; } };
    let (typing_tap_count, j) = match parse_u64(b, j) { Some(p) => p, None => { return None; } };
    if typing_tap_count > u32::MAX as u64 {
        return None;
    }
    let j = match expect_lit(b, j, ",\"navigation_key_count\":") { Some(j) => j, None => { return None; } };
    let (navigation_key_count, j) = match parse_u64(b, j) { Some(p) => p, None => { return None; } };
    if navigation_key_count > u32::MAX as u64 {
        return None;
    }
    let j = match expect_lit(b, j, ",\"keyboard_scroll_rate\":") { Some(j) => j, None => { return None; } };
    let (keyboard_scroll_rate, j) = match parse_milli(b, j) { Some(p) => p, None => { return None; } };
    let j = match expect_lit(b, j, "}}") { Some(j) => j, None => { return None; } };
    if j != b.len() {
        return None;
    }
    Some(HsiSnapshot {
        hsi_version,
        observed_at_utc,
        computed_at_utc,
        producer: HsiProducer { name, version, instance_id },
        window_ids,
        windows,
        source_ids,
        sources,
        axes: HsiAxes {
            affect: None,
            engagement: None,
            behavior: HsiAxesDomain { readings },
        },
        privacy: HsiPrivacy {
            contains_pii,
            raw_biosignals_allowed,
            derived_metrics_allowed,
            notes: privacy_notes,
        },
        meta: HsiMeta {
            keyboard_events,
            mouse_events,
            duration_ms,
            is_session_start,
            session_id,
            raw_typing_rate,
            raw_mean_velocity,
            raw_click_rate,
            typing_tap_count: typing_tap_count as u32,
            navigation_key_count: navigation_key_count as u32,
            keyboard_scroll_rate,
        },
    })
}

/// Parse canonical snapshot JSON. A successful parse is sound: the returned
/// snapshot renders back to exactly the input text, which the function checks
/// before accepting. Only this direction is verified; that every canonical
/// document is accepted is exercised by test, not proved.
pub fn snapshot_from_json(s: &str) -> (r: Option<HsiSnapshot>)
    ensures
        r matches Some(t) ==> snapshot_json_safe(t) && s@ == spec_snapshot_json(t),
{
    let candidate = match parse_candidate(s) {
        Some(t) => t,
        None => {
            return None;
        },
    };
    let rendered = match snapshot_to_json(&candidate) {
        Ok(js) => js,
        Err(_) => {
            return None;
        },
    };
    let given = s.to_owned();
    if rendered == given {
        proof {
            if !snapshot_json_safe(candidate) {
                assert(false);
            }
        }
        Some(candidate)
    } else {
        None
    }
}

} // verus!
