//! Canonical JSON rendering of snapshots.
//!
//! The renderer is total over documents whose embedded text is JSON-safe:
//! printable ASCII with no quote or backslash. Text that would need escaping
//! is reported as an explicit failure rather than emitted; the renderer never
//! produces a partial document.

use vstd::prelude::*;
use vstd::string::StringExecFns;
use vstd::string::StrSliceExecFns;
use crate::hsi::{HsiAxisReading, HsiDirection, HsiMeta, HsiPrivacy, HsiSnapshot, HsiSource, HsiSourceType, HsiWindow};
use crate::strfmt::{push_milli_dec, push_u64_dec, spec_milli_dec, spec_u64_dec};
use crate::adapter::{AdapterEvent, AdapterSession, BehaviorKind};
use crate::trusted::{rfc3339_of, rfc3339_utc_millis, MAX_RFC3339_MS};

verus! {

/// A serialization failure: the document embeds text that JSON would have to
/// escape.
#[derive(Clone, Debug)]
pub struct JsonError {
    /// What could not be rendered.
    pub message: String,
}

/// Printable ASCII with no quote and no backslash: text that embeds into a
/// JSON string without escaping.
pub open spec fn json_safe(s: Seq<char>) -> bool {
    forall|i: int| 0 <= i < s.len()
        ==> ' ' <= #[trigger] s[i] && s[i] <= '~' && s[i] != '"' && s[i] != '\\'
}

/// Decide whether text is JSON-safe.
pub fn is_json_safe(s: &str) -> (r: bool)
    ensures
        r == json_safe(s@),
{
    broadcast use vstd::string::group_string_axioms;

    if !s.is_ascii() {
        proof {
            assert(!vstd::utf8::is_ascii_chars(s@));
            let i = choose|i: int| 0 <= i < s@.len() && !('\0' <= #[trigger] s@[i] <= '\u{7f}');
            assert(!(' ' <= s@[i] && s@[i] <= '~'));
        }
        return false;
    }
    let n: usize = s.unicode_len();
    let mut i: usize = 0;
    while i < n
        invariant
            0 <= i <= n,
            n == s@.len(),
            vstd::string::is_ascii(s),
            forall|k: int| 0 <= k < i
                ==> ' ' <= #[trigger] s@[k] && s@[k] <= '~' && s@[k] != '"' && s@[k] != '\\',
        decreases n - i,
    {
        let b: u8 = s.get_ascii(i);
        if b < 0x20 || b > 0x7e || b == 0x22 || b == 0x5c {
            proof {
                assert(s@[i as int] as u8 == b);
                assert('\0' <= s@[i as int] <= '\u{7f}');
                assert(!(' ' <= s@[i as int] && s@[i as int] <= '~'
                    && s@[i as int] != '"' && s@[i as int] != '\\'));
            }
            return false;
        }
        proof {
            assert(s@[i as int] as u8 == b);
            assert('\0' <= s@[i as int] <= '\u{7f}');
        }
        i = i + 1;
    }
    true
}

/// A JSON string token.
pub open spec fn jstr(s: Seq<char>) -> Seq<char> {
    seq!['"'] + s + seq!['"']
}

/// A JSON boolean token.
pub open spec fn jbool(b: bool) -> Seq<char> {
    if b { "true"@ } else { "false"@ }
}

/// Append a JSON string token.
fn push_jstr(out: &mut String, s: &str)
    ensures
        final(out)@ == old(out)@ + jstr(s@),
{
    proof {
        reveal_strlit("\"");
    }
    out.append("\"");
    out.append(s);
    out.append("\"");
    proof {
        assert(out@ =~= old(out)@ + jstr(s@));
    }
}

/// Append a JSON boolean token.
fn push_jbool(out: &mut String, b: bool)
    ensures
        final(out)@ == old(out)@ + jbool(b),
{
    if b {
        out.append("true");
    } else {
        out.append("false");
    }
}

/// The rendering of a direction.
pub open spec fn direction_json(d: HsiDirection) -> Seq<char> {
    match d {
        HsiDirection::HigherIsMore => "higher_is_more"@,
        HsiDirection::HigherIsLess => "higher_is_less"@,
        HsiDirection::Bidirectional => "bidirectional"@,
    }
}

fn direction_str(d: HsiDirection) -> (r: &'static str)
    ensures
        r@ == direction_json(d),
{
    match d {
        HsiDirection::HigherIsMore => "higher_is_more",
        HsiDirection::HigherIsLess => "higher_is_less",
        HsiDirection::Bidirectional => "bidirectional",
    }
}

/// The rendering of a source type.
pub open spec fn source_type_json(t: HsiSourceType) -> Seq<char> {
    match t {
        HsiSourceType::Sensor => "sensor"@,
        HsiSourceType::App => "app"@,
        HsiSourceType::SelfReport => "self_report"@,
        HsiSourceType::Observer => "observer"@,
        HsiSourceType::Derived => "derived"@,
        HsiSourceType::Other => "other"@,
    }
}

fn source_type_str(t: HsiSourceType) -> (r: &'static str)
    ensures
        r@ == source_type_json(t),
{
    match t {
        HsiSourceType::Sensor => "sensor",
        HsiSourceType::App => "app",
        HsiSourceType::SelfReport => "self_report",
        HsiSourceType::Observer => "observer",
        HsiSourceType::Derived => "derived",
        HsiSourceType::Other => "other",
    }
}

// ===========================================================================
// Optional segments
// ===========================================================================

/// The optional rendering of a labeled string field, preceded by a comma.
pub open spec fn opt_str_json(label: Seq<char>, v: Option<String>) -> Seq<char> {
    match v {
        Some(x) => seq![','] + jstr(label) + seq![':'] + jstr(x@),
        None => Seq::empty(),
    }
}

/// The optional field's text is JSON-safe.
pub open spec fn opt_str_safe(v: Option<String>) -> bool {
    v matches Some(x) ==> json_safe(x@)
}

/// Append an optional labeled string field.
fn push_opt_str(out: &mut String, label: &str, v: &Option<String>)
    requires
        opt_str_safe(*v),
    ensures
        final(out)@ == old(out)@ + opt_str_json(label@, *v),
{
    proof {
        reveal_strlit(",");
        reveal_strlit(":");
    }
    match v {
        Some(x) => {
            out.append(",");
            push_jstr(out, label);
            out.append(":");
            push_jstr(out, x.as_str());
            proof {
                assert(out@ =~= old(out)@ + opt_str_json(label@, *v));
            }
        },
        None => {},
    }
}

// ===========================================================================
// String lists
// ===========================================================================

/// A comma-separated list of JSON string tokens.
pub open spec fn strings_json(ids: Seq<String>) -> Seq<char>
    decreases ids.len(),
{
    if ids.len() == 0 {
        Seq::empty()
    } else if ids.len() == 1 {
        jstr(ids[0]@)
    } else {
        strings_json(ids.drop_last()) + seq![','] + jstr(ids.last()@)
    }
}

/// Every string of the list is JSON-safe.
pub open spec fn strings_safe(ids: Seq<String>) -> bool {
    forall|i: int| 0 <= i < ids.len() ==> json_safe((#[trigger] ids[i])@)
}

/// Append a comma-separated list of JSON string tokens.
fn push_strings(out: &mut String, ids: &Vec<String>)
    requires
        strings_safe(ids@),
    ensures
        final(out)@ == old(out)@ + strings_json(ids@),
{
    let mut i: usize = 0;
    while i < ids.len()
        invariant
            0 <= i <= ids@.len(),
            strings_safe(ids@),
            out@ == old(out)@ + strings_json(ids@.take(i as int)),
        decreases ids@.len() - i,
    {
        let ghost base = out@;
        proof {
            reveal_strlit(",");
            assert(ids@.take(i + 1).drop_last() =~= ids@.take(i as int));
            assert(ids@.take(i + 1).last() == ids@[i as int]);
        }
        if i > 0 {
            out.append(",");
        }
        push_jstr(out, ids[i].as_str());
        proof {
            if i > 0 {
                assert(out@ =~= base + seq![','] + jstr(ids@[i as int]@));
            } else {
                assert(out@ =~= base + jstr(ids@[i as int]@));
            }
            assert(out@ =~= old(out)@ + strings_json(ids@.take(i + 1)));
        }
        i = i + 1;
    }
    proof {
        assert(ids@.take(ids@.len() as int) =~= ids@);
    }
}

/// Decide whether every string of a list is JSON-safe.
fn are_strings_safe(ids: &Vec<String>) -> (r: bool)
    ensures
        r == strings_safe(ids@),
{
    let mut i: usize = 0;
    while i < ids.len()
        invariant
            0 <= i <= ids@.len(),
            forall|k: int| 0 <= k < i ==> json_safe((#[trigger] ids@[k])@),
        decreases ids@.len() - i,
    {
        if !is_json_safe(ids[i].as_str()) {
            return false;
        }
        i = i + 1;
    }
    true
}

// ===========================================================================
// Readings
// ===========================================================================

/// The fixed opening fields of a reading.
pub open spec fn reading_core_json(rd: HsiAxisReading) -> Seq<char> {
    "{\"axis\":"@ + jstr(rd.axis@)
        + ",\"score\":"@ + (match rd.score { Some(v) => spec_milli_dec(v as int), None => "null"@ })
        + ",\"confidence\":"@ + spec_milli_dec(rd.confidence as int)
        + ",\"window_id\":"@ + jstr(rd.window_id@)
}

/// The optional direction field.
pub open spec fn opt_direction_json(d: Option<HsiDirection>) -> Seq<char> {
    match d {
        Some(x) => ",\"direction\":"@ + jstr(direction_json(x)),
        None => Seq::empty(),
    }
}

/// The optional evidence list.
pub open spec fn opt_evidence_json(ids: Option<Vec<String>>) -> Seq<char> {
    match ids {
        Some(v) => ",\"evidence_source_ids\":["@ + strings_json(v@) + "]"@,
        None => Seq::empty(),
    }
}

/// The rendering of one axis reading. Optional fields are omitted when
/// absent; an absent score renders as `null`.
pub open spec fn reading_json(rd: HsiAxisReading) -> Seq<char> {
    reading_core_json(rd)
        + opt_direction_json(rd.direction)
        + opt_str_json("unit"@, rd.unit)
        + opt_evidence_json(rd.evidence_source_ids)
        + opt_str_json("notes"@, rd.notes)
        + "}"@
}

/// The reading's text fields are JSON-safe.
pub open spec fn reading_safe(rd: HsiAxisReading) -> bool {
    &&& json_safe(rd.axis@)
    &&& json_safe(rd.window_id@)
    &&& opt_str_safe(rd.unit)
    &&& (rd.evidence_source_ids matches Some(ids) ==> strings_safe(ids@))
    &&& opt_str_safe(rd.notes)
}

/// Decide whether a reading's text fields are JSON-safe.
fn is_reading_safe(rd: &HsiAxisReading) -> (r: bool)
    ensures
        r == reading_safe(*rd),
{
    if !is_json_safe(rd.axis.as_str()) {
        return false;
    }
    if !is_json_safe(rd.window_id.as_str()) {
        return false;
    }
    match &rd.unit {
        Some(u) => {
            if !is_json_safe(u.as_str()) {
                return false;
            }
        },
        None => {},
    }
    match &rd.evidence_source_ids {
        Some(ids) => {
            if !are_strings_safe(ids) {
                return false;
            }
        },
        None => {},
    }
    match &rd.notes {
        Some(x) => {
            if !is_json_safe(x.as_str()) {
                return false;
            }
        },
        None => {},
    }
    true
}

/// Append one axis reading.
#[verifier::rlimit(50)]
fn push_reading(out: &mut String, rd: &HsiAxisReading)
    requires
        reading_safe(*rd),
    ensures
        final(out)@ == old(out)@ + reading_json(*rd),
{
    out.append("{\"axis\":");
    push_jstr(out, rd.axis.as_str());
    out.append(",\"score\":");
    match &rd.score {
        Some(v) => push_milli_dec(out, *v),
        None => out.append("null"),
    }
    out.append(",\"confidence\":");
    push_milli_dec(out, rd.confidence);
    out.append(",\"window_id\":");
    push_jstr(out, rd.window_id.as_str());
    proof {
        assert(out@ =~= old(out)@ + reading_core_json(*rd));
    }
    let ghost c1 = out@;
    match &rd.direction {
        Some(d) => {
            out.append(",\"direction\":");
            push_jstr(out, direction_str(*d));
        },
        None => {},
    }
    proof {
        assert(out@ =~= c1 + opt_direction_json(rd.direction));
    }
    let ghost c2 = out@;
    push_opt_str(out, "unit", &rd.unit);
    proof {
        reveal_strlit("unit");
        assert(out@ == c2 + opt_str_json("unit"@, rd.unit));
    }
    let ghost c3 = out@;
    match &rd.evidence_source_ids {
        Some(ids) => {
            out.append(",\"evidence_source_ids\":[");
            push_strings(out, ids);
            out.append("]");
        },
        None => {},
    }
    proof {
        assert(out@ =~= c3 + opt_evidence_json(rd.evidence_source_ids));
    }
    let ghost c4 = out@;
    push_opt_str(out, "notes", &rd.notes);
    let ghost c5 = out@;
    out.append("}");
    proof {
        reveal_strlit("notes");
        assert(c5 == c4 + opt_str_json("notes"@, rd.notes));
        assert(out@ == c5 + "}"@);
        assert(out@ =~= old(out)@ + reading_json(*rd));
    }
}

/// A comma-separated list of readings.
pub open spec fn readings_json(rs: Seq<HsiAxisReading>) -> Seq<char>
    decreases rs.len(),
{
    if rs.len() == 0 {
        Seq::empty()
    } else if rs.len() == 1 {
        reading_json(rs[0])
    } else {
        readings_json(rs.drop_last()) + seq![','] + reading_json(rs.last())
    }
}

/// Every reading of the list is JSON-safe.
pub open spec fn readings_safe(rs: Seq<HsiAxisReading>) -> bool {
    forall|i: int| 0 <= i < rs.len() ==> reading_safe(#[trigger] rs[i])
}

/// Append a comma-separated list of readings.
fn push_readings(out: &mut String, rs: &Vec<HsiAxisReading>)
    requires
        readings_safe(rs@),
    ensures
        final(out)@ == old(out)@ + readings_json(rs@),
{
    let mut i: usize = 0;
    while i < rs.len()
        invariant
            0 <= i <= rs@.len(),
            readings_safe(rs@),
            out@ == old(out)@ + readings_json(rs@.take(i as int)),
        decreases rs@.len() - i,
    {
        let ghost base = out@;
        proof {
            reveal_strlit(",");
            assert(rs@.take(i + 1).drop_last() =~= rs@.take(i as int));
            assert(rs@.take(i + 1).last() == rs@[i as int]);
        }
        if i > 0 {
            out.append(",");
        }
        push_reading(out, &rs[i]);
        proof {
            if i > 0 {
                assert(out@ =~= base + seq![','] + reading_json(rs@[i as int]));
            } else {
                assert(out@ =~= base + reading_json(rs@[i as int]));
            }
            assert(out@ =~= old(out)@ + readings_json(rs@.take(i + 1)));
        }
        i = i + 1;
    }
    proof {
        assert(rs@.take(rs@.len() as int) =~= rs@);
    }
}

// ===========================================================================
// Windows and sources
// ===========================================================================

/// The rendering of one window definition.
pub open spec fn window_json(w: HsiWindow) -> Seq<char> {
    "{\"start\":"@ + jstr(w.start@) + ",\"end\":"@ + jstr(w.end@)
        + opt_str_json("label"@, w.label)
        + "}"@
}

/// The window's text fields are JSON-safe.
pub open spec fn window_safe(w: HsiWindow) -> bool {
    &&& json_safe(w.start@)
    &&& json_safe(w.end@)
    &&& opt_str_safe(w.label)
}

fn push_window(out: &mut String, w: &HsiWindow)
    requires
        window_safe(*w),
    ensures
        final(out)@ == old(out)@ + window_json(*w),
{
    out.append("{\"start\":");
    push_jstr(out, w.start.as_str());
    out.append(",\"end\":");
    push_jstr(out, w.end.as_str());
    let ghost c1 = out@;
    push_opt_str(out, "label", &w.label);
    out.append("}");
    proof {
        reveal_strlit("label");
        assert(c1 =~= old(out)@ + "{\"start\":"@ + jstr(w.start@) + ",\"end\":"@ + jstr(w.end@));
        assert(out@ =~= c1 + opt_str_json("label"@, w.label) + "}"@);
        assert(out@ =~= old(out)@ + window_json(*w));
    }
}

/// The rendering of one source definition.
pub open spec fn source_json(s: HsiSource) -> Seq<char> {
    "{\"type\":"@ + jstr(source_type_json(s.source_type))
        + ",\"quality\":"@ + spec_milli_dec(s.quality as int)
        + ",\"degraded\":"@ + jbool(s.degraded)
        + opt_str_json("notes"@, s.notes)
        + "}"@
}

/// The source's text fields are JSON-safe.
pub open spec fn source_safe(s: HsiSource) -> bool {
    opt_str_safe(s.notes)
}

fn push_source(out: &mut String, s: &HsiSource)
    requires
        source_safe(*s),
    ensures
        final(out)@ == old(out)@ + source_json(*s),
{
    out.append("{\"type\":");
    push_jstr(out, source_type_str(s.source_type));
    out.append(",\"quality\":");
    push_milli_dec(out, s.quality);
    out.append(",\"degraded\":");
    push_jbool(out, s.degraded);
    let ghost c1 = out@;
    push_opt_str(out, "notes", &s.notes);
    out.append("}");
    proof {
        reveal_strlit("notes");
        assert(c1 =~= old(out)@ + "{\"type\":"@ + jstr(source_type_json(s.source_type))
            + ",\"quality\":"@ + spec_milli_dec(s.quality as int)
            + ",\"degraded\":"@ + jbool(s.degraded));
        assert(out@ =~= c1 + opt_str_json("notes"@, s.notes) + "}"@);
        assert(out@ =~= old(out)@ + source_json(*s));
    }
}

/// The `windows` object: window definitions keyed by identifier.
pub open spec fn windows_json(ws: Seq<(String, HsiWindow)>) -> Seq<char>
    decreases ws.len(),
{
    if ws.len() == 0 {
        Seq::empty()
    } else if ws.len() == 1 {
        jstr(ws[0].0@) + seq![':'] + window_json(ws[0].1)
    } else {
        windows_json(ws.drop_last()) + seq![','] + jstr(ws.last().0@) + seq![':'] + window_json(ws.last().1)
    }
}

pub open spec fn windows_safe(ws: Seq<(String, HsiWindow)>) -> bool {
    forall|i: int| 0 <= i < ws.len()
        ==> json_safe((#[trigger] ws[i]).0@) && window_safe(ws[i].1)
}

fn push_windows(out: &mut String, ws: &Vec<(String, HsiWindow)>)
    requires
        windows_safe(ws@),
    ensures
        final(out)@ == old(out)@ + windows_json(ws@),
{
    let mut i: usize = 0;
    while i < ws.len()
        invariant
            0 <= i <= ws@.len(),
            windows_safe(ws@),
            out@ == old(out)@ + windows_json(ws@.take(i as int)),
        decreases ws@.len() - i,
    {
        let ghost base = out@;
        proof {
            reveal_strlit(",");
            reveal_strlit(":");
            assert(ws@.take(i + 1).drop_last() =~= ws@.take(i as int));
            assert(ws@.take(i + 1).last() == ws@[i as int]);
        }
        if i > 0 {
            out.append(",");
        }
        push_jstr(out, ws[i].0.as_str());
        out.append(":");
        push_window(out, &ws[i].1);
        proof {
            if i > 0 {
                assert(out@ =~= base + seq![','] + jstr(ws@[i as int].0@) + seq![':']
                    + window_json(ws@[i as int].1));
            } else {
                assert(out@ =~= base + jstr(ws@[i as int].0@) + seq![':'] + window_json(ws@[i as int].1));
            }
            assert(out@ =~= old(out)@ + windows_json(ws@.take(i + 1)));
        }
        i = i + 1;
    }
    proof {
        assert(ws@.take(ws@.len() as int) =~= ws@);
    }
}

/// The `sources` object: source definitions keyed by identifier.
pub open spec fn sources_json(ss: Seq<(String, HsiSource)>) -> Seq<char>
    decreases ss.len(),
{
    if ss.len() == 0 {
        Seq::empty()
    } else if ss.len() == 1 {
        jstr(ss[0].0@) + seq![':'] + source_json(ss[0].1)
    } else {
        sources_json(ss.drop_last()) + seq![','] + jstr(ss.last().0@) + seq![':'] + source_json(ss.last().1)
    }
}

pub open spec fn sources_safe(ss: Seq<(String, HsiSource)>) -> bool {
    forall|i: int| 0 <= i < ss.len()
        ==> json_safe((#[trigger] ss[i]).0@) && source_safe(ss[i].1)
}

fn push_sources(out: &mut String, ss: &Vec<(String, HsiSource)>)
    requires
        sources_safe(ss@),
    ensures
        final(out)@ == old(out)@ + sources_json(ss@),
{
    let mut i: usize = 0;
    while i < ss.len()
        invariant
            0 <= i <= ss@.len(),
            sources_safe(ss@),
            out@ == old(out)@ + sources_json(ss@.take(i as int)),
        decreases ss@.len() - i,
    {
        let ghost base = out@;
        proof {
            reveal_strlit(",");
            reveal_strlit(":");
            assert(ss@.take(i + 1).drop_last() =~= ss@.take(i as int));
            assert(ss@.take(i + 1).last() == ss@[i as int]);
        }
        if i > 0 {
            out.append(",");
        }
        push_jstr(out, ss[i].0.as_str());
        out.append(":");
        push_source(out, &ss[i].1);
        proof {
            if i > 0 {
                assert(out@ =~= base + seq![','] + jstr(ss@[i as int].0@) + seq![':']
                    + source_json(ss@[i as int].1));
            } else {
                assert(out@ =~= base + jstr(ss@[i as int].0@) + seq![':'] + source_json(ss@[i as int].1));
            }
            assert(out@ =~= old(out)@ + sources_json(ss@.take(i + 1)));
        }
        i = i + 1;
    }
    proof {
        assert(ss@.take(ss@.len() as int) =~= ss@);
    }
}

// ===========================================================================
// Meta, privacy, snapshot
// ===========================================================================

/// The counts section of the metadata object.
pub open spec fn meta_counts_json(m: HsiMeta) -> Seq<char> {
    "{\"keyboard_events\":"@ + spec_u64_dec(m.keyboard_events as int)
        + ",\"mouse_events\":"@ + spec_u64_dec(m.mouse_events as int)
        + ",\"duration_secs\":"@ + spec_milli_dec(m.duration_ms as int)
        + ",\"is_session_start\":"@ + jbool(m.is_session_start)
}

/// The raw rate section of the metadata object.
pub open spec fn meta_rates_json(m: HsiMeta) -> Seq<char> {
    ",\"raw_typing_rate\":"@ + spec_milli_dec(m.raw_typing_rate as int)
        + ",\"raw_mean_velocity\":"@ + spec_milli_dec(m.raw_mean_velocity as int)
        + ",\"raw_click_rate\":"@ + spec_milli_dec(m.raw_click_rate as int)
}

/// The raw count section of the metadata object.
pub open spec fn meta_raw_json(m: HsiMeta) -> Seq<char> {
    ",\"typing_tap_count\":"@ + spec_u64_dec(m.typing_tap_count as int)
        + ",\"navigation_key_count\":"@ + spec_u64_dec(m.navigation_key_count as int)
        + ",\"keyboard_scroll_rate\":"@ + spec_milli_dec(m.keyboard_scroll_rate as int)
}

/// The rendering of the metadata object. The window duration is rendered in
/// seconds with three fractional digits.
pub open spec fn meta_json(m: HsiMeta) -> Seq<char> {
    meta_counts_json(m) + opt_str_json("session_id"@, m.session_id) + meta_rates_json(m)
        + meta_raw_json(m) + "}"@
}

pub open spec fn meta_safe(m: HsiMeta) -> bool {
    opt_str_safe(m.session_id)
}

#[verifier::rlimit(50)]
fn push_meta(out: &mut String, m: &HsiMeta)
    requires
        meta_safe(*m),
    ensures
        final(out)@ == old(out)@ + meta_json(*m),
{
    out.append("{\"keyboard_events\":");
    push_u64_dec(out, m.keyboard_events);
    out.append(",\"mouse_events\":");
    push_u64_dec(out, m.mouse_events);
    out.append(",\"duration_secs\":");
    push_milli_dec(out, m.duration_ms);
    out.append(",\"is_session_start\":");
    push_jbool(out, m.is_session_start);
    proof {
        assert(out@ =~= old(out)@ + meta_counts_json(*m));
    }
    let ghost c1 = out@;
    push_opt_str(out, "session_id", &m.session_id);
    proof {
        reveal_strlit("session_id");
        assert(out@ == c1 + opt_str_json("session_id"@, m.session_id));
    }
    let ghost c2 = out@;
    out.append(",\"raw_typing_rate\":");
    push_milli_dec(out, m.raw_typing_rate);
    out.append(",\"raw_mean_velocity\":");
    push_milli_dec(out, m.raw_mean_velocity);
    out.append(",\"raw_click_rate\":");
    push_milli_dec(out, m.raw_click_rate);
    proof {
        assert(out@ =~= c2 + meta_rates_json(*m));
    }
    let ghost c3 = out@;
    out.append(",\"typing_tap_count\":");
    push_u64_dec(out, m.typing_tap_count as u64);
    out.append(",\"navigation_key_count\":");
    push_u64_dec(out, m.navigation_key_count as u64);
    out.append(",\"keyboard_scroll_rate\":");
    push_milli_dec(out, m.keyboard_scroll_rate);
    proof {
        assert(out@ =~= c3 + meta_raw_json(*m));
    }
    let ghost c4 = out@;
    out.append("}");
    proof {
        assert(out@ == c4 + "}"@);
        assert(out@ =~= old(out)@ + meta_json(*m));
    }
}

/// The rendering of the privacy attestation.
pub open spec fn privacy_json(p: HsiPrivacy) -> Seq<char> {
    "{\"contains_pii\":"@ + jbool(p.contains_pii)
        + ",\"raw_biosignals_allowed\":"@ + jbool(p.raw_biosignals_allowed)
        + ",\"derived_metrics_allowed\":"@ + jbool(p.derived_metrics_allowed)
        + opt_str_json("notes"@, p.notes)
        + "}"@
}

pub open spec fn privacy_safe(p: HsiPrivacy) -> bool {
    opt_str_safe(p.notes)
}

fn push_privacy(out: &mut String, p: &HsiPrivacy)
    requires
        privacy_safe(*p),
    ensures
        final(out)@ == old(out)@ + privacy_json(*p),
{
    out.append("{\"contains_pii\":");
    push_jbool(out, p.contains_pii);
    out.append(",\"raw_biosignals_allowed\":");
    push_jbool(out, p.raw_biosignals_allowed);
    out.append(",\"derived_metrics_allowed\":");
    push_jbool(out, p.derived_metrics_allowed);
    let ghost c1 = out@;
    push_opt_str(out, "notes", &p.notes);
    out.append("}");
    proof {
        reveal_strlit("notes");
        assert(c1 =~= old(out)@ + "{\"contains_pii\":"@ + jbool(p.contains_pii)
            + ",\"raw_biosignals_allowed\":"@ + jbool(p.raw_biosignals_allowed)
            + ",\"derived_metrics_allowed\":"@ + jbool(p.derived_metrics_allowed));
        assert(out@ =~= c1 + opt_str_json("notes"@, p.notes) + "}"@);
        assert(out@ =~= old(out)@ + privacy_json(*p));
    }
}

/// The version and timestamp header of a snapshot.
pub open spec fn snapshot_head_json(s: HsiSnapshot) -> Seq<char> {
    "{\"hsi_version\":"@ + jstr(s.hsi_version@)
        + ",\"observed_at_utc\":"@ + jstr(s.observed_at_utc@)
        + ",\"computed_at_utc\":"@ + jstr(s.computed_at_utc@)
}

/// The producer object of a snapshot.
pub open spec fn producer_json(p: crate::hsi::HsiProducer) -> Seq<char> {
    ",\"producer\":{\"name\":"@ + jstr(p.name@)
        + ",\"version\":"@ + jstr(p.version@)
        + opt_str_json("instance_id"@, p.instance_id)
        + "}"@
}

/// The canonical JSON rendering of a snapshot.
pub open spec fn spec_snapshot_json(s: HsiSnapshot) -> Seq<char> {
    snapshot_head_json(s)
        + producer_json(s.producer)
        + ",\"window_ids\":["@ + strings_json(s.window_ids@)
        + "],\"windows\":{"@ + windows_json(s.windows@)
        + "},\"source_ids\":["@ + strings_json(s.source_ids@)
        + "],\"sources\":{"@ + sources_json(s.sources@)
        + "},\"axes\":{\"behavior\":{\"readings\":["@ + readings_json(s.axes.behavior.readings@)
        + "]}},\"privacy\":"@ + privacy_json(s.privacy)
        + ",\"meta\":"@ + meta_json(s.meta)
        + "}"@
}

/// Every text the snapshot embeds is JSON-safe.
pub open spec fn snapshot_json_safe(s: HsiSnapshot) -> bool {
    &&& json_safe(s.hsi_version@)
    &&& json_safe(s.observed_at_utc@)
    &&& json_safe(s.computed_at_utc@)
    &&& json_safe(s.producer.name@)
    &&& json_safe(s.producer.version@)
    &&& opt_str_safe(s.producer.instance_id)
    &&& strings_safe(s.window_ids@)
    &&& windows_safe(s.windows@)
    &&& strings_safe(s.source_ids@)
    &&& sources_safe(s.sources@)
    &&& readings_safe(s.axes.behavior.readings@)
    &&& privacy_safe(s.privacy)
    &&& meta_safe(s.meta)
}

/// Render a snapshot as canonical JSON, or report that the document embeds
/// text JSON would have to escape. Either a complete document or an explicit
/// failure: never partial output.
#[verifier::rlimit(50)]
pub fn snapshot_to_json(s: &HsiSnapshot) -> (r: Result<String, JsonError>)
    ensures
        snapshot_json_safe(*s) ==> (r matches Ok(js) && js@ == spec_snapshot_json(*s)),
        !snapshot_json_safe(*s) ==> r is Err,
{
    if !snapshot_strings_ok(s) {
        return Err(JsonError { message: String::from_str("document embeds text that JSON must escape") });
    }
    let mut out = String::new();
    out.append("{\"hsi_version\":");
    push_jstr(&mut out, s.hsi_version.as_str());
    out.append(",\"observed_at_utc\":");
    push_jstr(&mut out, s.observed_at_utc.as_str());
    out.append(",\"computed_at_utc\":");
    push_jstr(&mut out, s.computed_at_utc.as_str());
    proof {
        assert(out@ =~= snapshot_head_json(*s));
    }
    let ghost c1 = out@;
    out.append(",\"producer\":{\"name\":");
    push_jstr(&mut out, s.producer.name.as_str());
    out.append(",\"version\":");
    push_jstr(&mut out, s.producer.version.as_str());
    let ghost c1a = out@;
    push_opt_str(&mut out, "instance_id", &s.producer.instance_id);
    out.append("}");
    proof {
        reveal_strlit("instance_id");
        assert(c1a =~= c1 + ",\"producer\":{\"name\":"@ + jstr(s.producer.name@)
            + ",\"version\":"@ + jstr(s.producer.version@));
        assert(out@ =~= c1a + opt_str_json("instance_id"@, s.producer.instance_id) + "}"@);
        assert(out@ =~= c1 + producer_json(s.producer));
    }
    let ghost c2 = out@;
    out.append(",\"window_ids\":[");
    push_strings(&mut out, &s.window_ids);
    proof {
        assert(out@ =~= c2 + ",\"window_ids\":["@ + strings_json(s.window_ids@));
    }
    let ghost c3 = out@;
    out.append("],\"windows\":{");
    push_windows(&mut out, &s.windows);
    proof {
        assert(out@ =~= c3 + "],\"windows\":{"@ + windows_json(s.windows@));
    }
    let ghost c4 = out@;
    out.append("},\"source_ids\":[");
    push_strings(&mut out, &s.source_ids);
    proof {
        assert(out@ =~= c4 + "},\"source_ids\":["@ + strings_json(s.source_ids@));
    }
    let ghost c5 = out@;
    out.append("],\"sources\":{");
    push_sources(&mut out, &s.sources);
    proof {
        assert(out@ =~= c5 + "],\"sources\":{"@ + sources_json(s.sources@));
    }
    let ghost c6 = out@;
    out.append("},\"axes\":{\"behavior\":{\"readings\":[");
    push_readings(&mut out, &s.axes.behavior.readings);
    proof {
        assert(out@ =~= c6 + "},\"axes\":{\"behavior\":{\"readings\":["@
            + readings_json(s.axes.behavior.readings@));
    }
    let ghost c7 = out@;
    out.append("]}},\"privacy\":");
    push_privacy(&mut out, &s.privacy);
    proof {
        assert(out@ =~= c7 + "]}},\"privacy\":"@ + privacy_json(s.privacy));
    }
    let ghost c8 = out@;
    out.append(",\"meta\":");
    push_meta(&mut out, &s.meta);
    out.append("}");
    proof {
        assert(out@ =~= c8 + ",\"meta\":"@ + meta_json(s.meta) + "}"@);
        assert(out@ =~= spec_snapshot_json(*s));
    }
    Ok(out)
}

/// Decide whether every text a snapshot embeds is JSON-safe.
fn snapshot_strings_ok(s: &HsiSnapshot) -> (r: bool)
    ensures
        r == snapshot_json_safe(*s),
{
    if !is_json_safe(s.hsi_version.as_str()) { return false; }
    if !is_json_safe(s.observed_at_utc.as_str()) { return false; }
    if !is_json_safe(s.computed_at_utc.as_str()) { return false; }
    if !is_json_safe(s.producer.name.as_str()) { return false; }
    if !is_json_safe(s.producer.version.as_str()) { return false; }
    match &s.producer.instance_id {
        Some(x) => {
            if !is_json_safe(x.as_str()) { return false; }
        },
        None => {},
    }
    if !are_strings_safe(&s.window_ids) { return false; }
    let mut i: usize = 0;
    while i < s.windows.len()
        invariant
            0 <= i <= s.windows@.len(),
            forall|k: int| 0 <= k < i
                ==> json_safe((#[trigger] s.windows@[k]).0@) && window_safe(s.windows@[k].1),
        decreases s.windows@.len() - i,
    {
        let entry = &s.windows[i];
        if !is_json_safe(entry.0.as_str()) { return false; }
        if !is_json_safe(entry.1.start.as_str()) { return false; }
        if !is_json_safe(entry.1.end.as_str()) { return false; }
        match &entry.1.label {
            Some(l) => {
                if !is_json_safe(l.as_str()) { return false; }
            },
            None => {},
        }
        i = i + 1;
    }
    if !are_strings_safe(&s.source_ids) { return false; }
    let mut j: usize = 0;
    while j < s.sources.len()
        invariant
            0 <= j <= s.sources@.len(),
            forall|k: int| 0 <= k < j
                ==> json_safe((#[trigger] s.sources@[k]).0@) && source_safe(s.sources@[k].1),
        decreases s.sources@.len() - j,
    {
        let entry = &s.sources[j];
        if !is_json_safe(entry.0.as_str()) { return false; }
        match &entry.1.notes {
            Some(x) => {
                if !is_json_safe(x.as_str()) { return false; }
            },
            None => {},
        }
        j = j + 1;
    }
    let mut k: usize = 0;
    while k < s.axes.behavior.readings.len()
        invariant
            0 <= k <= s.axes.behavior.readings@.len(),
            forall|m: int| 0 <= m < k ==> reading_safe(#[trigger] s.axes.behavior.readings@[m]),
        decreases s.axes.behavior.readings@.len() - k,
    {
        if !is_reading_safe(&s.axes.behavior.readings[k]) { return false; }
        k = k + 1;
    }
    match &s.privacy.notes {
        Some(x) => {
            if !is_json_safe(x.as_str()) { return false; }
        },
        None => {},
    }
    match &s.meta.session_id {
        Some(x) => {
            if !is_json_safe(x.as_str()) { return false; }
        },
        None => {},
    }
    true
}

// ===========================================================================
// Behavior sessions
// ===========================================================================

/// The rendering of a behavioral event kind.
pub open spec fn kind_json(k: BehaviorKind) -> Seq<char> {
    match k {
        BehaviorKind::Typing => "typing"@,
        BehaviorKind::Tap => "tap"@,
        BehaviorKind::Scroll => "scroll"@,
    }
}

fn kind_str(k: BehaviorKind) -> (r: &'static str)
    ensures
        r@ == kind_json(k),
{
    match k {
        BehaviorKind::Typing => "typing",
        BehaviorKind::Tap => "tap",
        BehaviorKind::Scroll => "scroll",
    }
}

/// The kind-specific payload of a behavioral event.
pub open spec fn event_payload_json(e: AdapterEvent) -> Seq<char> {
    match e.kind {
        BehaviorKind::Typing => ",\"typing\":{}"@,
        BehaviorKind::Tap => ",\"tap\":{\"tap_duration_ms\":"@
            + (match e.tap_duration_ms { Some(d) => spec_u64_dec(d as int), None => "null"@ })
            + ",\"long_press\":false}"@,
        BehaviorKind::Scroll => ",\"scroll\":{"@
            + (match e.velocity { Some(v) => "\"velocity\":"@ + spec_milli_dec(v as int) + seq![','], None => Seq::empty() })
            + "\"direction_reversal\":false}"@,
    }
}

/// The rendering of one behavioral event.
pub open spec fn adapter_event_json(e: AdapterEvent) -> Seq<char> {
    "{\"timestamp\":"@ + jstr(rfc3339_of(e.timestamp as int))
        + ",\"event_type\":"@ + jstr(kind_json(e.kind))
        + event_payload_json(e)
        + "}"@
}

/// Append one behavioral event.
#[verifier::rlimit(50)]
fn push_adapter_event(out: &mut String, e: &AdapterEvent)
    requires
        e.timestamp <= MAX_RFC3339_MS,
    ensures
        final(out)@ == old(out)@ + adapter_event_json(*e),
{
    out.append("{\"timestamp\":");
    let ts = rfc3339_utc_millis(e.timestamp);
    push_jstr(out, ts.as_str());
    out.append(",\"event_type\":");
    push_jstr(out, kind_str(e.kind));
    proof {
        assert(out@ =~= old(out)@ + "{\"timestamp\":"@ + jstr(rfc3339_of(e.timestamp as int))
            + ",\"event_type\":"@ + jstr(kind_json(e.kind)));
    }
    let ghost c1 = out@;
    match e.kind {
        BehaviorKind::Typing => {
            out.append(",\"typing\":{}");
        },
        BehaviorKind::Tap => {
            out.append(",\"tap\":{\"tap_duration_ms\":");
            match &e.tap_duration_ms {
                Some(d) => push_u64_dec(out, *d as u64),
                None => out.append("null"),
            }
            out.append(",\"long_press\":false}");
        },
        BehaviorKind::Scroll => {
            out.append(",\"scroll\":{");
            match &e.velocity {
                Some(v) => {
                    out.append("\"velocity\":");
                    push_milli_dec(out, *v);
                    proof {
                        reveal_strlit(",");
                    }
                    out.append(",");
                },
                None => {},
            }
            out.append("\"direction_reversal\":false}");
        },
    }
    proof {
        assert(out@ =~= c1 + event_payload_json(*e));
    }
    let ghost c2 = out@;
    out.append("}");
    proof {
        assert(out@ == c2 + "}"@);
        assert(out@ =~= old(out)@ + adapter_event_json(*e));
    }
}

/// A comma-separated list of behavioral events.
pub open spec fn adapter_events_json(s: Seq<AdapterEvent>) -> Seq<char>
    decreases s.len(),
{
    if s.len() == 0 {
        Seq::empty()
    } else if s.len() == 1 {
        adapter_event_json(s[0])
    } else {
        adapter_events_json(s.drop_last()) + seq![','] + adapter_event_json(s.last())
    }
}

/// The canonical JSON rendering of a behavioral session.
pub open spec fn spec_session_json(s: AdapterSession) -> Seq<char> {
    "{\"session_id\":"@ + jstr(s.session_id@)
        + ",\"device_id\":"@ + jstr(s.device_id@)
        + ",\"timezone\":"@ + jstr(s.timezone@)
        + ",\"start_time\":"@ + jstr(rfc3339_of(s.start_ms as int))
        + ",\"end_time\":"@ + jstr(rfc3339_of(s.end_ms as int))
        + ",\"events\":["@ + adapter_events_json(s.events@)
        + "]}"@
}

/// The session's text fields are JSON-safe.
pub open spec fn session_json_safe(s: AdapterSession) -> bool {
    &&& json_safe(s.session_id@)
    &&& json_safe(s.device_id@)
    &&& json_safe(s.timezone@)
}

/// Render a behavioral session as canonical JSON, or report that the session
/// identity embeds text JSON would have to escape.
#[verifier::rlimit(50)]
pub fn session_to_json(s: &AdapterSession) -> (r: Result<String, JsonError>)
    requires
        s.start_ms <= MAX_RFC3339_MS,
        s.end_ms <= MAX_RFC3339_MS,
        forall|i: int| 0 <= i < s.events@.len()
            ==> (#[trigger] s.events@[i]).timestamp <= MAX_RFC3339_MS,
    ensures
        session_json_safe(*s) ==> (r matches Ok(js) && js@ == spec_session_json(*s)),
        !session_json_safe(*s) ==> r is Err,
{
    if !(is_json_safe(s.session_id.as_str()) && is_json_safe(s.device_id.as_str())
        && is_json_safe(s.timezone.as_str())) {
        return Err(JsonError { message: String::from_str("session identity embeds text that JSON must escape") });
    }
    let mut out = String::new();
    out.append("{\"session_id\":");
    push_jstr(&mut out, s.session_id.as_str());
    out.append(",\"device_id\":");
    push_jstr(&mut out, s.device_id.as_str());
    out.append(",\"timezone\":");
    push_jstr(&mut out, s.timezone.as_str());
    proof {
        assert(out@ =~= "{\"session_id\":"@ + jstr(s.session_id@)
            + ",\"device_id\":"@ + jstr(s.device_id@)
            + ",\"timezone\":"@ + jstr(s.timezone@));
    }
    let ghost c1 = out@;
    out.append(",\"start_time\":");
    let start_str = rfc3339_utc_millis(s.start_ms);
    push_jstr(&mut out, start_str.as_str());
    out.append(",\"end_time\":");
    let end_str = rfc3339_utc_millis(s.end_ms);
    push_jstr(&mut out, end_str.as_str());
    proof {
        assert(out@ =~= c1 + ",\"start_time\":"@ + jstr(rfc3339_of(s.start_ms as int))
            + ",\"end_time\":"@ + jstr(rfc3339_of(s.end_ms as int)));
    }
    let ghost c2 = out@;
    out.append(",\"events\":[");
    let mut i: usize = 0;
    let ghost c3 = out@;
    while i < s.events.len()
        invariant
            0 <= i <= s.events@.len(),
            forall|k: int| 0 <= k < s.events@.len()
                ==> (#[trigger] s.events@[k]).timestamp <= MAX_RFC3339_MS,
            out@ == c3 + adapter_events_json(s.events@.take(i as int)),
            c3 == c2 + ",\"events\":["@,
        decreases s.events@.len() - i,
    {
        let ghost base = out@;
        proof {
            reveal_strlit(",");
            assert(s.events@.take(i + 1).drop_last() =~= s.events@.take(i as int));
            assert(s.events@.take(i + 1).last() == s.events@[i as int]);
        }
        if i > 0 {
            out.append(",");
        }
        push_adapter_event(&mut out, &s.events[i]);
        proof {
            if i > 0 {
                assert(out@ =~= base + seq![','] + adapter_event_json(s.events@[i as int]));
            } else {
                assert(out@ =~= base + adapter_event_json(s.events@[i as int]));
            }
            assert(out@ =~= c3 + adapter_events_json(s.events@.take(i + 1)));
        }
        i = i + 1;
    }
    out.append("]}");
    proof {
        assert(s.events@.take(s.events@.len() as int) =~= s.events@);
        assert(out@ =~= spec_session_json(*s));
    }
    Ok(out)
}

} // verus!
