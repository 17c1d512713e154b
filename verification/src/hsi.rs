//! Assembly of Human State Interface (HSI) snapshots.
//!
//! One snapshot is produced per closed window. Scores and confidences are
//! fixed-point values in thousandths, each within [0, 1000]. Snapshots are
//! never mutated after construction and never carry raw events, key
//! identities or coordinates.

use vstd::prelude::*;
use vstd::string::StringExecFns;
use crate::features::WindowFeatures;
use crate::strfmt::{spec_u64_dec, u64_to_string};
use crate::trusted::{rfc3339_of, rfc3339_utc_millis, uuid_v4_string, MAX_RFC3339_MS};
use crate::windowing::EventWindow;

verus! {

/// The HSI format version this library emits.
pub const HSI_VERSION: &'static str = "1.0";

/// The producer name recorded in every snapshot.
pub const PRODUCER_NAME: &'static str = "synheart-sensor-agent";

/// The producer software version recorded in every snapshot.
pub const PRODUCER_VERSION: &'static str = "0.1.0";

/// Direction semantics of an axis reading.
#[derive(Clone, Copy, Debug, PartialEq, Eq, Structural)]
pub enum HsiDirection {
    HigherIsMore,
    HigherIsLess,
    Bidirectional,
}

/// Kind of evidence source.
#[derive(Clone, Copy, Debug, PartialEq, Eq, Structural)]
pub enum HsiSourceType {
    Sensor,
    App,
    SelfReport,
    Observer,
    Derived,
    Other,
}

/// Producer identity: software name, version, and stable instance id.
#[derive(Clone, Debug, PartialEq, Eq)]
pub struct HsiProducer {
    pub name: String,
    pub version: String,
    pub instance_id: Option<String>,
}

/// One window definition: RFC3339 start and end, and an optional label.
#[derive(Clone, Debug, PartialEq, Eq)]
pub struct HsiWindow {
    pub start: String,
    pub end: String,
    pub label: Option<String>,
}

/// One named, scored, confidence-weighted behavioral signal.
/// `score` and `confidence` are in thousandths, within [0, 1000].
#[derive(Clone, Debug, PartialEq, Eq)]
pub struct HsiAxisReading {
    pub axis: String,
    pub score: Option<u64>,
    pub confidence: u64,
    pub window_id: String,
    pub direction: Option<HsiDirection>,
    pub unit: Option<String>,
    pub evidence_source_ids: Option<Vec<String>>,
    pub notes: Option<String>,
}

/// The readings of one axis domain.
#[derive(Clone, Debug, PartialEq, Eq)]
pub struct HsiAxesDomain {
    pub readings: Vec<HsiAxisReading>,
}

/// Axis readings by domain; this producer fills the behavior domain only.
#[derive(Clone, Debug, PartialEq, Eq)]
pub struct HsiAxes {
    pub affect: Option<HsiAxesDomain>,
    pub engagement: Option<HsiAxesDomain>,
    pub behavior: HsiAxesDomain,
}

/// Quality descriptor of an evidence source. `quality` is in thousandths.
#[derive(Clone, Debug, PartialEq, Eq)]
pub struct HsiSource {
    pub source_type: HsiSourceType,
    pub quality: u64,
    pub degraded: bool,
    pub notes: Option<String>,
}

/// The privacy attestation carried by every snapshot.
#[derive(Clone, Debug, PartialEq, Eq)]
pub struct HsiPrivacy {
    pub contains_pii: bool,
    pub raw_biosignals_allowed: bool,
    pub derived_metrics_allowed: bool,
    pub notes: Option<String>,
}

impl HsiPrivacy {
    /// The attestation always declares: no personal data, no raw biosignals,
    /// derived metrics only.
    pub fn standard() -> (r: HsiPrivacy)
        ensures
            !r.contains_pii,
            !r.raw_biosignals_allowed,
            r.derived_metrics_allowed,
            r.notes matches Some(n)
                && n@ == "No key content or coordinates captured - timing and magnitude only"@,
    {
        HsiPrivacy {
            contains_pii: false,
            raw_biosignals_allowed: false,
            derived_metrics_allowed: true,
            notes: Some(String::from_str("No key content or coordinates captured - timing and magnitude only")),
        }
    }
}

impl Default for HsiPrivacy {
    fn default() -> (r: Self)
        ensures
            !r.contains_pii,
            !r.raw_biosignals_allowed,
            r.derived_metrics_allowed,
    {
        HsiPrivacy::standard()
    }
}

/// Auditable raw counts carried alongside the readings. This is the one place
/// unnormalized feature values appear, never raw events.
#[derive(Clone, Debug, PartialEq, Eq)]
pub struct HsiMeta {
    /// Number of keyboard events in the window.
    pub keyboard_events: u64,
    /// Number of mouse events in the window.
    pub mouse_events: u64,
    /// Window duration in milliseconds.
    pub duration_ms: u64,
    /// Whether the window opened a new session.
    pub is_session_start: bool,
    /// Session identifier, when one was configured.
    pub session_id: Option<String>,
    /// Unnormalized typing rate (thousandths of presses per second).
    pub raw_typing_rate: u64,
    /// Unnormalized mean movement magnitude (thousandths of a unit).
    pub raw_mean_velocity: u64,
    /// Unnormalized click rate (thousandths of clicks per second).
    pub raw_click_rate: u64,
    /// Number of typing key presses.
    pub typing_tap_count: u32,
    /// Number of navigation key presses.
    pub navigation_key_count: u32,
    /// Unnormalized navigation key rate (thousandths per second).
    pub keyboard_scroll_rate: u64,
}

/// A complete HSI snapshot document.
#[derive(Clone, Debug, PartialEq, Eq)]
pub struct HsiSnapshot {
    pub hsi_version: String,
    pub observed_at_utc: String,
    pub computed_at_utc: String,
    pub producer: HsiProducer,
    pub window_ids: Vec<String>,
    pub windows: Vec<(String, HsiWindow)>,
    pub source_ids: Vec<String>,
    pub sources: Vec<(String, HsiSource)>,
    pub axes: HsiAxes,
    pub privacy: HsiPrivacy,
    pub meta: HsiMeta,
}

/// Source quality as a step function of the window's total event count.
pub open spec fn spec_quality_milli(count: int) -> int {
    if count == 0 { 0 } else if count < 10 { 500 } else if count < 50 { 750 } else { 950 }
}

/// Reading confidence: nine tenths of the source quality.
pub open spec fn spec_confidence_milli(count: int) -> int {
    spec_quality_milli(count) * 9 / 10
}

/// The identifier of the snapshot's window: `w_` followed by the computation
/// timestamp.
pub open spec fn spec_window_id(computed_at_ms: int) -> Seq<char> {
    "w_"@ + spec_u64_dec(computed_at_ms)
}

/// A rate in thousandths, normalized against a cap of `cap` units and clamped
/// to one.
pub open spec fn spec_normalized_rate(rate: int, cap: int) -> int {
    if rate / cap > 1000 { 1000 } else { rate / cap }
}

/// An axis reading carries exactly the given fields.
pub open spec fn reading_matches(
    rd: HsiAxisReading,
    axis: Seq<char>,
    score: Option<u64>,
    confidence: int,
    window_id: Seq<char>,
    direction: HsiDirection,
    source_id: Seq<char>,
) -> bool {
    &&& rd.axis@ == axis
    &&& rd.score == score
    &&& rd.confidence == confidence
    &&& rd.window_id@ == window_id
    &&& rd.direction == Some(direction)
    &&& rd.evidence_source_ids matches Some(ids) && ids@.len() == 1 && ids@[0]@ == source_id
}

/// The builder's caller-supplied identifiers are JSON-safe: the instance id
/// and, when set, the session id embed into JSON without escaping.
pub open spec fn builder_ids_json_safe(b: HsiBuilder) -> bool {
    &&& crate::jsonout::json_safe(b.instance_id@)
    &&& (b.session_id matches Some(s) ==> crate::jsonout::json_safe(s@))
}

/// The complete characterization of the snapshot a builder assembles from one
/// window, its features, and a computation timestamp: every field is pinned
/// as a function of those inputs, so the snapshot is determined by them up to
/// the views of its text.
pub open spec fn built_snapshot_matches(
    r: HsiSnapshot,
    builder: HsiBuilder,
    w: crate::windowing::WindowV,
    f: WindowFeatures,
    computed_at_ms: u64,
) -> bool {
    let count = w.keyboard_events.len() as int + w.mouse_events.len() as int;
    let conf = spec_confidence_milli(count);
    let wid = spec_window_id(computed_at_ms as int);
    let sid = "s_keyboard_mouse_"@ + builder.instance_id@;
    &&& r.hsi_version@ == "1.0"@
    &&& r.observed_at_utc@ == rfc3339_of(w.end as int)
    &&& r.computed_at_utc@ == rfc3339_of(computed_at_ms as int)
    &&& r.producer.name@ == "synheart-sensor-agent"@
    &&& r.producer.version@ == PRODUCER_VERSION@
    &&& r.producer.instance_id matches Some(iid) && iid@ == builder.instance_id@
    &&& r.window_ids@.len() == 1 && r.window_ids@[0]@ == wid
    &&& r.windows@.len() == 1 && r.windows@[0].0@ == wid
    &&& r.windows@[0].1.start@ == rfc3339_of(w.start as int)
    &&& r.windows@[0].1.end@ == rfc3339_of(w.end as int)
    &&& (w.is_session_start
        ==> (r.windows@[0].1.label matches Some(l) && l@ == "session_start"@))
    &&& (!w.is_session_start ==> r.windows@[0].1.label is None)
    &&& r.source_ids@.len() == 1 && r.source_ids@[0]@ == sid
    &&& r.sources@.len() == 1 && r.sources@[0].0@ == sid
    &&& r.sources@[0].1.source_type == HsiSourceType::Sensor
    &&& r.sources@[0].1.quality == spec_quality_milli(count)
    &&& r.sources@[0].1.degraded == (count < 10)
    &&& (count < 10
        ==> (r.sources@[0].1.notes matches Some(n) && n@ == "Low event count in window"@))
    &&& (count >= 10 ==> r.sources@[0].1.notes is None)
    &&& r.axes.affect is None && r.axes.engagement is None
    &&& r.axes.behavior.readings@.len() == 12
    &&& reading_matches(r.axes.behavior.readings@[0], "typing_rate"@,
            Some(spec_normalized_rate(f.keyboard.typing_rate as int, 10) as u64),
            conf, wid, HsiDirection::HigherIsMore, sid)
    &&& reading_matches(r.axes.behavior.readings@[1], "typing_burstiness"@,
            Some(f.keyboard.burst_index), conf, wid, HsiDirection::Bidirectional, sid)
    &&& reading_matches(r.axes.behavior.readings@[2], "session_continuity"@,
            Some(f.keyboard.session_continuity as u64), conf, wid,
            HsiDirection::HigherIsMore, sid)
    &&& reading_matches(r.axes.behavior.readings@[3], "idle_ratio"@,
            Some(f.mouse.idle_ratio), conf, wid, HsiDirection::HigherIsLess, sid)
    &&& reading_matches(r.axes.behavior.readings@[4], "focus_continuity"@,
            Some(f.behavioral.focus_continuity_proxy), conf, wid,
            HsiDirection::HigherIsMore, sid)
    &&& reading_matches(r.axes.behavior.readings@[5], "interaction_rhythm"@,
            Some(f.behavioral.interaction_rhythm), conf, wid,
            HsiDirection::HigherIsMore, sid)
    &&& reading_matches(r.axes.behavior.readings@[6], "motor_stability"@,
            Some(f.behavioral.motor_stability), conf, wid,
            HsiDirection::HigherIsMore, sid)
    &&& reading_matches(r.axes.behavior.readings@[7], "friction"@,
            Some(f.behavioral.friction), conf, wid, HsiDirection::HigherIsMore, sid)
    &&& reading_matches(r.axes.behavior.readings@[8], "typing_cadence_stability"@,
            Some(f.keyboard.typing_cadence_stability), conf, wid,
            HsiDirection::HigherIsMore, sid)
    &&& reading_matches(r.axes.behavior.readings@[9], "typing_gap_ratio"@,
            Some(f.keyboard.typing_gap_ratio), conf, wid,
            HsiDirection::HigherIsLess, sid)
    &&& reading_matches(r.axes.behavior.readings@[10], "typing_interaction_intensity"@,
            Some(f.keyboard.typing_interaction_intensity), conf, wid,
            HsiDirection::HigherIsMore, sid)
    &&& reading_matches(r.axes.behavior.readings@[11], "keyboard_scroll_rate"@,
            Some(spec_normalized_rate(f.keyboard.keyboard_scroll_rate as int, 5) as u64),
            conf, wid, HsiDirection::HigherIsMore, sid)
    &&& (r.axes.behavior.readings@[0].unit matches Some(u) && u@ == "keys_per_sec_normalized"@)
    &&& r.axes.behavior.readings@[1].unit is None
    &&& r.axes.behavior.readings@[2].unit is None
    &&& (r.axes.behavior.readings@[3].unit matches Some(u) && u@ == "ratio"@)
    &&& r.axes.behavior.readings@[4].unit is None
    &&& r.axes.behavior.readings@[5].unit is None
    &&& r.axes.behavior.readings@[6].unit is None
    &&& r.axes.behavior.readings@[7].unit is None
    &&& r.axes.behavior.readings@[8].unit is None
    &&& (r.axes.behavior.readings@[9].unit matches Some(u) && u@ == "ratio"@)
    &&& r.axes.behavior.readings@[10].unit is None
    &&& (r.axes.behavior.readings@[11].unit matches Some(u) && u@ == "nav_keys_per_sec_normalized"@)
    &&& forall|i: int| 0 <= i < 12 ==> (#[trigger] r.axes.behavior.readings@[i]).notes is None
    &&& forall|i: int| 0 <= i < 12 ==> (#[trigger] r.axes.behavior.readings@[i]).confidence <= 1000
    &&& forall|i: int| 0 <= i < 12
        ==> ((#[trigger] r.axes.behavior.readings@[i]).score matches Some(sc) && sc <= 1000)
    &&& !r.privacy.contains_pii
    &&& !r.privacy.raw_biosignals_allowed
    &&& r.privacy.derived_metrics_allowed
    &&& (r.privacy.notes matches Some(n)
        && n@ == "No key content or coordinates captured - timing and magnitude only"@)
    &&& r.meta.keyboard_events == w.keyboard_events.len()
    &&& r.meta.mouse_events == w.mouse_events.len()
    &&& r.meta.duration_ms == w.end - w.start
    &&& r.meta.is_session_start == w.is_session_start
    &&& (builder.session_id matches Some(s)
        ==> r.meta.session_id matches Some(t) && t@ == s@)
    &&& (builder.session_id is None ==> r.meta.session_id is None)
    &&& r.meta.raw_typing_rate == f.keyboard.typing_rate
    &&& r.meta.raw_mean_velocity == f.mouse.mean_velocity
    &&& r.meta.raw_click_rate == f.mouse.click_rate
    &&& r.meta.typing_tap_count == f.keyboard.typing_tap_count
    &&& r.meta.navigation_key_count == f.keyboard.navigation_key_count
    &&& r.meta.keyboard_scroll_rate == f.keyboard.keyboard_scroll_rate
}

/// Rendering congruence for reading lists: element-wise equal renderings give
/// an equal list rendering.
proof fn lemma_readings_json_congruent(a: Seq<HsiAxisReading>, b: Seq<HsiAxisReading>)
    requires
        a.len() == b.len(),
        forall|i: int| 0 <= i < a.len()
            ==> crate::jsonout::reading_json(#[trigger] a[i]) == crate::jsonout::reading_json(#[trigger] b[i]),
    ensures
        crate::jsonout::readings_json(a) == crate::jsonout::readings_json(b),
    decreases a.len(),
{
    if a.len() > 1 {
        assert(forall|i: int| 0 <= i < a.drop_last().len()
            ==> #[trigger] a.drop_last()[i] == a[i]);
        assert(forall|i: int| 0 <= i < b.drop_last().len()
            ==> #[trigger] b.drop_last()[i] == b[i]);
        lemma_readings_json_congruent(a.drop_last(), b.drop_last());
    }
}

/// The snapshot builder is deterministic: any two snapshots that match the
/// same builder identity, window, features and computation timestamp render
/// to the same canonical document. Every field a snapshot carries is pinned
/// by `built_snapshot_matches` up to text views, and the rendering depends on
/// nothing else.
pub proof fn lemma_build_deterministic(
    s1: HsiSnapshot,
    s2: HsiSnapshot,
    builder: HsiBuilder,
    w: crate::windowing::WindowV,
    f: WindowFeatures,
    computed_at_ms: u64,
)
    requires
        built_snapshot_matches(s1, builder, w, f, computed_at_ms),
        built_snapshot_matches(s2, builder, w, f, computed_at_ms),
    ensures
        crate::jsonout::spec_snapshot_json(s1) == crate::jsonout::spec_snapshot_json(s2),
{
    assert(crate::jsonout::snapshot_head_json(s1) == crate::jsonout::snapshot_head_json(s2));
    assert(crate::jsonout::producer_json(s1.producer) == crate::jsonout::producer_json(s2.producer));
    assert(crate::jsonout::strings_json(s1.window_ids@) == crate::jsonout::strings_json(s2.window_ids@));
    assert(crate::jsonout::window_json(s1.windows@[0].1) == crate::jsonout::window_json(s2.windows@[0].1));
    assert(crate::jsonout::windows_json(s1.windows@) == crate::jsonout::windows_json(s2.windows@));
    assert(crate::jsonout::strings_json(s1.source_ids@) == crate::jsonout::strings_json(s2.source_ids@));
    assert(crate::jsonout::source_json(s1.sources@[0].1) == crate::jsonout::source_json(s2.sources@[0].1));
    assert(crate::jsonout::sources_json(s1.sources@) == crate::jsonout::sources_json(s2.sources@));
    assert forall|i: int| 0 <= i < s1.axes.behavior.readings@.len()
        implies crate::jsonout::reading_json(#[trigger] s1.axes.behavior.readings@[i])
            == crate::jsonout::reading_json(#[trigger] s2.axes.behavior.readings@[i]) by {
        let r1 = s1.axes.behavior.readings@[i];
        let r2 = s2.axes.behavior.readings@[i];
        assert(crate::jsonout::reading_core_json(r1) == crate::jsonout::reading_core_json(r2));
        assert(crate::jsonout::opt_direction_json(r1.direction)
            == crate::jsonout::opt_direction_json(r2.direction));
        assert(crate::jsonout::opt_str_json("unit"@, r1.unit)
            == crate::jsonout::opt_str_json("unit"@, r2.unit));
        assert(crate::jsonout::opt_evidence_json(r1.evidence_source_ids)
            == crate::jsonout::opt_evidence_json(r2.evidence_source_ids));
        assert(crate::jsonout::opt_str_json("notes"@, r1.notes)
            == crate::jsonout::opt_str_json("notes"@, r2.notes));
    }
    lemma_readings_json_congruent(s1.axes.behavior.readings@, s2.axes.behavior.readings@);
    assert(crate::jsonout::privacy_json(s1.privacy) == crate::jsonout::privacy_json(s2.privacy));
    assert(crate::jsonout::meta_json(s1.meta) == crate::jsonout::meta_json(s2.meta));
}

/// Every text the builder itself supplies is JSON-safe.
proof fn lemma_builder_text_json_safe()
    ensures
        crate::jsonout::json_safe("1.0"@),
        crate::jsonout::json_safe("synheart-sensor-agent"@),
        crate::jsonout::json_safe("0.1.0"@),
        crate::jsonout::json_safe("session_start"@),
        crate::jsonout::json_safe("Low event count in window"@),
        crate::jsonout::json_safe("No key content or coordinates captured - timing and magnitude only"@),
        crate::jsonout::json_safe("typing_rate"@),
        crate::jsonout::json_safe("typing_burstiness"@),
        crate::jsonout::json_safe("session_continuity"@),
        crate::jsonout::json_safe("idle_ratio"@),
        crate::jsonout::json_safe("focus_continuity"@),
        crate::jsonout::json_safe("interaction_rhythm"@),
        crate::jsonout::json_safe("motor_stability"@),
        crate::jsonout::json_safe("friction"@),
        crate::jsonout::json_safe("typing_cadence_stability"@),
        crate::jsonout::json_safe("typing_gap_ratio"@),
        crate::jsonout::json_safe("typing_interaction_intensity"@),
        crate::jsonout::json_safe("keyboard_scroll_rate"@),
        crate::jsonout::json_safe("keys_per_sec_normalized"@),
        crate::jsonout::json_safe("ratio"@),
        crate::jsonout::json_safe("nav_keys_per_sec_normalized"@),
{
    broadcast use vstd::string::group_string_axioms;

    reveal_strlit("1.0");
    reveal_strlit("synheart-sensor-agent");
    reveal_strlit("0.1.0");
    reveal_strlit("session_start");
    reveal_strlit("Low event count in window");
    reveal_strlit("No key content or coordinates captured - timing and magnitude only");
    reveal_strlit("typing_rate");
    reveal_strlit("typing_burstiness");
    reveal_strlit("session_continuity");
    reveal_strlit("idle_ratio");
    reveal_strlit("focus_continuity");
    reveal_strlit("interaction_rhythm");
    reveal_strlit("motor_stability");
    reveal_strlit("friction");
    reveal_strlit("typing_cadence_stability");
    reveal_strlit("typing_gap_ratio");
    reveal_strlit("typing_interaction_intensity");
    reveal_strlit("keyboard_scroll_rate");
    reveal_strlit("keys_per_sec_normalized");
    reveal_strlit("ratio");
    reveal_strlit("nav_keys_per_sec_normalized");
}

/// Builder of HSI snapshots, carrying a stable instance id and an optional
/// session id.
pub struct HsiBuilder {
    pub instance_id: String,
    pub session_id: Option<String>,
}

impl HsiBuilder {
    /// A new builder with a freshly generated instance identifier. The
    /// generated identifier is always JSON-safe, so rendering succeeds until
    /// a session id with unescapable text is configured.
    pub fn new() -> (r: Self)
        ensures
            r.instance_id@.len() == 36,
            r.session_id is None,
            builder_ids_json_safe(r),
    {
        HsiBuilder { instance_id: uuid_v4_string(), session_id: None }
    }

    /// The same builder with the session id set.
    pub fn with_session_id(self, session_id: String) -> (r: Self)
        ensures
            r.instance_id == self.instance_id,
            r.session_id matches Some(s) && s == session_id,
            builder_ids_json_safe(self) && crate::jsonout::json_safe(session_id@)
                ==> builder_ids_json_safe(r),
    {
        HsiBuilder { instance_id: self.instance_id, session_id: Some(session_id) }
    }

    /// The instance identifier.
    pub fn instance_id(&self) -> (r: String)
        ensures
            r@ == self.instance_id@,
    {
        self.instance_id.clone()
    }

    /// Assemble the snapshot for one closed window and its computed features.
    /// Every field is pinned by `built_snapshot_matches`, so the snapshot is
    /// determined by (builder identity, window, features, timestamp); the
    /// caller supplies the computation timestamp, from which the window
    /// identifier is derived. When the builder's identifiers are JSON-safe,
    /// so is the whole document.
    #[verifier::rlimit(100)]
    pub fn build(&self, window: &EventWindow, features: &WindowFeatures, computed_at_ms: u64) -> (r: HsiSnapshot)
        requires
            window@.wf(),
            window@.start <= MAX_RFC3339_MS,
            window@.end <= MAX_RFC3339_MS,
            computed_at_ms <= MAX_RFC3339_MS,
            features.keyboard.wf(),
            features.mouse.wf(),
            features.behavioral.wf(),
            features.keyboard.session_continuity >= 0,
        ensures
            built_snapshot_matches(r, *self, window@, *features, computed_at_ms),
            builder_ids_json_safe(*self) ==> crate::jsonout::snapshot_json_safe(r),
    {
        let event_count: u64 = window.event_count();

        // Window identifier derived from the computation timestamp.
        let mut window_id = String::from_str("w_");
        window_id.append(u64_to_string(computed_at_ms).as_str());
        proof {
            assert(window_id@ == spec_window_id(computed_at_ms as int));
        }

        // Source identifier derived from the instance id.
        let mut source_id = String::from_str("s_keyboard_mouse_");
        source_id.append(self.instance_id.as_str());

        // Source quality: a step function of the event count.
        let quality: u64 = if event_count == 0 {
            0
        } else if event_count < 10 {
            500
        } else if event_count < 50 {
            750
        } else {
            950
        };
        let degraded: bool = event_count < 10;
        let confidence: u64 = quality * 9 / 10;

        let start_str = rfc3339_utc_millis(window.start);
        let end_str = rfc3339_utc_millis(window.end);
        let observed_str = rfc3339_utc_millis(window.end);
        let computed_str = rfc3339_utc_millis(computed_at_ms);
        let hsi_window = HsiWindow {
            start: start_str,
            end: end_str,
            label: if window.is_session_start {
                Some(String::from_str("session_start"))
            } else {
                None
            },
        };

        let source = HsiSource {
            source_type: HsiSourceType::Sensor,
            quality,
            degraded,
            notes: if degraded {
                Some(String::from_str("Low event count in window"))
            } else {
                None
            },
        };

        let kb = &features.keyboard;
        let mo = &features.mouse;
        let bh = &features.behavioral;

        let typing_rate_score: u64 = {
            let t = kb.typing_rate / 10;
            if t > 1000 { 1000 } else { t }
        };
        let scroll_rate_score: u64 = {
            let t = kb.keyboard_scroll_rate / 5;
            if t > 1000 { 1000 } else { t }
        };

        let mut readings: Vec<HsiAxisReading> = Vec::new();
        readings.push(self.reading("typing_rate", Some(typing_rate_score), confidence, &window_id,
            HsiDirection::HigherIsMore, Some("keys_per_sec_normalized"), &source_id));
        readings.push(self.reading("typing_burstiness", Some(kb.burst_index), confidence, &window_id,
            HsiDirection::Bidirectional, None, &source_id));
        readings.push(self.reading("session_continuity", Some(kb.session_continuity as u64), confidence,
            &window_id, HsiDirection::HigherIsMore, None, &source_id));
        readings.push(self.reading("idle_ratio", Some(mo.idle_ratio), confidence, &window_id,
            HsiDirection::HigherIsLess, Some("ratio"), &source_id));
        readings.push(self.reading("focus_continuity", Some(bh.focus_continuity_proxy), confidence,
            &window_id, HsiDirection::HigherIsMore, None, &source_id));
        readings.push(self.reading("interaction_rhythm", Some(bh.interaction_rhythm), confidence,
            &window_id, HsiDirection::HigherIsMore, None, &source_id));
        readings.push(self.reading("motor_stability", Some(bh.motor_stability), confidence, &window_id,
            HsiDirection::HigherIsMore, None, &source_id));
        readings.push(self.reading("friction", Some(bh.friction), confidence, &window_id,
            HsiDirection::HigherIsMore, None, &source_id));
        readings.push(self.reading("typing_cadence_stability", Some(kb.typing_cadence_stability),
            confidence, &window_id, HsiDirection::HigherIsMore, None, &source_id));
        readings.push(self.reading("typing_gap_ratio", Some(kb.typing_gap_ratio), confidence, &window_id,
            HsiDirection::HigherIsLess, Some("ratio"), &source_id));
        readings.push(self.reading("typing_interaction_intensity", Some(kb.typing_interaction_intensity),
            confidence, &window_id, HsiDirection::HigherIsMore, None, &source_id));
        readings.push(self.reading("keyboard_scroll_rate", Some(scroll_rate_score), confidence,
            &window_id, HsiDirection::HigherIsMore, Some("nav_keys_per_sec_normalized"), &source_id));

        let session_id: Option<String> = match &self.session_id {
            Some(s) => Some(s.clone()),
            None => None,
        };

        let meta = HsiMeta {
            keyboard_events: window.keyboard_events.len() as u64,
            mouse_events: window.mouse_events.len() as u64,
            duration_ms: window.end - window.start,
            is_session_start: window.is_session_start,
            session_id,
            raw_typing_rate: kb.typing_rate,
            raw_mean_velocity: mo.mean_velocity,
            raw_click_rate: mo.click_rate,
            typing_tap_count: kb.typing_tap_count,
            navigation_key_count: kb.navigation_key_count,
            keyboard_scroll_rate: kb.keyboard_scroll_rate,
        };

        let mut window_ids: Vec<String> = Vec::new();
        window_ids.push(window_id.clone());
        let mut windows: Vec<(String, HsiWindow)> = Vec::new();
        windows.push((window_id, hsi_window));
        let mut source_ids: Vec<String> = Vec::new();
        source_ids.push(source_id.clone());
        let mut sources: Vec<(String, HsiSource)> = Vec::new();
        sources.push((source_id, source));

        let result = HsiSnapshot {
            hsi_version: String::from_str(HSI_VERSION),
            observed_at_utc: observed_str,
            computed_at_utc: computed_str,
            producer: HsiProducer {
                name: String::from_str(PRODUCER_NAME),
                version: String::from_str(PRODUCER_VERSION),
                instance_id: Some(self.instance_id.clone()),
            },
            window_ids,
            windows,
            source_ids,
            sources,
            axes: HsiAxes {
                affect: None,
                engagement: None,
                behavior: HsiAxesDomain { readings },
            },
            privacy: HsiPrivacy::standard(),
            meta,
        };
        proof {
            if builder_ids_json_safe(*self) {
                lemma_builder_text_json_safe();
                crate::strfmt::lemma_u64_dec_json_safe(computed_at_ms as int);
                reveal_strlit("w_");
                reveal_strlit("s_keyboard_mouse_");
                let wid = spec_window_id(computed_at_ms as int);
                let sid = "s_keyboard_mouse_"@ + self.instance_id@;
                assert("w_"@.len() == 2);
                assert("s_keyboard_mouse_"@.len() == 17);
                assert forall|i: int| 0 <= i < wid.len()
                    implies ' ' <= #[trigger] wid[i] && wid[i] <= '~'
                        && wid[i] != '"' && wid[i] != '\\' by {
                    if i < 2 {
                        assert(wid[i] == "w_"@[i]);
                    } else {
                        assert(wid[i] == spec_u64_dec(computed_at_ms as int)[i - 2]);
                    }
                }
                assert(crate::jsonout::json_safe(wid));
                assert forall|i: int| 0 <= i < sid.len()
                    implies ' ' <= #[trigger] sid[i] && sid[i] <= '~'
                        && sid[i] != '"' && sid[i] != '\\' by {
                    if i < 17 {
                        assert(sid[i] == "s_keyboard_mouse_"@[i]);
                    } else {
                        assert(sid[i] == self.instance_id@[i - 17]);
                    }
                }
                assert(crate::jsonout::json_safe(sid));
                assert(crate::jsonout::strings_safe(result.window_ids@));
                assert(crate::jsonout::windows_safe(result.windows@));
                assert(crate::jsonout::strings_safe(result.source_ids@));
                assert(crate::jsonout::sources_safe(result.sources@));
                assert forall|i: int| 0 <= i < result.axes.behavior.readings@.len()
                    implies crate::jsonout::reading_safe(#[trigger] result.axes.behavior.readings@[i]) by {
                    let rd = result.axes.behavior.readings@[i];
                    assert(rd.window_id@ == wid);
                    assert(rd.evidence_source_ids matches Some(ids)
                        ==> crate::jsonout::strings_safe(ids@));
                    if i == 0 {
                        assert(rd.axis@ == "typing_rate"@);
                    } else if i == 1 {
                        assert(rd.axis@ == "typing_burstiness"@);
                    } else if i == 2 {
                        assert(rd.axis@ == "session_continuity"@);
                    } else if i == 3 {
                        assert(rd.axis@ == "idle_ratio"@);
                    } else if i == 4 {
                        assert(rd.axis@ == "focus_continuity"@);
                    } else if i == 5 {
                        assert(rd.axis@ == "interaction_rhythm"@);
                    } else if i == 6 {
                        assert(rd.axis@ == "motor_stability"@);
                    } else if i == 7 {
                        assert(rd.axis@ == "friction"@);
                    } else if i == 8 {
                        assert(rd.axis@ == "typing_cadence_stability"@);
                    } else if i == 9 {
                        assert(rd.axis@ == "typing_gap_ratio"@);
                    } else if i == 10 {
                        assert(rd.axis@ == "typing_interaction_intensity"@);
                    } else {
                        assert(rd.axis@ == "keyboard_scroll_rate"@);
                    }
                }
                assert(crate::jsonout::snapshot_json_safe(result));
            }
        }
        result
    }

    /// Assemble the snapshot for one closed window and render it as canonical
    /// JSON. Succeeds whenever the builder's own identifiers are JSON-safe
    /// (everything else the document embeds is safe by construction), and the
    /// rendered text is the canonical JSON of exactly the snapshot these
    /// inputs determine: either the complete document or an explicit failure,
    /// never partial output.
    pub fn build_json(&self, window: &EventWindow, features: &WindowFeatures, computed_at_ms: u64) -> (r: Result<String, crate::jsonout::JsonError>)
        requires
            window@.wf(),
            window@.start <= MAX_RFC3339_MS,
            window@.end <= MAX_RFC3339_MS,
            computed_at_ms <= MAX_RFC3339_MS,
            features.keyboard.wf(),
            features.mouse.wf(),
            features.behavioral.wf(),
            features.keyboard.session_continuity >= 0,
        ensures
            builder_ids_json_safe(*self) ==> r is Ok,
            r matches Ok(js) ==> exists|snap: HsiSnapshot|
                #[trigger] built_snapshot_matches(snap, *self, window@, *features, computed_at_ms)
                    && crate::jsonout::snapshot_json_safe(snap)
                    && js@ == crate::jsonout::spec_snapshot_json(snap),
    {
        let snapshot = self.build(window, features, computed_at_ms);
        let r = crate::jsonout::snapshot_to_json(&snapshot);
        proof {
            if crate::jsonout::snapshot_json_safe(snapshot) {
                let witness = snapshot;
                assert(built_snapshot_matches(witness, *self, window@, *features, computed_at_ms));
                assert(r matches Ok(js) ==> js@ == crate::jsonout::spec_snapshot_json(witness));
            }
        }
        r
    }

    /// One axis reading with shared confidence and evidence source.
    fn reading(
        &self,
        axis: &str,
        score: Option<u64>,
        confidence: u64,
        window_id: &String,
        direction: HsiDirection,
        unit: Option<&str>,
        source_id: &String,
    ) -> (r: HsiAxisReading)
        ensures
            reading_matches(r, axis@, score, confidence as int, window_id@, direction, source_id@),
            unit matches Some(u) ==> (r.unit matches Some(x) && x@ == u@),
            unit is None ==> r.unit is None,
            r.notes is None,
    {
        let mut ids: Vec<String> = Vec::new();
        ids.push(source_id.clone());
        HsiAxisReading {
            axis: String::from_str(axis),
            score,
            confidence,
            window_id: window_id.clone(),
            direction: Some(direction),
            unit: match unit {
                Some(u) => Some(String::from_str(u)),
                None => None,
            },
            evidence_source_ids: Some(ids),
            notes: None,
        }
    }
}

impl Default for HsiBuilder {
    fn default() -> (r: Self)
        ensures
            r.instance_id@.len() == 36,
            r.session_id is None,
    {
        HsiBuilder::new()
    }
}

} // verus!
