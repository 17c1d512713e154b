//! Statistical feature extraction over a completed event window.
//!
//! All quantities are fixed-point integers: rates, ratios, scores and
//! millisecond statistics are expressed in thousandths (a score of 1.0 is
//! stored as 1000). Typing metrics are computed from typing-tap events only;
//! navigation keys feed a separate keyboard scroll rate and never contribute
//! to typing metrics.

use vstd::prelude::*;
use crate::events::{KeyboardEvent, KeyboardEventType, MouseEvent, MouseEventType, iabs};
use crate::math::{int_sqrt, floor_sqrt};
use crate::windowing::{EventWindow, MAX_WINDOW_MS};

verus! {

/// An inter-press interval longer than this many milliseconds is a pause.
pub const PAUSE_THRESHOLD_MS: i64 = 500;

/// An inter-press interval shorter than this many milliseconds is a burst.
pub const BURST_THRESHOLD_MS: i64 = 100;

/// Movements smaller than this magnitude (thousandths of a unit) are
/// micro-adjustments.
pub const MICRO_ADJUSTMENT_MILLI: u64 = 5_000;

/// Consecutive velocity changes beyond this magnitude (thousandths of a unit)
/// count as acceleration spikes.
pub const ACCELERATION_SPIKE_MILLI: i64 = 50_000;

/// A gap between consecutive move events beyond this many milliseconds
/// contributes its excess to idle time.
pub const IDLE_THRESHOLD_MS: i64 = 1_000;

/// A key hold outside [20, 2000] milliseconds is implausible and filtered.
pub const HOLD_MIN_MS: i64 = 20;
/// See [`HOLD_MIN_MS`].
pub const HOLD_MAX_MS: i64 = 2_000;

/// Bound on the absolute value an input to the standard deviation may take.
pub const STD_DEV_VALUE_BOUND: i64 = 0x1000_0000_0000;

// ===========================================================================
// Spec-level sequence statistics
// ===========================================================================

/// Sum of a sequence of integers.
pub open spec fn sum_of(s: Seq<int>) -> int
    decreases s.len(),
{
    if s.len() == 0 { 0 } else { sum_of(s.drop_last()) + s.last() }
}

/// An interval is a pause.
pub open spec fn is_pause(v: int) -> bool {
    v > PAUSE_THRESHOLD_MS
}

/// An interval is a burst.
pub open spec fn is_burst(v: int) -> bool {
    v < BURST_THRESHOLD_MS
}

/// An interval counts toward active typing time (at most twice the pause
/// threshold).
pub open spec fn is_active(v: int) -> bool {
    v <= 2 * PAUSE_THRESHOLD_MS
}

/// Number of pause intervals.
pub open spec fn count_pauses(s: Seq<int>) -> int
    decreases s.len(),
{
    if s.len() == 0 { 0 } else { count_pauses(s.drop_last()) + if is_pause(s.last()) { 1int } else { 0int } }
}

/// Total duration of the pause intervals.
pub open spec fn sum_pauses(s: Seq<int>) -> int
    decreases s.len(),
{
    if s.len() == 0 { 0 } else { sum_pauses(s.drop_last()) + if is_pause(s.last()) { s.last() } else { 0int } }
}

/// Number of burst intervals.
pub open spec fn count_bursts(s: Seq<int>) -> int
    decreases s.len(),
{
    if s.len() == 0 { 0 } else { count_bursts(s.drop_last()) + if is_burst(s.last()) { 1int } else { 0int } }
}

/// Total duration of the active intervals.
pub open spec fn sum_active(s: Seq<int>) -> int
    decreases s.len(),
{
    if s.len() == 0 { 0 } else { sum_active(s.drop_last()) + if is_active(s.last()) { s.last() } else { 0int } }
}

/// Truncating division (rounds toward zero), for a positive divisor.
pub open spec fn div_trunc(a: int, b: int) -> int {
    if a >= 0 { a / b } else { -((-a) / b) }
}

/// Differences between consecutive elements.
pub open spec fn seq_diffs(s: Seq<int>) -> Seq<int> {
    if s.len() <= 1 { Seq::empty() } else { Seq::new((s.len() - 1) as nat, |i: int| s[i + 1] - s[i]) }
}

/// Truncated mean of a non-empty sequence.
pub open spec fn mean_of(s: Seq<int>) -> int {
    div_trunc(sum_of(s), s.len() as int)
}

/// Squared deviations from the truncated mean.
pub open spec fn sq_devs(s: Seq<int>) -> Seq<int> {
    Seq::new(s.len(), |i: int| (s[i] - mean_of(s)) * (s[i] - mean_of(s)))
}

/// Population variance with truncated mean and truncated division.
pub open spec fn variance_of(s: Seq<int>) -> int {
    sum_of(sq_devs(s)) / (s.len() as int)
}

/// Population standard deviation, rounded down; zero for fewer than two
/// values.
pub open spec fn spec_std_dev(s: Seq<int>) -> int {
    if s.len() < 2 { 0 } else { floor_sqrt(variance_of(s)) }
}

/// Counting never exceeds the sequence length, and the pause and active sums
/// are bounded by `len * b` whenever every element is within `b` in absolute
/// value.
pub proof fn lemma_interval_stats_bounds(s: Seq<int>, b: int)
    requires
        0 <= b,
        forall|i: int| 0 <= i < s.len() ==> iabs(#[trigger] s[i]) <= b,
    ensures
        0 <= count_pauses(s) <= s.len(),
        0 <= count_bursts(s) <= s.len(),
        0 <= sum_pauses(s) <= count_pauses(s) * b,
        -(s.len() * b) <= sum_active(s) <= s.len() * b,
    decreases s.len(),
{
    if s.len() > 0 {
        lemma_interval_stats_bounds(s.drop_last(), b);
        assert((s.len() - 1) * b + b == s.len() * b) by (nonlinear_arith);
        if is_pause(s.last()) {
            assert((count_pauses(s.drop_last()) + 1) * b == count_pauses(s.drop_last()) * b + b)
                by (nonlinear_arith);
        }
    }
}

/// The sum of a sequence whose elements are bounded in absolute value by `b`
/// is bounded by `len * b` in absolute value.
pub proof fn lemma_sum_bounds(s: Seq<int>, b: int)
    requires
        0 <= b,
        forall|i: int| 0 <= i < s.len() ==> iabs(#[trigger] s[i]) <= b,
    ensures
        -(s.len() * b) <= sum_of(s) <= s.len() * b,
    decreases s.len(),
{
    if s.len() > 0 {
        lemma_sum_bounds(s.drop_last(), b);
        assert((s.len() - 1) * b + b == s.len() * b) by (nonlinear_arith);
    }
}

/// A sum of non-negative elements is non-negative, and so is the active sum.
pub proof fn lemma_sum_nonneg(s: Seq<int>)
    requires
        forall|i: int| 0 <= i < s.len() ==> 0 <= #[trigger] s[i],
    ensures
        0 <= sum_of(s),
        0 <= sum_active(s),
    decreases s.len(),
{
    if s.len() > 0 {
        lemma_sum_nonneg(s.drop_last());
    }
}

// ===========================================================================
// Spec-level event selections
// ===========================================================================

/// A content-producing key press.
pub open spec fn is_typing_press(e: KeyboardEvent) -> bool {
    e.event_type == KeyboardEventType::TypingTap && e.is_key_down
}

/// A navigation key press.
pub open spec fn is_nav_press(e: KeyboardEvent) -> bool {
    e.event_type == KeyboardEventType::NavigationKey && e.is_key_down
}

/// Timestamps of typing key presses, in order.
pub open spec fn typing_press_times(s: Seq<KeyboardEvent>) -> Seq<int>
    decreases s.len(),
{
    if s.len() == 0 {
        Seq::empty()
    } else {
        typing_press_times(s.drop_last())
            + if is_typing_press(s.last()) { seq![s.last().timestamp as int] } else { Seq::empty() }
    }
}

/// Number of navigation key presses.
pub open spec fn nav_press_count(s: Seq<KeyboardEvent>) -> int
    decreases s.len(),
{
    if s.len() == 0 {
        0
    } else {
        nav_press_count(s.drop_last()) + if is_nav_press(s.last()) { 1int } else { 0int }
    }
}

/// The subsequence of typing events (presses and releases), in order.
pub open spec fn typing_events(s: Seq<KeyboardEvent>) -> Seq<KeyboardEvent>
    decreases s.len(),
{
    if s.len() == 0 {
        Seq::empty()
    } else {
        typing_events(s.drop_last())
            + if s.last().event_type == KeyboardEventType::TypingTap { seq![s.last()] } else { Seq::empty() }
    }
}

/// Plausible hold times: each key-down is paired with the next key-up, and
/// only holds within [20, 2000] milliseconds are kept. `last_down` carries the
/// timestamp of an unmatched key-down.
pub open spec fn hold_times_from(s: Seq<KeyboardEvent>, i: int, last_down: Option<int>) -> Seq<int>
    decreases s.len() - i when 0 <= i <= s.len()
{
    if i >= s.len() {
        Seq::empty()
    } else {
        let e = s[i];
        if e.is_key_down {
            hold_times_from(s, i + 1, Some(e.timestamp as int))
        } else {
            match last_down {
                Some(d) => {
                    let h = e.timestamp - d;
                    if HOLD_MIN_MS <= h <= HOLD_MAX_MS {
                        seq![h] + hold_times_from(s, i + 1, None)
                    } else {
                        hold_times_from(s, i + 1, None)
                    }
                },
                None => hold_times_from(s, i + 1, None),
            }
        }
    }
}

/// Hold times estimated over the typing events of a window.
pub open spec fn hold_times(s: Seq<KeyboardEvent>) -> Seq<int> {
    hold_times_from(typing_events(s), 0, None)
}

pub proof fn lemma_hold_times_props(s: Seq<KeyboardEvent>, i: int, last_down: Option<int>)
    requires
        0 <= i <= s.len(),
    ensures
        hold_times_from(s, i, last_down).len() <= s.len() - i,
        forall|j: int| 0 <= j < hold_times_from(s, i, last_down).len()
            ==> HOLD_MIN_MS <= #[trigger] hold_times_from(s, i, last_down)[j] <= HOLD_MAX_MS,
    decreases s.len() - i,
{
    if i < s.len() {
        let e = s[i];
        if e.is_key_down {
            lemma_hold_times_props(s, i + 1, Some(e.timestamp as int));
        } else {
            lemma_hold_times_props(s, i + 1, None);
        }
    }
}

/// Typing press times drawn from a time-ordered event sequence are themselves
/// in non-decreasing order.
pub proof fn lemma_press_times_sorted(s: Seq<KeyboardEvent>)
    requires
        forall|i: int, j: int| 0 <= i <= j < s.len()
            ==> (#[trigger] s[i]).timestamp <= (#[trigger] s[j]).timestamp,
    ensures
        forall|i: int, j: int| 0 <= i <= j < typing_press_times(s).len()
            ==> #[trigger] typing_press_times(s)[i] <= #[trigger] typing_press_times(s)[j],
        forall|i: int| 0 <= i < typing_press_times(s).len()
            ==> exists|k: int| 0 <= k < s.len() && #[trigger] typing_press_times(s)[i] == s[k].timestamp,
    decreases s.len(),
{
    if s.len() > 0 {
        let pre = s.drop_last();
        lemma_press_times_sorted(pre);
        assert forall|i: int| 0 <= i < typing_press_times(s).len()
            implies exists|k: int| 0 <= k < s.len() && #[trigger] typing_press_times(s)[i] == s[k].timestamp by {
            if i < typing_press_times(pre).len() {
                let k = choose|k: int| 0 <= k < pre.len() && typing_press_times(pre)[i] == pre[k].timestamp;
                assert(s[k].timestamp == typing_press_times(s)[i]);
            } else {
                assert(typing_press_times(s)[i] == s[s.len() - 1].timestamp);
            }
        }
        assert forall|i: int, j: int| 0 <= i <= j < typing_press_times(s).len()
            implies #[trigger] typing_press_times(s)[i] <= #[trigger] typing_press_times(s)[j] by {
            if j < typing_press_times(pre).len() {
                assert(typing_press_times(pre)[i] <= typing_press_times(pre)[j]);
            } else if is_typing_press(s.last()) && j == typing_press_times(s).len() - 1 {
                if i < j {
                    let k = choose|k: int| 0 <= k < pre.len() && typing_press_times(pre)[i] == pre[k].timestamp;
                    assert(s[k].timestamp <= s[s.len() - 1].timestamp);
                }
            }
        }
    }
}

/// Every typing press time is the timestamp of some event of the sequence.
pub proof fn lemma_press_times_membership(s: Seq<KeyboardEvent>)
    ensures
        typing_press_times(s).len() <= s.len(),
        forall|i: int| 0 <= i < typing_press_times(s).len()
            ==> exists|k: int| 0 <= k < s.len() && #[trigger] typing_press_times(s)[i] == s[k].timestamp,
    decreases s.len(),
{
    if s.len() > 0 {
        let pre = s.drop_last();
        lemma_press_times_membership(pre);
        assert forall|i: int| 0 <= i < typing_press_times(s).len()
            implies exists|k: int| 0 <= k < s.len() && #[trigger] typing_press_times(s)[i] == s[k].timestamp by {
            if i < typing_press_times(pre).len() {
                let k = choose|k: int| 0 <= k < pre.len() && typing_press_times(pre)[i] == pre[k].timestamp;
                assert(typing_press_times(s)[i] == s[k].timestamp);
            } else {
                assert(typing_press_times(s)[i] == s[s.len() - 1].timestamp);
            }
        }
    }
}

pub proof fn lemma_nav_press_count_le_len(s: Seq<KeyboardEvent>)
    ensures
        0 <= nav_press_count(s) <= s.len(),
    decreases s.len(),
{
    if s.len() > 0 {
        lemma_nav_press_count_le_len(s.drop_last());
    }
}

/// Every typing event is an event of the sequence.
pub proof fn lemma_typing_events_membership(s: Seq<KeyboardEvent>)
    ensures
        typing_events(s).len() <= s.len(),
        forall|i: int| 0 <= i < typing_events(s).len()
            ==> exists|k: int| 0 <= k < s.len() && #[trigger] typing_events(s)[i] == s[k],
    decreases s.len(),
{
    if s.len() > 0 {
        let pre = s.drop_last();
        lemma_typing_events_membership(pre);
        assert forall|i: int| 0 <= i < typing_events(s).len()
            implies exists|k: int| 0 <= k < s.len() && #[trigger] typing_events(s)[i] == s[k] by {
            if i < typing_events(pre).len() {
                let k = choose|k: int| 0 <= k < pre.len() && typing_events(pre)[i] == pre[k];
                assert(typing_events(s)[i] == s[k]);
            } else {
                assert(typing_events(s)[i] == s[s.len() - 1]);
            }
        }
    }
}

// ===========================================================================
// Feature records
// ===========================================================================

/// Keyboard-derived features. Rates are in thousandths of events per second;
/// millisecond statistics and scores are in thousandths as well.
#[derive(Clone, Copy, Debug, PartialEq, Eq, Structural)]
pub struct KeyboardFeatures {
    /// Typing key presses per second (thousandths; navigation keys excluded).
    pub typing_rate: u64,
    /// Number of inter-press intervals classified as pauses.
    pub pause_count: u32,
    /// Mean pause duration in milliseconds (thousandths).
    pub mean_pause_ms: u64,
    /// Population standard deviation of inter-press intervals, in
    /// milliseconds (thousandths).
    pub latency_variability: u64,
    /// Mean plausible key hold duration in milliseconds (thousandths).
    pub hold_time_mean: u64,
    /// Fraction of intervals shorter than the burst threshold (thousandths).
    pub burst_index: u64,
    /// Active typing time over window time, capped at one (thousandths).
    /// Negative only when events arrive out of time order.
    pub session_continuity: i64,
    /// Number of typing key presses (navigation keys excluded).
    pub typing_tap_count: u32,
    /// Rhythmic consistency score (thousandths; higher is more regular).
    pub typing_cadence_stability: u64,
    /// Fraction of intervals classified as pauses (thousandths).
    pub typing_gap_ratio: u64,
    /// Composite of speed, cadence stability and gap behavior (thousandths).
    pub typing_interaction_intensity: u64,
    /// Navigation key presses per second (thousandths); kept apart from all
    /// typing metrics.
    pub keyboard_scroll_rate: u64,
    /// Number of navigation key presses.
    pub navigation_key_count: u32,
}

impl Default for KeyboardFeatures {
    /// All-zero features, used for empty windows and degenerate durations.
    fn default() -> (r: Self)
        ensures
            r == KeyboardFeatures::zeroed(),
    {
        KeyboardFeatures {
            typing_rate: 0,
            pause_count: 0,
            mean_pause_ms: 0,
            latency_variability: 0,
            hold_time_mean: 0,
            burst_index: 0,
            session_continuity: 0,
            typing_tap_count: 0,
            typing_cadence_stability: 0,
            typing_gap_ratio: 0,
            typing_interaction_intensity: 0,
            keyboard_scroll_rate: 0,
            navigation_key_count: 0,
        }
    }
}

impl KeyboardFeatures {
    /// The all-zero feature record.
    pub open spec fn zeroed() -> KeyboardFeatures {
        KeyboardFeatures {
            typing_rate: 0,
            pause_count: 0,
            mean_pause_ms: 0,
            latency_variability: 0,
            hold_time_mean: 0,
            burst_index: 0,
            session_continuity: 0,
            typing_tap_count: 0,
            typing_cadence_stability: 0,
            typing_gap_ratio: 0,
            typing_interaction_intensity: 0,
            keyboard_scroll_rate: 0,
            navigation_key_count: 0,
        }
    }

    /// Range discipline of a computed record: every ratio or score field lies
    /// within [0, 1000], and the continuity field cannot fall below the
    /// arithmetic floor that a bounded window allows.
    pub open spec fn wf(self) -> bool {
        &&& self.latency_variability <= 2 * STD_DEV_VALUE_BOUND
        &&& self.burst_index <= 1000
        &&& self.session_continuity <= 1000
        &&& -10_000_000_000_000 <= self.session_continuity
        &&& self.typing_cadence_stability <= 1000
        &&& self.typing_gap_ratio <= 1000
        &&& self.typing_interaction_intensity <= 1000
    }
}

// ===========================================================================
// Spec-level keyboard formulas
// ===========================================================================

/// Inter-press intervals of the typing presses, in milliseconds.
pub open spec fn spec_intervals(s: Seq<KeyboardEvent>) -> Seq<int> {
    seq_diffs(typing_press_times(s))
}

/// Intervals scaled to thousandths, as fed to the standard deviation.
pub open spec fn spec_intervals_milli(s: Seq<KeyboardEvent>) -> Seq<int> {
    spec_intervals(s).map_values(|v: int| v * 1000)
}

/// The keyboard feature record a window's keyboard events determine.
pub open spec fn spec_keyboard_features(s: Seq<KeyboardEvent>, d: int) -> KeyboardFeatures {
    if s.len() == 0 || d <= 0 {
        KeyboardFeatures::zeroed()
    } else {
        let presses = typing_press_times(s);
        let navs = nav_press_count(s);
        let intervals = spec_intervals(s);
        let pauses = count_pauses(intervals);
        let pause_sum = sum_pauses(intervals);
        let lv = spec_std_dev(spec_intervals_milli(s));
        let holds = hold_times(s);
        let shorts = count_bursts(intervals);
        let active = sum_active(intervals);
        let typing_rate = (presses.len() as int) * 1_000_000 / d;
        let continuity_raw = div_trunc(active * 1000, d);
        let stability = 100_000_000int / (100_000int + lv);
        let gap_ratio = if intervals.len() == 0 { 0int } else { pauses * 1000 / intervals.len() as int };
        let norm_speed = if typing_rate / 10 > 1000 { 1000int } else { typing_rate / 10 };
        KeyboardFeatures {
            typing_rate: typing_rate as u64,
            pause_count: pauses as u32,
            mean_pause_ms: (if pauses == 0 { 0int } else { pause_sum * 1000 / pauses }) as u64,
            latency_variability: lv as u64,
            hold_time_mean: (if holds.len() == 0 { 0int } else { sum_of(holds) * 1000 / holds.len() as int }) as u64,
            burst_index: (if intervals.len() == 0 { 0int } else { shorts * 1000 / intervals.len() as int }) as u64,
            session_continuity: (if continuity_raw > 1000 { 1000int } else { continuity_raw }) as i64,
            typing_tap_count: presses.len() as u32,
            typing_cadence_stability: stability as u64,
            typing_gap_ratio: gap_ratio as u64,
            typing_interaction_intensity: ((norm_speed * 4 + stability * 3 + (1000 - gap_ratio) * 3) / 10) as u64,
            keyboard_scroll_rate: (navs * 1_000_000 / d) as u64,
            navigation_key_count: navs as u32,
        }
    }
}

// ===========================================================================
// Executable helpers
// ===========================================================================

/// Truncating division of a signed accumulator by a positive count.
fn div_trunc_i128(a: i128, b: i128) -> (r: i128)
    requires
        0 < b,
        -0x8000_0000_0000_0000_0000_0000_0000_0000 < a,
    ensures
        r == div_trunc(a as int, b as int),
{
    if a >= 0 {
        a / b
    } else {
        let q: i128 = (-a) / b;
        -q
    }
}

/// Population standard deviation of fixed-point values, rounded down.
/// Zero for fewer than two values.
pub fn std_dev(values: &Vec<i64>) -> (r: u64)
    requires
        values@.len() <= u32::MAX,
        forall|i: int| 0 <= i < values@.len() ==> iabs(#[trigger] values@[i] as int) <= STD_DEV_VALUE_BOUND,
    ensures
        r == spec_std_dev(values@.map_values(|v: i64| v as int)),
        r <= 2 * STD_DEV_VALUE_BOUND,
{
    let ghost vs = values@.map_values(|v: i64| v as int);
    if values.len() < 2 {
        return 0;
    }
    let n: usize = values.len();

    // Sum the values.
    let mut sum: i128 = 0;
    let mut i: usize = 0;
    while i < n
        invariant
            0 <= i <= n,
            n == vs.len() <= u32::MAX,
            vs == values@.map_values(|v: i64| v as int),
            forall|k: int| 0 <= k < vs.len() ==> iabs(#[trigger] vs[k]) <= STD_DEV_VALUE_BOUND,
            sum == sum_of(vs.take(i as int)),
            -(i * STD_DEV_VALUE_BOUND) <= sum <= i * STD_DEV_VALUE_BOUND,
        decreases n - i,
    {
        proof {
            assert(vs.take(i + 1).drop_last() =~= vs.take(i as int));
            assert(vs.take(i + 1).last() == vs[i as int]);
            lemma_sum_bounds(vs.take(i + 1), STD_DEV_VALUE_BOUND as int);
            assert(vs.take(i + 1).len() * STD_DEV_VALUE_BOUND <= u32::MAX * STD_DEV_VALUE_BOUND)
                by (nonlinear_arith)
                requires vs.take(i + 1).len() <= u32::MAX;
        }
        sum = sum + values[i] as i128;
        i = i + 1;
    }
    proof {
        assert(vs.take(n as int) =~= vs);
    }

    // Truncated mean; bounded by the value bound itself.
    let mean: i128 = div_trunc_i128(sum, n as i128);
    proof {
        assert(mean == mean_of(vs));
        lemma_mean_bounded(vs);
    }

    // Sum of squared deviations. Each |value - mean| is at most twice the
    // value bound, so each square and the sum stay inside i128.
    let ghost dev_bound: int = 2 * (STD_DEV_VALUE_BOUND as int);
    let mut sumsq: i128 = 0;
    let mut j: usize = 0;
    while j < n
        invariant
            0 <= j <= n,
            n == vs.len() <= u32::MAX,
            vs == values@.map_values(|v: i64| v as int),
            forall|k: int| 0 <= k < vs.len() ==> iabs(#[trigger] vs[k]) <= STD_DEV_VALUE_BOUND,
            iabs(mean as int) <= STD_DEV_VALUE_BOUND,
            mean == mean_of(vs),
            sumsq == sum_of(sq_devs(vs).take(j as int)),
            0 <= sumsq <= j * (dev_bound * dev_bound),
            dev_bound == 2 * (STD_DEV_VALUE_BOUND as int),
        decreases n - j,
    {
        proof {
            assert(vs[j as int] == values@[j as int] as int);
            assert(iabs(vs[j as int]) <= STD_DEV_VALUE_BOUND);
        }
        let dev: i128 = values[j] as i128 - mean;
        proof {
            assert(iabs(dev as int) <= dev_bound);
            assert(dev * dev <= dev_bound * dev_bound && 0 <= dev * dev) by (nonlinear_arith)
                requires iabs(dev as int) <= dev_bound, 0 <= dev_bound;
            assert(sq_devs(vs).take(j + 1).drop_last() =~= sq_devs(vs).take(j as int));
            assert(sq_devs(vs).take(j + 1).last() == sq_devs(vs)[j as int]);
            assert(sq_devs(vs)[j as int] == dev * dev);
            assert((j + 1) * (dev_bound * dev_bound) == j * (dev_bound * dev_bound) + dev_bound * dev_bound)
                by (nonlinear_arith);
            assert(u32::MAX * (dev_bound * dev_bound) < 0x8000_0000_0000_0000_0000_0000_0000_0000int)
                by (nonlinear_arith)
                requires dev_bound == 2 * (STD_DEV_VALUE_BOUND as int);
            assert(j * (dev_bound * dev_bound) + dev_bound * dev_bound <= u32::MAX * (dev_bound * dev_bound))
                by (nonlinear_arith)
                requires j + 1 <= u32::MAX, 0 <= dev_bound * dev_bound;
        }
        sumsq = sumsq + dev * dev;
        j = j + 1;
    }
    proof {
        assert(sq_devs(vs).take(n as int) =~= sq_devs(vs));
    }

    let variance: i128 = sumsq / n as i128;
    proof {
        assert(variance == sum_of(sq_devs(vs)) / (n as int));
        assert(variance == variance_of(vs));
        assert(0 <= variance <= sumsq) by (nonlinear_arith)
            requires variance == sumsq as int / (n as int), 0 <= sumsq, n >= 2;
    }
    let r = int_sqrt(variance as u128);
    proof {
        crate::math::lemma_floor_sqrt_is(variance as int, r as int);
        // The variance is bounded by the square of twice the value bound.
        assert forall|k: int| 0 <= k < sq_devs(vs).len()
            implies iabs(#[trigger] sq_devs(vs)[k]) <= (2 * STD_DEV_VALUE_BOUND) * (2 * STD_DEV_VALUE_BOUND) by {
            // Each deviation is at most value bound + |mean|; |mean| is at
            // most the value bound because the mean of bounded values is
            // bounded.
            lemma_mean_bounded(vs);
            let dv = vs[k] - mean_of(vs);
            assert(iabs(dv) <= 2 * STD_DEV_VALUE_BOUND);
            assert(iabs(dv * dv) <= (2 * STD_DEV_VALUE_BOUND) * (2 * STD_DEV_VALUE_BOUND))
                by (nonlinear_arith)
                requires iabs(dv) <= 2 * STD_DEV_VALUE_BOUND;
        }
        lemma_sum_bounds(sq_devs(vs), (2 * STD_DEV_VALUE_BOUND) * (2 * STD_DEV_VALUE_BOUND));
        assert(sum_of(sq_devs(vs)) <= vs.len() * ((2 * STD_DEV_VALUE_BOUND) * (2 * STD_DEV_VALUE_BOUND)));
        assert(variance_of(vs) <= (2 * STD_DEV_VALUE_BOUND) * (2 * STD_DEV_VALUE_BOUND)) by (nonlinear_arith)
            requires
                sum_of(sq_devs(vs)) <= vs.len() * ((2 * STD_DEV_VALUE_BOUND) * (2 * STD_DEV_VALUE_BOUND)),
                variance_of(vs) == sum_of(sq_devs(vs)) / (vs.len() as int),
                2 <= vs.len();
        assert(r <= 2 * STD_DEV_VALUE_BOUND) by (nonlinear_arith)
            requires
                r * r <= variance as int,
                variance as int <= (2 * STD_DEV_VALUE_BOUND) * (2 * STD_DEV_VALUE_BOUND),
                0 <= r;
    }
    r
}

/// The events appear in non-decreasing timestamp order.
pub open spec fn time_ordered_keyboard(s: Seq<KeyboardEvent>) -> bool {
    forall|i: int, j: int| 0 <= i <= j < s.len()
        ==> (#[trigger] s[i]).timestamp <= (#[trigger] s[j]).timestamp
}

/// All event timestamps lie within `d` milliseconds of one another.
pub open spec fn keyboard_span_at_most(s: Seq<KeyboardEvent>, d: int) -> bool {
    forall|i: int, j: int| 0 <= i < s.len() && 0 <= j < s.len()
        ==> (#[trigger] s[i]).timestamp - (#[trigger] s[j]).timestamp <= d
}

/// Compute keyboard features from the keyboard events of one window.
///
/// Typing metrics come from typing-tap events only; navigation keys feed the
/// separate keyboard scroll rate. An empty event list or a zero duration
/// yields the all-zero record. The continuity score can only fall below zero
/// when events arrive out of time order.
#[verifier::rlimit(50)]
pub fn compute_keyboard_features(events: &Vec<KeyboardEvent>, window_duration_ms: u64) -> (r: KeyboardFeatures)
    requires
        window_duration_ms <= MAX_WINDOW_MS,
        events@.len() <= u32::MAX,
        keyboard_span_at_most(events@, window_duration_ms as int),
    ensures
        r == spec_keyboard_features(events@, window_duration_ms as int),
        r.wf(),
        time_ordered_keyboard(events@) ==> r.session_continuity >= 0,
{
    let ghost s = events@;
    let ghost d = window_duration_ms as int;
    let n: usize = events.len();
    if n == 0 || window_duration_ms == 0 {
        return KeyboardFeatures::default();
    }

    // One pass: typing press times, navigation press count, typing events.
    let mut presses: Vec<u64> = Vec::new();
    let mut typing: Vec<KeyboardEvent> = Vec::new();
    let mut navs: u32 = 0;
    let mut i: usize = 0;
    while i < n
        invariant
            0 <= i <= n,
            n == s.len(),
            s.len() <= u32::MAX,
            s == events@,
            presses@.map_values(|t: u64| t as int) == typing_press_times(s.take(i as int)),
            navs as int == nav_press_count(s.take(i as int)),
            typing@ == typing_events(s.take(i as int)),
            presses@.len() <= i,
            typing@.len() <= i,
            navs <= i,
        decreases n - i,
    {
        proof {
            assert(s.take(i + 1).drop_last() =~= s.take(i as int));
            assert(s.take(i + 1).last() == s[i as int]);
        }
        let e = events[i];
        if e.event_type == KeyboardEventType::TypingTap {
            typing.push(e);
            if e.is_key_down {
                presses.push(e.timestamp);
            }
        } else if e.is_key_down {
            navs = navs + 1;
        }
        proof {
            assert(presses@.map_values(|t: u64| t as int) =~= typing_press_times(s.take(i + 1)));
            assert(typing@ =~= typing_events(s.take(i + 1)));
        }
        i = i + 1;
    }
    proof {
        assert(s.take(n as int) =~= s);
    }
    let ghost pt = typing_press_times(s);
    let ghost tev = typing_events(s);

    let typing_rate: u64 = (presses.len() as u64) * 1_000_000 / window_duration_ms;
    let keyboard_scroll_rate: u64 = (navs as u64) * 1_000_000 / window_duration_ms;

    // Inter-press intervals of consecutive typing presses.
    let mut intervals: Vec<i64> = Vec::new();
    if presses.len() > 1 {
        let mut k: usize = 0;
        while k < presses.len() - 1
            invariant
                presses@.len() > 1,
                0 <= k <= presses@.len() - 1,
                s == events@,
                s.len() <= u32::MAX,
                keyboard_span_at_most(s, d),
                d == window_duration_ms as int,
                window_duration_ms <= MAX_WINDOW_MS,
                presses@.map_values(|t: u64| t as int) == pt,
                pt == typing_press_times(s),
                intervals@.len() == k,
                forall|m: int| 0 <= m < k ==> #[trigger] intervals@[m] as int == pt[m + 1] - pt[m],
                forall|m: int| 0 <= m < k ==> iabs(#[trigger] intervals@[m] as int) <= d,
            decreases presses@.len() - k,
        {
            let a: u64 = presses[k];
            let b: u64 = presses[k + 1];
            proof {
                lemma_press_times_membership(s);
                assert(pt[k as int] == a as int && pt[k + 1] == b as int);
                let ka = choose|q: int| 0 <= q < s.len() && pt[k as int] == s[q].timestamp;
                let kb = choose|q: int| 0 <= q < s.len() && pt[k + 1] == s[q].timestamp;
                assert(s[kb].timestamp - s[ka].timestamp <= d);
                assert(s[ka].timestamp - s[kb].timestamp <= d);
            }
            let diff: i64 = if b >= a {
                (b - a) as i64
            } else {
                0i64 - ((a - b) as i64)
            };
            intervals.push(diff);
            k = k + 1;
        }
    }
    let ghost iv = intervals@.map_values(|v: i64| v as int);
    proof {
        assert(iv =~= spec_intervals(s));
    }

    // Pause, burst and active-time statistics over the intervals.
    let ilen: usize = intervals.len();
    let mut pause_cnt: u32 = 0;
    let mut pause_sum: i64 = 0;
    let mut burst_cnt: u32 = 0;
    let mut active_sum: i64 = 0;
    let mut k: usize = 0;
    while k < ilen
        invariant
            0 <= k <= ilen,
            ilen == iv.len(),
            iv.len() <= u32::MAX,
            iv == intervals@.map_values(|v: i64| v as int),
            ilen == intervals@.len(),
            forall|m: int| 0 <= m < iv.len() ==> iabs(#[trigger] iv[m]) <= d,
            d == window_duration_ms as int,
            0 < window_duration_ms <= MAX_WINDOW_MS,
            pause_cnt as int == count_pauses(iv.take(k as int)),
            pause_sum as int == sum_pauses(iv.take(k as int)),
            burst_cnt as int == count_bursts(iv.take(k as int)),
            active_sum as int == sum_active(iv.take(k as int)),
            pause_cnt <= k,
            burst_cnt <= k,
            0 <= pause_sum <= k * d,
            -(k * d) <= active_sum <= k * d,
        decreases ilen - k,
    {
        proof {
            assert(iv.take(k + 1).drop_last() =~= iv.take(k as int));
            assert(iv.take(k + 1).last() == iv[k as int]);
            assert((k + 1) * d == k * d + d) by (nonlinear_arith);
            assert(iv[k as int] == intervals@[k as int] as int);
            assert(iabs(iv[k as int]) <= d);
            assert((k + 1) * d <= 0x1_0000_0000 * 1_000_000_000int) by (nonlinear_arith)
                requires k + 1 <= 0x1_0000_0000, 0 <= d <= 1_000_000_000;
            assert(0 <= k * d) by (nonlinear_arith) requires 0 <= k, 0 <= d;
        }
        let v: i64 = intervals[k];
        if v > PAUSE_THRESHOLD_MS {
            pause_cnt = pause_cnt + 1;
            pause_sum = pause_sum + v;
        }
        if v < BURST_THRESHOLD_MS {
            burst_cnt = burst_cnt + 1;
        }
        if v <= 2 * PAUSE_THRESHOLD_MS {
            active_sum = active_sum + v;
        }
        k = k + 1;
    }
    proof {
        assert(iv.take(ilen as int) =~= iv);
        lemma_interval_stats_bounds(iv, d);
    }

    // Latency variability: standard deviation of the intervals, scaled to
    // thousandths.
    let mut milli: Vec<i64> = Vec::new();
    let mut k2: usize = 0;
    while k2 < ilen
        invariant
            0 <= k2 <= ilen,
            ilen == intervals@.len(),
            intervals@.len() <= u32::MAX,
            forall|m: int| 0 <= m < intervals@.len() ==> iabs(#[trigger] intervals@[m] as int) <= d,
            d == window_duration_ms as int,
            window_duration_ms <= MAX_WINDOW_MS,
            milli@.len() == k2,
            forall|m: int| 0 <= m < k2 ==> #[trigger] milli@[m] as int == intervals@[m] * 1000,
        decreases ilen - k2,
    {
        proof {
            assert(iabs(intervals@[k2 as int] as int) <= d);
        }
        milli.push(intervals[k2] * 1000);
        k2 = k2 + 1;
    }
    proof {
        assert(milli@.map_values(|v: i64| v as int) =~= spec_intervals_milli(s));
        assert forall|m: int| 0 <= m < milli@.len()
            implies iabs(#[trigger] milli@[m] as int) <= STD_DEV_VALUE_BOUND by {
            assert(iabs(intervals@[m] as int) <= d);
        }
    }
    let lv: u64 = std_dev(&milli);

    // Plausible hold times over the typing events.
    let mut hold_sum: u64 = 0;
    let mut hold_cnt: u32 = 0;
    let mut last_down: Option<u64> = None;
    let ghost all_holds = hold_times(s);
    let ghost mut prefix: Seq<int> = Seq::empty();
    let tlen: usize = typing.len();
    let mut k3: usize = 0;
    proof {
        assert(all_holds == hold_times_from(tev, 0, None));
    }
    while k3 < tlen
        invariant
            0 <= k3 <= tlen,
            tlen == typing@.len(),
            typing@ == tev,
            tev == typing_events(s),
            tev.len() <= u32::MAX,
            s == events@,
            s.len() <= u32::MAX,
            keyboard_span_at_most(s, d),
            d == window_duration_ms as int,
            window_duration_ms <= MAX_WINDOW_MS,
            all_holds == hold_times(s),
            all_holds == prefix + hold_times_from(tev, k3 as int, match last_down {
                Some(t) => Some(t as int),
                None => None,
            }),
            hold_cnt as int == prefix.len(),
            hold_sum as int == sum_of(prefix),
            forall|m: int| 0 <= m < prefix.len() ==> HOLD_MIN_MS <= #[trigger] prefix[m] <= HOLD_MAX_MS,
            hold_sum <= k3 * 2000,
            hold_cnt <= k3,
            last_down matches Some(t) ==> exists|q: int| 0 <= q < s.len() && t == (#[trigger] s[q]).timestamp,
        decreases tlen - k3,
    {
        let e = typing[k3];
        proof {
            lemma_typing_events_membership(s);
            assert(0 <= k3 < typing_events(s).len());
            assert(exists|q: int| 0 <= q < s.len() && typing_events(s)[k3 as int] == s[q]);
            assert(tev[k3 as int] == typing_events(s)[k3 as int]);
            assert((k3 + 1) * 2000 == k3 * 2000 + 2000) by (nonlinear_arith);
        }
        if e.is_key_down {
            last_down = Some(e.timestamp);
        } else {
            match last_down {
                Some(dts) => {
                    proof {
                        let qd = choose|q: int| 0 <= q < s.len() && dts == s[q].timestamp;
                        let qe = choose|q: int| 0 <= q < s.len() && tev[k3 as int] == s[q];
                        assert(e.timestamp - dts <= d && dts - e.timestamp <= d);
                    }
                    let h: i64 = if e.timestamp >= dts {
                        (e.timestamp - dts) as i64
                    } else {
                        0i64 - ((dts - e.timestamp) as i64)
                    };
                    if h >= HOLD_MIN_MS && h <= HOLD_MAX_MS {
                        hold_sum = hold_sum + h as u64;
                        hold_cnt = hold_cnt + 1;
                        proof {
                            let new_prefix = prefix + seq![h as int];
                            assert(new_prefix.drop_last() =~= prefix);
                            assert(sum_of(new_prefix) == sum_of(prefix) + h as int);
                            prefix = new_prefix;
                        }
                    }
                    last_down = None;
                },
                None => {},
            }
        }
        k3 = k3 + 1;
    }
    proof {
        assert(hold_times_from(tev, tlen as int, match last_down {
            Some(t) => Some(t as int),
            None => None,
        }) =~= Seq::<int>::empty());
        assert(all_holds =~= prefix);
    }
    let hold_time_mean: u64 = if hold_cnt == 0 {
        0
    } else {
        proof {
            assert(hold_sum * 1000 <= (k3 * 2000) * 1000) by (nonlinear_arith)
                requires hold_sum <= k3 * 2000, k3 <= u32::MAX;
            assert((k3 * 2000) * 1000 <= u64::MAX) by (nonlinear_arith)
                requires k3 <= u32::MAX;
        }
        hold_sum * 1000 / (hold_cnt as u64)
    };

    // Derived scores.
    let mean_pause_ms: u64 = if pause_cnt == 0 {
        0
    } else {
        proof {
            assert(pause_sum <= count_pauses(iv) * d);
            assert((pause_sum as int) * 1000 / (pause_cnt as int) <= d * 1000) by (nonlinear_arith)
                requires
                    0 <= pause_sum <= pause_cnt as int * d,
                    0 < pause_cnt,
                    0 < d;
        }
        ((pause_sum as u128) * 1000 / (pause_cnt as u128)) as u64
    };

    let burst_index: u64 = if ilen == 0 {
        0
    } else {
        proof {
            assert((burst_cnt as int) * 1000 / (ilen as int) <= 1000) by (nonlinear_arith)
                requires 0 <= burst_cnt as int <= ilen as int, 0 < ilen;
        }
        (burst_cnt as u64) * 1000 / (ilen as u64)
    };

    let raw_continuity: i128 = div_trunc_i128((active_sum as i128) * 1000, window_duration_ms as i128);
    proof {
        assert(iabs((active_sum as i128 * 1000) as int) <= (iv.len() * 1000) * d) by (nonlinear_arith)
            requires -(iv.len() * d) <= active_sum as int <= iv.len() * d, 0 <= d;
        assert(iabs(raw_continuity as int) <= iv.len() * 1000) by (nonlinear_arith)
            requires
                raw_continuity as int == div_trunc(active_sum as int * 1000, d),
                iabs((active_sum as i128 * 1000) as int) <= (iv.len() * 1000) * d,
                0 < d;
        assert(iv.len() * 1000 <= 10_000_000_000_000int) by (nonlinear_arith)
            requires iv.len() <= u32::MAX;
    }
    let session_continuity: i64 = if raw_continuity > 1000 {
        1000
    } else {
        raw_continuity as i64
    };

    proof {
        assert(100_000_000int / (100_000int + lv as int) <= 1000) by (nonlinear_arith)
            requires 0 <= lv;
    }
    let typing_cadence_stability: u64 = 100_000_000 / (100_000 + lv);

    let typing_gap_ratio: u64 = if ilen == 0 {
        0
    } else {
        proof {
            assert((pause_cnt as int) * 1000 / (ilen as int) <= 1000) by (nonlinear_arith)
                requires 0 <= pause_cnt as int <= ilen as int, 0 < ilen;
        }
        (pause_cnt as u64) * 1000 / (ilen as u64)
    };

    let norm_speed: u64 = if typing_rate / 10 > 1000 { 1000 } else { typing_rate / 10 };
    let typing_interaction_intensity: u64 =
        (norm_speed * 4 + typing_cadence_stability * 3 + (1000 - typing_gap_ratio) * 3) / 10;

    let r = KeyboardFeatures {
        typing_rate,
        pause_count: pause_cnt,
        mean_pause_ms,
        latency_variability: lv,
        hold_time_mean,
        burst_index,
        session_continuity,
        typing_tap_count: presses.len() as u32,
        typing_cadence_stability,
        typing_gap_ratio,
        typing_interaction_intensity,
        keyboard_scroll_rate,
        navigation_key_count: navs,
    };
    proof {
        assert(r == spec_keyboard_features(s, d));
        if time_ordered_keyboard(s) {
            lemma_press_times_sorted(s);
            assert forall|m: int| 0 <= m < iv.len() implies 0 <= #[trigger] iv[m] by {
                assert(iv[m] == pt[m + 1] - pt[m]);
            }
            lemma_sum_nonneg(iv);
            assert(raw_continuity >= 0) by (nonlinear_arith)
                requires
                    raw_continuity as int == div_trunc(active_sum as int * 1000, d),
                    0 <= active_sum,
                    0 < d;
        }
    }
    r
}

// ===========================================================================
// Mouse features
// ===========================================================================

/// Mouse-derived features. Rates are in thousandths of events per second;
/// velocities and ratios are in thousandths as well.
#[derive(Clone, Copy, Debug, PartialEq, Eq, Structural)]
pub struct MouseFeatures {
    /// Movement events per second (thousandths).
    pub mouse_activity_rate: u64,
    /// Mean movement magnitude (thousandths of a unit).
    pub mean_velocity: u64,
    /// Population standard deviation of movement magnitudes (thousandths).
    pub velocity_variability: u64,
    /// Number of consecutive-magnitude changes beyond the spike threshold.
    pub acceleration_spikes: u32,
    /// Clicks per second (thousandths).
    pub click_rate: u64,
    /// Scroll events per second (thousandths).
    pub scroll_rate: u64,
    /// Idle time over window time, capped at one (thousandths).
    pub idle_ratio: u64,
    /// Fraction of movements below the micro-adjustment threshold
    /// (thousandths).
    pub micro_adjustment_ratio: u64,
}

impl Default for MouseFeatures {
    /// All-zero features, used for empty windows and degenerate durations.
    fn default() -> (r: Self)
        ensures
            r == MouseFeatures::zeroed(),
    {
        MouseFeatures {
            mouse_activity_rate: 0,
            mean_velocity: 0,
            velocity_variability: 0,
            acceleration_spikes: 0,
            click_rate: 0,
            scroll_rate: 0,
            idle_ratio: 0,
            micro_adjustment_ratio: 0,
        }
    }
}

impl MouseFeatures {
    /// The all-zero feature record.
    pub open spec fn zeroed() -> MouseFeatures {
        MouseFeatures {
            mouse_activity_rate: 0,
            mean_velocity: 0,
            velocity_variability: 0,
            acceleration_spikes: 0,
            click_rate: 0,
            scroll_rate: 0,
            idle_ratio: 0,
            micro_adjustment_ratio: 0,
        }
    }

    /// Range discipline of a computed record.
    pub open spec fn wf(self) -> bool {
        &&& self.velocity_variability <= 2 * STD_DEV_VALUE_BOUND
        &&& self.idle_ratio <= 1000
        &&& self.micro_adjustment_ratio <= 1000
    }
}

/// Timestamps of movement events, in order.
pub open spec fn move_times(s: Seq<MouseEvent>) -> Seq<int>
    decreases s.len(),
{
    if s.len() == 0 {
        Seq::empty()
    } else {
        move_times(s.drop_last())
            + if s.last().event_type == MouseEventType::Move { seq![s.last().timestamp as int] } else { Seq::empty() }
    }
}

/// Recorded magnitudes of movement events, in order.
pub open spec fn velocities(s: Seq<MouseEvent>) -> Seq<int>
    decreases s.len(),
{
    if s.len() == 0 {
        Seq::empty()
    } else {
        velocities(s.drop_last())
            + if s.last().event_type == MouseEventType::Move && s.last().delta_magnitude is Some {
                seq![s.last().delta_magnitude->Some_0 as int]
            } else {
                Seq::empty()
            }
    }
}

/// Number of click events (either button).
pub open spec fn click_count(s: Seq<MouseEvent>) -> int
    decreases s.len(),
{
    if s.len() == 0 {
        0
    } else {
        click_count(s.drop_last())
            + if s.last().event_type == MouseEventType::LeftClick
                || s.last().event_type == MouseEventType::RightClick { 1int } else { 0int }
    }
}

/// Number of scroll events.
pub open spec fn scroll_count(s: Seq<MouseEvent>) -> int
    decreases s.len(),
{
    if s.len() == 0 {
        0
    } else {
        scroll_count(s.drop_last())
            + if s.last().event_type == MouseEventType::Scroll { 1int } else { 0int }
    }
}

/// Number of velocity changes beyond the acceleration spike threshold.
pub open spec fn count_spikes(diffs: Seq<int>) -> int
    decreases diffs.len(),
{
    if diffs.len() == 0 {
        0
    } else {
        count_spikes(diffs.drop_last()) + if iabs(diffs.last()) > ACCELERATION_SPIKE_MILLI { 1int } else { 0int }
    }
}

/// Number of movements below the micro-adjustment threshold.
pub open spec fn count_micro(vels: Seq<int>) -> int
    decreases vels.len(),
{
    if vels.len() == 0 {
        0
    } else {
        count_micro(vels.drop_last()) + if vels.last() < MICRO_ADJUSTMENT_MILLI { 1int } else { 0int }
    }
}

/// Total idle time: for each gap beyond the idle threshold, only the excess
/// counts.
pub open spec fn idle_excess(gaps: Seq<int>) -> int
    decreases gaps.len(),
{
    if gaps.len() == 0 {
        0
    } else {
        idle_excess(gaps.drop_last())
            + if gaps.last() > IDLE_THRESHOLD_MS { gaps.last() - IDLE_THRESHOLD_MS } else { 0int }
    }
}

/// Every move time is the timestamp of some event of the sequence.
pub proof fn lemma_move_times_membership(s: Seq<MouseEvent>)
    ensures
        move_times(s).len() <= s.len(),
        forall|i: int| 0 <= i < move_times(s).len()
            ==> exists|k: int| 0 <= k < s.len() && #[trigger] move_times(s)[i] == s[k].timestamp,
    decreases s.len(),
{
    if s.len() > 0 {
        let pre = s.drop_last();
        lemma_move_times_membership(pre);
        assert forall|i: int| 0 <= i < move_times(s).len()
            implies exists|k: int| 0 <= k < s.len() && #[trigger] move_times(s)[i] == s[k].timestamp by {
            if i < move_times(pre).len() {
                let k = choose|k: int| 0 <= k < pre.len() && move_times(pre)[i] == pre[k].timestamp;
                assert(move_times(s)[i] == s[k].timestamp);
            } else {
                assert(move_times(s)[i] == s[s.len() - 1].timestamp);
            }
        }
    }
}

/// All event timestamps lie within `d` milliseconds of one another.
pub open spec fn mouse_span_at_most(s: Seq<MouseEvent>, d: int) -> bool {
    forall|i: int, j: int| 0 <= i < s.len() && 0 <= j < s.len()
        ==> (#[trigger] s[i]).timestamp - (#[trigger] s[j]).timestamp <= d
}

/// The mouse feature record a window's mouse events determine.
pub open spec fn spec_mouse_features(s: Seq<MouseEvent>, d: int) -> MouseFeatures {
    if s.len() == 0 || d <= 0 {
        MouseFeatures::zeroed()
    } else {
        let mts = move_times(s);
        let vels = velocities(s);
        let gaps = seq_diffs(mts);
        let idle_raw = if mts.len() < 2 { 1000int } else { idle_excess(gaps) * 1000 / d };
        MouseFeatures {
            mouse_activity_rate: ((mts.len() as int) * 1_000_000 / d) as u64,
            mean_velocity: (if vels.len() == 0 { 0int } else { sum_of(vels) / vels.len() as int }) as u64,
            velocity_variability: spec_std_dev(vels) as u64,
            acceleration_spikes: count_spikes(seq_diffs(vels)) as u32,
            click_rate: (click_count(s) * 1_000_000 / d) as u64,
            scroll_rate: (scroll_count(s) * 1_000_000 / d) as u64,
            idle_ratio: (if idle_raw > 1000 { 1000int } else { idle_raw }) as u64,
            micro_adjustment_ratio: (if vels.len() == 0 { 0int } else { count_micro(vels) * 1000 / vels.len() as int }) as u64,
        }
    }
}

/// Compute mouse features from the mouse events of one window. An empty
/// event list or a zero duration yields the all-zero record; a window with
/// fewer than two movement events counts as fully idle.
#[verifier::rlimit(50)]
pub fn compute_mouse_features(events: &Vec<MouseEvent>, window_duration_ms: u64) -> (r: MouseFeatures)
    requires
        window_duration_ms <= MAX_WINDOW_MS,
        events@.len() <= u32::MAX,
        mouse_span_at_most(events@, window_duration_ms as int),
        forall|i: int| 0 <= i < events@.len() ==> crate::events::mouse_event_wf(#[trigger] events@[i]),
    ensures
        r == spec_mouse_features(events@, window_duration_ms as int),
        r.wf(),
{
    let ghost s = events@;
    let ghost d = window_duration_ms as int;
    let n: usize = events.len();
    if n == 0 || window_duration_ms == 0 {
        return MouseFeatures::default();
    }

    // One pass: move times, velocities, click and scroll counts.
    let mut mts: Vec<u64> = Vec::new();
    let mut vels: Vec<i64> = Vec::new();
    let mut clicks: u32 = 0;
    let mut scrolls: u32 = 0;
    let mut i: usize = 0;
    while i < n
        invariant
            0 <= i <= n,
            n == s.len(),
            s.len() <= u32::MAX,
            s == events@,
            forall|m: int| 0 <= m < s.len() ==> crate::events::mouse_event_wf(#[trigger] s[m]),
            mts@.map_values(|t: u64| t as int) == move_times(s.take(i as int)),
            vels@.map_values(|v: i64| v as int) == velocities(s.take(i as int)),
            clicks as int == click_count(s.take(i as int)),
            scrolls as int == scroll_count(s.take(i as int)),
            mts@.len() <= i,
            vels@.len() <= i,
            clicks <= i,
            scrolls <= i,
            forall|m: int| 0 <= m < vels@.len() ==> 0 <= #[trigger] vels@[m] <= crate::events::MAX_MAGNITUDE_MILLI,
        decreases n - i,
    {
        proof {
            assert(s.take(i + 1).drop_last() =~= s.take(i as int));
            assert(s.take(i + 1).last() == s[i as int]);
        }
        let e = events[i];
        if e.event_type == MouseEventType::Move {
            mts.push(e.timestamp);
            match e.delta_magnitude {
                Some(v) => vels.push(v as i64),
                None => {},
            }
        } else if e.event_type == MouseEventType::Scroll {
            scrolls = scrolls + 1;
        } else {
            clicks = clicks + 1;
        }
        proof {
            assert(mts@.map_values(|t: u64| t as int) =~= move_times(s.take(i + 1)));
            assert(vels@.map_values(|v: i64| v as int) =~= velocities(s.take(i + 1)));
        }
        i = i + 1;
    }
    proof {
        assert(s.take(n as int) =~= s);
    }
    let ghost mtv = move_times(s);
    let ghost vlv = velocities(s);

    let mouse_activity_rate: u64 = (mts.len() as u64) * 1_000_000 / window_duration_ms;
    let click_rate: u64 = (clicks as u64) * 1_000_000 / window_duration_ms;
    let scroll_rate: u64 = (scrolls as u64) * 1_000_000 / window_duration_ms;

    // Velocity statistics.
    let vlen: usize = vels.len();
    let mut vel_sum: u128 = 0;
    let mut micro_cnt: u32 = 0;
    let mut k: usize = 0;
    while k < vlen
        invariant
            0 <= k <= vlen,
            vlen == vlv.len(),
            vlv.len() <= u32::MAX,
            vlv == vels@.map_values(|v: i64| v as int),
            vlen == vels@.len(),
            forall|m: int| 0 <= m < vlv.len() ==> 0 <= #[trigger] vlv[m] <= crate::events::MAX_MAGNITUDE_MILLI,
            vel_sum as int == sum_of(vlv.take(k as int)),
            vel_sum <= k * (crate::events::MAX_MAGNITUDE_MILLI as int),
            micro_cnt as int == count_micro(vlv.take(k as int)),
            micro_cnt <= k,
        decreases vlen - k,
    {
        proof {
            assert(vlv.take(k + 1).drop_last() =~= vlv.take(k as int));
            assert(vlv.take(k + 1).last() == vlv[k as int]);
            assert(vlv[k as int] == vels@[k as int] as int);
            assert((k + 1) * (crate::events::MAX_MAGNITUDE_MILLI as int)
                == k * (crate::events::MAX_MAGNITUDE_MILLI as int) + crate::events::MAX_MAGNITUDE_MILLI)
                by (nonlinear_arith);
            assert((k + 1) * (crate::events::MAX_MAGNITUDE_MILLI as int)
                <= 0x1_0000_0000 * (crate::events::MAX_MAGNITUDE_MILLI as int)) by (nonlinear_arith)
                requires k + 1 <= 0x1_0000_0000;
        }
        let v: i64 = vels[k];
        vel_sum = vel_sum + v as u128;
        if (v as u64) < MICRO_ADJUSTMENT_MILLI {
            micro_cnt = micro_cnt + 1;
        }
        k = k + 1;
    }
    proof {
        assert(vlv.take(vlen as int) =~= vlv);
    }
    let mean_velocity: u64 = if vlen == 0 {
        0
    } else {
        proof {
            assert(vel_sum as int / (vlen as int) <= crate::events::MAX_MAGNITUDE_MILLI) by (nonlinear_arith)
                requires 0 <= vel_sum as int <= vlen as int * (crate::events::MAX_MAGNITUDE_MILLI as int), 0 < vlen;
        }
        (vel_sum / (vlen as u128)) as u64
    };
    let velocity_variability: u64 = std_dev(&vels);

    // Acceleration spikes over consecutive velocity changes.
    let ghost vdiffs = seq_diffs(vlv);
    let mut spikes: u32 = 0;
    if vlen > 1 {
        let mut k2: usize = 0;
        while k2 < vlen - 1
            invariant
                vlen == vels@.len(),
                vlen == vlv.len(),
                vlv.len() <= u32::MAX,
                vlv == vels@.map_values(|v: i64| v as int),
                1 <= vlen,
                0 <= k2 <= vlen - 1,
                forall|m: int| 0 <= m < vlv.len() ==> 0 <= #[trigger] vlv[m] <= crate::events::MAX_MAGNITUDE_MILLI,
                vdiffs == seq_diffs(vlv),
                spikes as int == count_spikes(vdiffs.take(k2 as int)),
                spikes <= k2,
            decreases vlen - k2,
        {
            proof {
                assert(vdiffs.take(k2 + 1).drop_last() =~= vdiffs.take(k2 as int));
                assert(vdiffs.take(k2 + 1).last() == vdiffs[k2 as int]);
                assert(vlv[k2 as int] == vels@[k2 as int] as int);
                assert(vlv[k2 + 1] == vels@[k2 + 1] as int);
            }
            let a: i64 = vels[k2];
            let b: i64 = vels[k2 + 1];
            let diff: i64 = if b >= a { b - a } else { a - b };
            if diff > ACCELERATION_SPIKE_MILLI {
                spikes = spikes + 1;
            }
            k2 = k2 + 1;
        }
        proof {
            assert(vdiffs.take((vlen - 1) as int) =~= vdiffs);
        }
    } else {
        proof {
            assert(vdiffs =~= Seq::<int>::empty());
        }
    }

    // Idle ratio from gaps between consecutive move events.
    let mlen: usize = mts.len();
    let idle_ratio: u64 = if mlen < 2 {
        1000
    } else {
        let ghost gaps = seq_diffs(mtv);
        let mut excess: i64 = 0;
        let mut k3: usize = 0;
        while k3 < mlen - 1
            invariant
                mlen == mts@.len(),
                mlen == mtv.len(),
                mtv.len() <= u32::MAX,
                mtv == mts@.map_values(|t: u64| t as int),
                mtv == move_times(s),
                2 <= mlen,
                0 <= k3 <= mlen - 1,
                s == events@,
                s.len() <= u32::MAX,
                mouse_span_at_most(s, d),
                d == window_duration_ms as int,
                0 < window_duration_ms <= MAX_WINDOW_MS,
                gaps == seq_diffs(mtv),
                excess as int == idle_excess(gaps.take(k3 as int)),
                0 <= excess <= k3 * d,
            decreases mlen - k3,
        {
            proof {
                assert(gaps.take(k3 + 1).drop_last() =~= gaps.take(k3 as int));
                assert(gaps.take(k3 + 1).last() == gaps[k3 as int]);
                assert(mtv[k3 as int] == mts@[k3 as int] as int);
                assert(mtv[k3 + 1] == mts@[k3 + 1] as int);
                lemma_move_times_membership(s);
                let ka = choose|q: int| 0 <= q < s.len() && mtv[k3 as int] == s[q].timestamp;
                let kb = choose|q: int| 0 <= q < s.len() && mtv[k3 + 1] == s[q].timestamp;
                assert(s[kb].timestamp - s[ka].timestamp <= d);
                assert(s[ka].timestamp - s[kb].timestamp <= d);
                assert((k3 + 1) * d == k3 * d + d) by (nonlinear_arith);
                assert((k3 + 1) * d <= 0x1_0000_0000 * 1_000_000_000int) by (nonlinear_arith)
                    requires k3 + 1 <= 0x1_0000_0000, 0 <= d <= 1_000_000_000;
            }
            let a: u64 = mts[k3];
            let b: u64 = mts[k3 + 1];
            let gap: i64 = if b >= a {
                (b - a) as i64
            } else {
                0i64 - ((a - b) as i64)
            };
            if gap > IDLE_THRESHOLD_MS {
                excess = excess + (gap - IDLE_THRESHOLD_MS);
            }
            k3 = k3 + 1;
        }
        proof {
            assert(gaps.take((mlen - 1) as int) =~= gaps);
        }
        let raw: u128 = (excess as u128) * 1000 / (window_duration_ms as u128);
        if raw > 1000 {
            1000
        } else {
            raw as u64
        }
    };

    let micro_adjustment_ratio: u64 = if vlen == 0 {
        0
    } else {
        proof {
            assert((micro_cnt as int) * 1000 / (vlen as int) <= 1000) by (nonlinear_arith)
                requires 0 <= micro_cnt as int <= vlen as int, 0 < vlen;
        }
        (micro_cnt as u64) * 1000 / (vlen as u64)
    };

    let r = MouseFeatures {
        mouse_activity_rate,
        mean_velocity,
        velocity_variability,
        acceleration_spikes: spikes,
        click_rate,
        scroll_rate,
        idle_ratio,
        micro_adjustment_ratio,
    };
    proof {
        assert(r == spec_mouse_features(s, d));
    }
    r
}

// ===========================================================================
// Behavioral signals
// ===========================================================================

/// Derived behavioral signals combining keyboard and mouse features. Every
/// field is a score in thousandths, within [0, 1000].
#[derive(Clone, Copy, Debug, PartialEq, Eq, Structural)]
pub struct BehavioralSignals {
    /// Regularity of input timing across keyboard and mouse.
    pub interaction_rhythm: u64,
    /// Hesitation indicator: pauses, few bursts, micro-adjustments.
    pub friction: u64,
    /// Consistency of physical movements.
    pub motor_stability: u64,
    /// Proxy for sustained attention: continuity and low idle time.
    pub focus_continuity_proxy: u64,
}

impl Default for BehavioralSignals {
    /// All-zero signals.
    fn default() -> (r: Self)
        ensures
            r == BehavioralSignals::zeroed(),
    {
        BehavioralSignals {
            interaction_rhythm: 0,
            friction: 0,
            motor_stability: 0,
            focus_continuity_proxy: 0,
        }
    }
}

impl BehavioralSignals {
    /// The all-zero signal record.
    pub open spec fn zeroed() -> BehavioralSignals {
        BehavioralSignals {
            interaction_rhythm: 0,
            friction: 0,
            motor_stability: 0,
            focus_continuity_proxy: 0,
        }
    }

    /// Every signal lies within [0, 1000].
    pub open spec fn wf(self) -> bool {
        &&& self.interaction_rhythm <= 1000
        &&& self.friction <= 1000
        &&& self.motor_stability <= 1000
        &&& self.focus_continuity_proxy <= 1000
    }
}

/// Clamp to [0, 1000].
pub open spec fn clamp_milli(v: int) -> int {
    if v < 0 { 0 } else if v > 1000 { 1000 } else { v }
}

/// The behavioral signals that a pair of feature records determines.
pub open spec fn spec_behavioral_signals(kb: KeyboardFeatures, m: MouseFeatures) -> BehavioralSignals {
    let typing_rhythm = 100_000_000int / (100_000int + kb.latency_variability as int);
    let mouse_rhythm = 50_000_000int / (50_000int + m.velocity_variability as int);
    let friction_raw = (kb.pause_count as int) * 100
        + (1000 - kb.burst_index as int) * 3 / 10
        + (m.micro_adjustment_ratio as int) * 3 / 10;
    let lv_term = if kb.latency_variability as int / 200 > 500 { 500int } else { kb.latency_variability as int / 200 };
    let vv_term = if m.velocity_variability as int / 100 > 500 { 500int } else { m.velocity_variability as int / 100 };
    let focus_raw = div_trunc(kb.session_continuity as int, 2) + (1000 - m.idle_ratio as int) / 2;
    BehavioralSignals {
        interaction_rhythm: clamp_milli((typing_rhythm + mouse_rhythm) / 2) as u64,
        friction: clamp_milli(friction_raw) as u64,
        motor_stability: clamp_milli(1000 - lv_term - vv_term) as u64,
        focus_continuity_proxy: clamp_milli(focus_raw) as u64,
    }
}

/// Compute the derived behavioral signals from keyboard and mouse features.
/// Every output is clamped to [0, 1000].
pub fn compute_behavioral_signals(keyboard: &KeyboardFeatures, mouse: &MouseFeatures) -> (r: BehavioralSignals)
    requires
        keyboard.wf(),
        mouse.wf(),
    ensures
        r == spec_behavioral_signals(*keyboard, *mouse),
        r.wf(),
{
    proof {
        assert(100_000_000int / (100_000int + keyboard.latency_variability as int) <= 1000) by (nonlinear_arith)
            requires keyboard.latency_variability >= 0;
        assert(50_000_000int / (50_000int + mouse.velocity_variability as int) <= 1000) by (nonlinear_arith)
            requires mouse.velocity_variability >= 0;
    }
    let typing_rhythm: u64 = 100_000_000 / (100_000 + keyboard.latency_variability);
    let mouse_rhythm: u64 = 50_000_000 / (50_000 + mouse.velocity_variability);
    let rhythm: u64 = (typing_rhythm + mouse_rhythm) / 2;

    let friction_raw: u64 = (keyboard.pause_count as u64) * 100
        + (1000 - keyboard.burst_index) * 3 / 10
        + mouse.micro_adjustment_ratio * 3 / 10;
    let friction: u64 = if friction_raw > 1000 { 1000 } else { friction_raw };

    let lv_term: u64 = {
        let t = keyboard.latency_variability / 200;
        if t > 500 { 500 } else { t }
    };
    let vv_term: u64 = {
        let t = mouse.velocity_variability / 100;
        if t > 500 { 500 } else { t }
    };
    let motor_stability: u64 = 1000 - lv_term - vv_term;

    let cont_half: i64 = if keyboard.session_continuity >= 0 {
        keyboard.session_continuity / 2
    } else {
        0i64 - ((0i64 - keyboard.session_continuity) / 2)
    };
    let focus_raw: i64 = cont_half + ((1000 - mouse.idle_ratio) / 2) as i64;
    let focus: u64 = if focus_raw < 0 {
        0
    } else if focus_raw > 1000 {
        1000
    } else {
        focus_raw as u64
    };

    let r = BehavioralSignals {
        interaction_rhythm: rhythm,
        friction,
        motor_stability,
        focus_continuity_proxy: focus,
    };
    proof {
        assert(r == spec_behavioral_signals(*keyboard, *mouse));
    }
    r
}

// ===========================================================================
// Window features
// ===========================================================================

/// All computed features for one window.
#[derive(Clone, Copy, Debug, PartialEq, Eq, Structural)]
pub struct WindowFeatures {
    pub keyboard: KeyboardFeatures,
    pub mouse: MouseFeatures,
    pub behavioral: BehavioralSignals,
}

impl Default for WindowFeatures {
    /// All-zero features: every keyboard, mouse and behavioral field is zero.
    fn default() -> (r: Self)
        ensures
            r.keyboard == KeyboardFeatures::zeroed(),
            r.mouse == MouseFeatures::zeroed(),
            r.behavioral == BehavioralSignals::zeroed(),
    {
        WindowFeatures {
            keyboard: KeyboardFeatures::default(),
            mouse: MouseFeatures::default(),
            behavioral: BehavioralSignals::default(),
        }
    }
}

/// The behavioral record a window determines: all-zero for an empty window or
/// a zero duration, and the derived composition of the keyboard and mouse
/// records otherwise.
pub open spec fn spec_window_behavioral(w: crate::windowing::WindowV) -> BehavioralSignals {
    if w.is_empty() || w.end == w.start {
        BehavioralSignals::zeroed()
    } else {
        spec_behavioral_signals(
            spec_keyboard_features(w.keyboard_events, w.end - w.start),
            spec_mouse_features(w.mouse_events, w.end - w.start),
        )
    }
}

/// Compute all features of a completed window: keyboard statistics, mouse
/// statistics, and the derived behavioral signals. An empty window or a zero
/// duration yields the all-zero record throughout, behavioral signals
/// included.
pub fn compute_features(window: &EventWindow) -> (r: WindowFeatures)
    requires
        window@.wf(),
    ensures
        r.keyboard == spec_keyboard_features(window@.keyboard_events, window@.end - window@.start),
        r.mouse == spec_mouse_features(window@.mouse_events, window@.end - window@.start),
        r.behavioral == spec_window_behavioral(window@),
        r.keyboard.wf(),
        r.mouse.wf(),
        r.behavioral.wf(),
        r.keyboard.session_continuity >= 0,
{
    let duration_ms: u64 = window.end - window.start;
    if window.is_empty() || duration_ms == 0 {
        return WindowFeatures::default();
    }
    proof {
        let kb = window@.keyboard_events;
        assert forall|i: int, j: int| 0 <= i < kb.len() && 0 <= j < kb.len()
            implies (#[trigger] kb[i]).timestamp - (#[trigger] kb[j]).timestamp <= duration_ms as int by {
            assert(window@.start <= kb[i].timestamp < window@.end);
            assert(window@.start <= kb[j].timestamp < window@.end);
        }
        let ms = window@.mouse_events;
        assert forall|i: int, j: int| 0 <= i < ms.len() && 0 <= j < ms.len()
            implies (#[trigger] ms[i]).timestamp - (#[trigger] ms[j]).timestamp <= duration_ms as int by {
            assert(window@.start <= ms[i].timestamp < window@.end);
            assert(window@.start <= ms[j].timestamp < window@.end);
        }
    }
    let keyboard = compute_keyboard_features(&window.keyboard_events, duration_ms);
    let mouse = compute_mouse_features(&window.mouse_events, duration_ms);
    let behavioral = compute_behavioral_signals(&keyboard, &mouse);
    WindowFeatures { keyboard, mouse, behavioral }
}

// ===========================================================================
// Range and separation laws
// ===========================================================================

/// Navigation-only input never inflates typing metrics: a window whose
/// keyboard events are all navigation keys yields a zero typing rate and zero
/// typing taps, while every navigation key press is counted.
pub proof fn lemma_navigation_keys_separate(s: Seq<KeyboardEvent>, d: int)
    requires
        forall|i: int| 0 <= i < s.len()
            ==> (#[trigger] s[i]).event_type == KeyboardEventType::NavigationKey,
        0 < s.len() <= u32::MAX,
        d > 0,
    ensures
        spec_keyboard_features(s, d).typing_tap_count == 0,
        spec_keyboard_features(s, d).typing_rate == 0,
        spec_keyboard_features(s, d).navigation_key_count == nav_press_count(s),
{
    lemma_no_typing_presses(s);
    lemma_nav_press_count_le_len(s);
}

proof fn lemma_no_typing_presses(s: Seq<KeyboardEvent>)
    requires
        forall|i: int| 0 <= i < s.len()
            ==> (#[trigger] s[i]).event_type == KeyboardEventType::NavigationKey,
    ensures
        typing_press_times(s).len() == 0,
    decreases s.len(),
{
    if s.len() > 0 {
        lemma_no_typing_presses(s.drop_last());
    }
}

/// The truncated mean of values bounded by the standard-deviation bound is
/// itself so bounded.
proof fn lemma_mean_bounded(s: Seq<int>)
    requires
        1 <= s.len(),
        forall|i: int| 0 <= i < s.len() ==> iabs(#[trigger] s[i]) <= STD_DEV_VALUE_BOUND,
    ensures
        iabs(mean_of(s)) <= STD_DEV_VALUE_BOUND,
{
    lemma_sum_bounds(s, STD_DEV_VALUE_BOUND as int);
    let n = s.len() as int;
    let sm = sum_of(s);
    assert(-(n * STD_DEV_VALUE_BOUND) <= sm <= n * STD_DEV_VALUE_BOUND);
    if sm >= 0 {
        assert(sm / n <= STD_DEV_VALUE_BOUND) by (nonlinear_arith)
            requires 0 <= sm <= n * STD_DEV_VALUE_BOUND, 1 <= n;
    } else {
        assert((-sm) / n <= STD_DEV_VALUE_BOUND) by (nonlinear_arith)
            requires 0 <= -sm <= n * STD_DEV_VALUE_BOUND, 1 <= n;
    }
}

} // verus!
