//! Configuration consumed by the core: window duration, session gap
//! threshold, and capture source toggles. Loading and saving to disk belong
//! to the surrounding program, not to this library.

use vstd::prelude::*;
use vstd::string::StringSliceAdditionalSpecFns;

verus! {

/// ASCII whitespace, as trimmed around source names.
pub open spec fn is_ws(b: u8) -> bool {
    b == 32 || b == 9 || b == 10 || b == 13
}

/// ASCII lowercasing of one byte.
pub open spec fn ascii_lower(b: u8) -> u8 {
    if 65 <= b && b <= 90 { (b + 32) as u8 } else { b }
}

/// `[lo, hi)` delimits one comma-separated token of `s`: it is bounded by
/// commas (or the ends of `s`) and contains none.
pub open spec fn token_span(s: Seq<u8>, lo: int, hi: int) -> bool {
    &&& 0 <= lo <= hi <= s.len()
    &&& (lo == 0 || s[lo - 1] == 44)
    &&& (hi == s.len() || s[hi] == 44)
    &&& forall|k: int| lo <= k < hi ==> s[k] != 44
}

/// The token at `[lo, hi)` trims to exactly `[a, b)`, whose lowercasing
/// equals `target`.
pub open spec fn span_matches_at(s: Seq<u8>, lo: int, hi: int, target: Seq<u8>, a: int, b: int) -> bool {
    &&& lo <= a && a <= b && b <= hi
    &&& forall|k: int| lo <= k < a ==> is_ws(#[trigger] s[k])
    &&& forall|k: int| b <= k < hi ==> is_ws(#[trigger] s[k])
    &&& b - a == target.len()
    &&& forall|k: int| 0 <= k < target.len() ==> ascii_lower(#[trigger] s[a + k]) == target[k]
}

/// The token at `[lo, hi)`, trimmed of surrounding whitespace and lowercased,
/// equals `target`.
pub open spec fn span_matches(s: Seq<u8>, lo: int, hi: int, target: Seq<u8>) -> bool {
    exists|a: int, b: int| #[trigger] span_matches_at(s, lo, hi, target, a, b)
}

/// Some comma-separated token of `s` equals `target` after trimming and
/// lowercasing.
pub open spec fn csv_selects(s: Seq<u8>, target: Seq<u8>) -> bool {
    exists|lo: int, hi: int| #[trigger] token_span(s, lo, hi) && span_matches(s, lo, hi, target)
}

/// The byte spelling of the keyboard source name.
pub open spec fn kw_keyboard() -> Seq<u8> {
    seq![107u8, 101u8, 121u8, 98u8, 111u8, 97u8, 114u8, 100u8]
}

/// The byte spelling of the mouse source name.
pub open spec fn kw_mouse() -> Seq<u8> {
    seq![109u8, 111u8, 117u8, 115u8, 101u8]
}

/// The byte spelling of the catch-all source name.
pub open spec fn kw_all() -> Seq<u8> {
    seq![97u8, 108u8, 108u8]
}

/// Which input sources to capture.
#[derive(Clone, Copy, Debug, PartialEq, Eq, Structural)]
pub struct SourceConfig {
    pub keyboard: bool,
    pub mouse: bool,
}

impl Default for SourceConfig {
    /// Both sources enabled.
    fn default() -> (r: Self)
        ensures
            r.keyboard,
            r.mouse,
    {
        SourceConfig { keyboard: true, mouse: true }
    }
}

/// Decide whether the token at `[lo, hi)` matches `target` after trimming
/// and lowercasing. The target must be non-empty, without whitespace.
fn span_matches_exec(b: &[u8], lo: usize, hi: usize, target: &Vec<u8>) -> (r: bool)
    requires
        lo <= hi <= b@.len(),
        target@.len() > 0,
        forall|k: int| 0 <= k < target@.len() ==> !is_ws(#[trigger] target@[k]),
    ensures
        r == span_matches(b@, lo as int, hi as int, target@),
{
    // Trim the leading whitespace.
    let mut a: usize = lo;
    while a < hi && (b[a] == 32 || b[a] == 9 || b[a] == 10 || b[a] == 13)
        invariant
            lo <= a <= hi <= b@.len(),
            forall|k: int| lo <= k < a ==> is_ws(#[trigger] b@[k]),
        decreases hi - a,
    {
        a = a + 1;
    }
    // Trim the trailing whitespace.
    let mut e: usize = hi;
    while e > a && (b[e - 1] == 32 || b[e - 1] == 9 || b[e - 1] == 10 || b[e - 1] == 13)
        invariant
            a <= e <= hi <= b@.len(),
            forall|k: int| e <= k < hi ==> is_ws(#[trigger] b@[k]),
        decreases e,
    {
        e = e - 1;
    }
    proof {
        assert(a < hi ==> !is_ws(b@[a as int]));
        assert(e > a ==> !is_ws(b@[e - 1]));
    }
    if e - a != target.len() {
        proof {
            // Any witness must start at `a` and end at `e`: the target has no
            // whitespace, so its first and last bytes pin the trimmed bounds.
            assert forall|a2: int, b2: int|
                !span_matches_at(b@, lo as int, hi as int, target@, a2, b2) by {
                if span_matches_at(b@, lo as int, hi as int, target@, a2, b2) {
                    assert(ascii_lower(b@[a2 + 0]) == target@[0]);
                    assert(!is_ws(b@[a2 as int]));
                    assert(ascii_lower(b@[a2 + (target@.len() - 1)]) == target@[target@.len() - 1]);
                    assert(!is_ws(b@[b2 - 1]));
                    assert(a2 == a as int);
                    assert(b2 == e as int);
                }
            }
        }
        return false;
    }
    proof {
        assert(!is_ws(b@[a as int]));
        assert(!is_ws(b@[e - 1]));
    }
    let mut k: usize = 0;
    while k < target.len()
        invariant
            lo <= a <= e <= hi <= b@.len(),
            e - a == target@.len(),
            target@.len() > 0,
            0 <= k <= target@.len(),
            forall|m: int| 0 <= m < k ==> ascii_lower(#[trigger] b@[a + m]) == target@[m],
            forall|m: int| lo <= m < a ==> is_ws(#[trigger] b@[m]),
            forall|m: int| e <= m < hi ==> is_ws(#[trigger] b@[m]),
            !is_ws(b@[a as int]),
            !is_ws(b@[e - 1]),
        decreases target@.len() - k,
    {
        let c: u8 = b[a + k];
        let lowered: u8 = if c >= 65 && c <= 90 { c + 32 } else { c };
        if lowered != target[k] {
            proof {
                // As above, any witness is pinned to `[a, e)`, where the
                // mismatch refutes it.
                assert forall|a2: int, b2: int|
                    !span_matches_at(b@, lo as int, hi as int, target@, a2, b2) by {
                    if span_matches_at(b@, lo as int, hi as int, target@, a2, b2) {
                        assert(ascii_lower(b@[a2 + 0]) == target@[0]);
                        assert(!is_ws(b@[a2 as int]));
                        assert(ascii_lower(b@[a2 + (target@.len() - 1)]) == target@[target@.len() - 1]);
                        assert(!is_ws(b@[b2 - 1]));
                        assert(a2 == a as int);
                        assert(ascii_lower(b@[a2 + k]) == target@[k as int]);
                    }
                }
            }
            return false;
        }
        k = k + 1;
    }
    proof {
        assert(span_matches_at(b@, lo as int, hi as int, target@, a as int, e as int));
    }
    true
}

impl SourceConfig {
    /// Parse source toggles from a comma-separated list: a source is enabled
    /// when its name, or `all`, appears as a token (after trimming
    /// whitespace, case-insensitively).
    #[verifier::rlimit(50)]
    pub fn from_csv(s: &str) -> (r: Self)
        ensures
            r.keyboard == (csv_selects(s.spec_bytes(), kw_keyboard()) || csv_selects(s.spec_bytes(), kw_all())),
            r.mouse == (csv_selects(s.spec_bytes(), kw_mouse()) || csv_selects(s.spec_bytes(), kw_all())),
    {
        let b: &[u8] = s.as_bytes();
        let ghost bs = s.spec_bytes();
        let n: usize = b.len();

        let mut kw_kb: Vec<u8> = Vec::new();
        kw_kb.push(107); kw_kb.push(101); kw_kb.push(121); kw_kb.push(98);
        kw_kb.push(111); kw_kb.push(97); kw_kb.push(114); kw_kb.push(100);
        let mut kw_mo: Vec<u8> = Vec::new();
        kw_mo.push(109); kw_mo.push(111); kw_mo.push(117); kw_mo.push(115); kw_mo.push(101);
        let mut kw_al: Vec<u8> = Vec::new();
        kw_al.push(97); kw_al.push(108); kw_al.push(108);
        proof {
            assert(kw_kb@ =~= kw_keyboard());
            assert(kw_mo@ =~= kw_mouse());
            assert(kw_al@ =~= kw_all());
        }

        let mut keyboard: bool = false;
        let mut mouse: bool = false;
        let mut lo: usize = 0;
        let mut i: usize = 0;
        while i < n
            invariant
                0 <= lo <= i <= n,
                n == bs.len(),
                bs == b@,
                b@.len() <= usize::MAX,
                kw_kb@ == kw_keyboard(),
                kw_mo@ == kw_mouse(),
                kw_al@ == kw_all(),
                lo == 0 || (lo >= 1 && bs[lo - 1] == 44),
                forall|k: int| lo <= k < i ==> bs[k] != 44,
                keyboard == exists|l2: int, h2: int| #[trigger] token_span(bs, l2, h2) && h2 < lo
                    && (span_matches(bs, l2, h2, kw_keyboard()) || span_matches(bs, l2, h2, kw_all())),
                mouse == exists|l2: int, h2: int| #[trigger] token_span(bs, l2, h2) && h2 < lo
                    && (span_matches(bs, l2, h2, kw_mouse()) || span_matches(bs, l2, h2, kw_all())),
            decreases n - i,
        {
            if b[i] == 44 {
                // The token [lo, i) is complete.
                proof {
                    assert(token_span(bs, lo as int, i as int));
                }
                let kb_hit = span_matches_exec(b, lo, i, &kw_kb);
                let mo_hit = span_matches_exec(b, lo, i, &kw_mo);
                let al_hit = span_matches_exec(b, lo, i, &kw_al);
                proof {
                    // A token span ending at or before this comma either ended
                    // before the current token or is exactly the current token.
                    assert forall|l2: int, h2: int|
                        #[trigger] token_span(bs, l2, h2) && h2 < i + 1
                        implies (h2 < lo || (h2 == i as int && l2 == lo as int)) by {
                        if h2 >= lo {
                            if h2 < i {
                                assert(bs[h2] == 44);
                                assert(false);
                            }
                            if l2 < lo {
                                assert(bs[lo - 1] == 44);
                                assert(l2 <= lo - 1 < h2);
                                assert(false);
                            }
                            if l2 > lo {
                                assert(bs[l2 - 1] == 44);
                                assert(lo <= l2 - 1 < i);
                                assert(false);
                            }
                        }
                    }
                }
                if kb_hit || al_hit {
                    keyboard = true;
                }
                if mo_hit || al_hit {
                    mouse = true;
                }
                lo = i + 1;
            }
            i = i + 1;
        }
        // The final token [lo, n).
        proof {
            assert(token_span(bs, lo as int, n as int));
        }
        let kb_hit = span_matches_exec(b, lo, n, &kw_kb);
        let mo_hit = span_matches_exec(b, lo, n, &kw_mo);
        let al_hit = span_matches_exec(b, lo, n, &kw_al);
        proof {
            assert forall|l2: int, h2: int| #[trigger] token_span(bs, l2, h2)
                implies (h2 < lo || (h2 == n as int && l2 == lo as int)) by {
                if h2 >= lo {
                    if h2 < n {
                        assert(bs[h2] == 44);
                        assert(false);
                    }
                    if l2 < lo {
                        assert(bs[lo - 1] == 44);
                        assert(l2 <= lo - 1 < h2);
                        assert(false);
                    }
                    if l2 > lo {
                        assert(bs[l2 - 1] == 44);
                        assert(lo <= l2 - 1 < n);
                        assert(false);
                    }
                }
            }
        }
        if kb_hit || al_hit {
            keyboard = true;
        }
        if mo_hit || al_hit {
            mouse = true;
        }
        SourceConfig { keyboard, mouse }
    }

    /// At least one source is enabled.
    pub fn any_enabled(&self) -> (r: bool)
        ensures
            r == (self.keyboard || self.mouse),
    {
        self.keyboard || self.mouse
    }
}

/// Main configuration of the sensor pipeline. Paths are kept as plain text;
/// reading and writing them is the surrounding program's concern.
#[derive(Clone, Debug)]
pub struct Config {
    /// Duration of each collection window, in seconds.
    pub window_duration_secs: u64,
    /// Which input sources to capture.
    pub sources: SourceConfig,
    /// Directory for exported snapshots.
    pub export_path: String,
    /// Directory for state and transparency logs.
    pub data_path: String,
    /// Whether collection is currently paused.
    pub paused: bool,
    /// Gap threshold for session boundaries, in seconds.
    pub session_gap_threshold_secs: u64,
}

impl Default for Config {
    /// Ten-second windows, a five-minute session gap, both sources enabled,
    /// not paused. The surrounding program fills in platform paths.
    fn default() -> (r: Self)
        ensures
            r.window_duration_secs == 10,
            r.sources.keyboard && r.sources.mouse,
            !r.paused,
            r.session_gap_threshold_secs == 300,
    {
        Config {
            window_duration_secs: 10,
            sources: SourceConfig::default(),
            export_path: String::new(),
            data_path: String::new(),
            paused: false,
            session_gap_threshold_secs: 300,
        }
    }
}

/// Configuration errors, carrying the failing operation's description.
pub enum ConfigError {
    /// Reading or writing the configuration failed.
    IoError(String),
    /// The stored configuration could not be parsed.
    ParseError(String),
    /// The configuration could not be serialized.
    SerializeError(String),
}

impl ConfigError {
    /// A readable description of the error.
    pub fn message(&self) -> (r: String)
        ensures
            self matches ConfigError::IoError(m) ==> r@ == "IO error: "@ + m@,
            self matches ConfigError::ParseError(m) ==> r@ == "Parse error: "@ + m@,
            self matches ConfigError::SerializeError(m) ==> r@ == "Serialize error: "@ + m@,
    {
        broadcast use vstd::string::group_string_axioms;

        match self {
            ConfigError::IoError(m) => {
                let mut out = String::from_str("IO error: ");
                out.append(m.as_str());
                out
            },
            ConfigError::ParseError(m) => {
                let mut out = String::from_str("Parse error: ");
                out.append(m.as_str());
                out
            },
            ConfigError::SerializeError(m) => {
                let mut out = String::from_str("Serialize error: ");
                out.append(m.as_str());
                out
            },
        }
    }
}

} // verus!
