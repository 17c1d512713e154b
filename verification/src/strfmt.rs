//! Verified decimal rendering of integers and fixed-point values.

use vstd::prelude::*;
use vstd::string::StringExecFns;

verus! {

/// The decimal digit character for `d` in 0..=9.
pub open spec fn digit_char(d: int) -> char {
    if d == 0 { '0' }
    else if d == 1 { '1' }
    else if d == 2 { '2' }
    else if d == 3 { '3' }
    else if d == 4 { '4' }
    else if d == 5 { '5' }
    else if d == 6 { '6' }
    else if d == 7 { '7' }
    else if d == 8 { '8' }
    else { '9' }
}

/// The decimal rendering of a non-negative integer, without leading zeros
/// (a single zero for zero).
pub open spec fn spec_u64_dec(n: int) -> Seq<char>
    decreases n,
{
    if n < 10 {
        seq![digit_char(n)]
    } else {
        spec_u64_dec(n / 10).push(digit_char(n % 10))
    }
}

/// A fixed-point value in thousandths rendered as a decimal fraction with
/// exactly three fractional digits.
pub open spec fn spec_milli_dec(v: int) -> Seq<char> {
    spec_u64_dec(v / 1000) + seq!['.'] + seq![
        digit_char((v % 1000) / 100),
        digit_char((v % 100) / 10),
        digit_char(v % 10),
    ]
}

/// The one-character string for a decimal digit.
fn digit_str(d: u64) -> (r: &'static str)
    requires
        d < 10,
    ensures
        r@ =~= seq![digit_char(d as int)],
{
    proof {
        reveal_strlit("0");
        reveal_strlit("1");
        reveal_strlit("2");
        reveal_strlit("3");
        reveal_strlit("4");
        reveal_strlit("5");
        reveal_strlit("6");
        reveal_strlit("7");
        reveal_strlit("8");
        reveal_strlit("9");
    }
    if d == 0 { "0" }
    else if d == 1 { "1" }
    else if d == 2 { "2" }
    else if d == 3 { "3" }
    else if d == 4 { "4" }
    else if d == 5 { "5" }
    else if d == 6 { "6" }
    else if d == 7 { "7" }
    else if d == 8 { "8" }
    else { "9" }
}

/// Append the decimal rendering of `n` to `out`.
pub fn push_u64_dec(out: &mut String, n: u64)
    ensures
        final(out)@ == old(out)@ + spec_u64_dec(n as int),
    decreases n,
{
    if n >= 10 {
        push_u64_dec(out, n / 10);
    }
    out.append(digit_str(n % 10));
    proof {
        assert(out@ =~= old(out)@ + spec_u64_dec(n as int));
    }
}

/// The decimal rendering of `n` as a fresh string.
pub fn u64_to_string(n: u64) -> (r: String)
    ensures
        r@ == spec_u64_dec(n as int),
{
    let mut out = String::new();
    push_u64_dec(&mut out, n);
    proof {
        assert(out@ =~= spec_u64_dec(n as int));
    }
    out
}

/// Append a fixed-point value in thousandths as a decimal fraction with three
/// fractional digits (`1500` renders as `1.500`).
pub fn push_milli_dec(out: &mut String, v: u64)
    ensures
        final(out)@ == old(out)@ + spec_milli_dec(v as int),
{
    push_u64_dec(out, v / 1000);
    proof {
        reveal_strlit(".");
    }
    out.append(".");
    out.append(digit_str((v % 1000) / 100));
    out.append(digit_str((v % 100) / 10));
    out.append(digit_str(v % 10));
    proof {
        assert(out@ =~= old(out)@ + spec_milli_dec(v as int));
    }
}

/// The decimal digits of a number are never quote, backslash or control
/// characters, so rendered numbers embed into JSON strings without escaping.
pub proof fn lemma_u64_dec_json_safe(n: int)
    requires
        0 <= n,
    ensures
        forall|i: int| 0 <= i < spec_u64_dec(n).len()
            ==> ' ' <= #[trigger] spec_u64_dec(n)[i] && spec_u64_dec(n)[i] <= '~'
                && spec_u64_dec(n)[i] != '"' && spec_u64_dec(n)[i] != '\\',
    decreases n,
{
    if n >= 10 {
        lemma_u64_dec_json_safe(n / 10);
        assert forall|i: int| 0 <= i < spec_u64_dec(n).len()
            implies ' ' <= #[trigger] spec_u64_dec(n)[i] && spec_u64_dec(n)[i] <= '~'
                && spec_u64_dec(n)[i] != '"' && spec_u64_dec(n)[i] != '\\' by {
            if i < spec_u64_dec(n / 10).len() {
                assert(spec_u64_dec(n)[i] == spec_u64_dec(n / 10)[i]);
            } else {
                assert(spec_u64_dec(n)[i] == digit_char(n % 10));
            }
        }
    }
}

} // verus!
