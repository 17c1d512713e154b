//! Small verified arithmetic helpers shared across the crate.

use vstd::prelude::*;

verus! {

/// `r` is the integer square root of `x`: the greatest integer whose square
/// does not exceed `x`.
pub open spec fn is_floor_sqrt(x: int, r: int) -> bool {
    0 <= r && r * r <= x && x < (r + 1) * (r + 1)
}

/// The integer square root as a spec-level function.
pub open spec fn floor_sqrt(x: int) -> int {
    choose|r: int| is_floor_sqrt(x, r)
}

/// The floor square root of a non-negative number is unique.
pub proof fn lemma_floor_sqrt_unique(x: int, r1: int, r2: int)
    requires
        is_floor_sqrt(x, r1),
        is_floor_sqrt(x, r2),
    ensures
        r1 == r2,
{
    if r1 < r2 {
        assert((r1 + 1) * (r1 + 1) <= r2 * r2) by (nonlinear_arith)
            requires 0 <= r1, 0 <= r2, r1 < r2;
    }
    if r2 < r1 {
        assert((r2 + 1) * (r2 + 1) <= r1 * r1) by (nonlinear_arith)
            requires 0 <= r1, 0 <= r2, r2 < r1;
    }
}

/// Whenever some `r` satisfies the floor-square-root property, `floor_sqrt`
/// denotes exactly that `r`.
pub proof fn lemma_floor_sqrt_is(x: int, r: int)
    requires
        is_floor_sqrt(x, r),
    ensures
        floor_sqrt(x) == r,
{
    let w = choose|w: int| is_floor_sqrt(x, w);
    lemma_floor_sqrt_unique(x, w, r);
}

/// Integer square root by binary search.
pub fn int_sqrt(x: u128) -> (r: u64)
    ensures
        is_floor_sqrt(x as int, r as int),
        r as int == floor_sqrt(x as int),
{
    let mut lo: u128 = 0;
    let mut hi: u128 = 1u128 << 64;
    // Invariant: lo * lo <= x < hi * hi, lo < hi <= 2^64.
    proof {
        assert((1u128 << 64) as int == 0x1_0000_0000_0000_0000int) by (bit_vector);
        assert(x < (1u128 << 64) as int * ((1u128 << 64) as int)) by (nonlinear_arith)
            requires x <= u128::MAX, (1u128 << 64) as int == 0x1_0000_0000_0000_0000int;
    }
    while lo + 1 < hi
        invariant
            lo < hi,
            hi <= 1u128 << 64,
            (1u128 << 64) as int == 0x1_0000_0000_0000_0000int,
            lo * lo <= x,
            x < hi * hi,
        decreases hi - lo,
    {
        let mid: u128 = lo + (hi - lo) / 2;
        proof {
            assert(mid * mid <= u128::MAX) by (nonlinear_arith)
                requires 0 <= mid, mid < 0x1_0000_0000_0000_0000int;
        }
        if mid * mid <= x {
            lo = mid;
        } else {
            hi = mid;
        }
    }
    proof {
        assert(lo * lo <= x);
        assert(x < (lo + 1) * (lo + 1));
        assert(lo < 0x1_0000_0000_0000_0000int) by (nonlinear_arith)
            requires lo * lo <= x, x <= u128::MAX, 0 <= lo;
        lemma_floor_sqrt_is(x as int, lo as int);
    }
    lo as u64
}

} // verus!
