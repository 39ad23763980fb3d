//! Integer square roots, used for vector magnitudes.
//!
//! [`sqrt_floor`] is the spec-level root: the greatest integer whose square
//! does not exceed the radicand. [`isqrt`] computes it by bisection.

use vstd::prelude::*;

verus! {

/// `r` is the integer square root of `q`, rounded down.
pub open spec fn is_sqrt_floor(q: int, r: int) -> bool {
    0 <= r && r * r <= q && q < (r + 1) * (r + 1)
}

/// The integer square root of `q`, rounded down. Meaningful for `q >= 0`;
/// [`lemma_sqrt_floor`] shows it satisfies [`is_sqrt_floor`] there.
pub open spec fn sqrt_floor(q: int) -> int {
    choose|r: int| is_sqrt_floor(q, r)
}

/// Every nonnegative integer has an integer square root, found by
/// counting up from the root of its predecessor.
proof fn lemma_sqrt_floor_witness(q: int) -> (r: int)
    requires
        q >= 0,
    ensures
        is_sqrt_floor(q, r),
    decreases q,
{
    if q == 0 {
        0
    } else {
        let p = lemma_sqrt_floor_witness(q - 1);
        if (p + 1) * (p + 1) <= q {
            let r = p + 1;
            assert(q < (r + 1) * (r + 1)) by (nonlinear_arith)
                requires
                    r >= 1,
                    q <= r * r,
            ;
            r
        } else {
            p
        }
    }
}

/// `sqrt_floor(q)` really is the rounded-down square root of `q`.
pub proof fn lemma_sqrt_floor(q: int)
    requires
        q >= 0,
    ensures
        is_sqrt_floor(q, sqrt_floor(q)),
{
    let w = lemma_sqrt_floor_witness(q);
    assert(is_sqrt_floor(q, w));
}

/// Only one integer is the rounded-down square root of `q`.
pub proof fn lemma_sqrt_floor_unique(q: int, r: int)
    requires
        q >= 0,
        is_sqrt_floor(q, r),
    ensures
        r == sqrt_floor(q),
{
    lemma_sqrt_floor(q);
    let s = sqrt_floor(q);
    assert(r <= s) by (nonlinear_arith)
        requires
            0 <= r,
            0 <= s,
            r * r <= q,
            q < (s + 1) * (s + 1),
    ;
    assert(s <= r) by (nonlinear_arith)
        requires
            0 <= r,
            0 <= s,
            s * s <= q,
            q < (r + 1) * (r + 1),
    ;
}

/// Taking square roots is monotone: smaller square, smaller nonnegative root.
pub proof fn lemma_sq_lt(a: int, b: int)
    by (nonlinear_arith)
    requires
        0 <= a,
        0 <= b,
        a * a < b * b,
    ensures
        a < b,
{
}

/// No integer has a negative square.
pub proof fn lemma_sq_nonneg(a: int)
    by (nonlinear_arith)
    ensures
        a * a >= 0,
{
}

/// A nonzero integer has a positive square.
pub proof fn lemma_sq_pos(a: int)
    by (nonlinear_arith)
    requires
        a != 0,
    ensures
        a * a >= 1,
{
}

/// The integer square root of `q`, rounded down, by bisection on the root.
pub fn isqrt(q: u128) -> (r: u128)
    ensures
        is_sqrt_floor(q as int, r as int),
        r as int == sqrt_floor(q as int),
{
    let mut lo: u128 = 0;
    let mut hi: u128 = 18_446_744_073_709_551_616;  // 2^64
    proof {
        assert((18_446_744_073_709_551_616 as int) * (18_446_744_073_709_551_616 as int) > u128::MAX
            as int);
    }
    while hi - lo > 1
        invariant
            0 <= lo < hi <= 18_446_744_073_709_551_616,
            (lo as int) * (lo as int) <= q as int,
            (q as int) < (hi as int) * (hi as int),
        decreases hi - lo,
    {
        let mid: u128 = lo + (hi - lo) / 2;
        proof {
            assert((mid as int) * (mid as int) <= u128::MAX as int) by (nonlinear_arith)
                requires
                    0 <= mid as int <= 18_446_744_073_709_551_615,
            ;
        }
        if mid * mid <= q {
            lo = mid;
        } else {
            hi = mid;
        }
    }
    proof {
        lemma_sqrt_floor_unique(q as int, lo as int);
    }
    lo
}

} // verus!
