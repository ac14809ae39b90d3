//! Scalar fixed-point arithmetic: world lengths are carried as `i64`
//! milliunits (1000 per world unit), fractions as permille. This module
//! supplies the two primitives the geometry needs — truncating signed
//! division and an integer square root — together with the lemmas callers
//! use to bound their results.

use vstd::arithmetic::div_mod::{
    lemma_div_is_ordered, lemma_div_multiples_vanish, lemma_div_pos_is_pos,
};
use vstd::prelude::*;

verus! {

/// Largest magnitude a world coordinate or radius may have, in milliunits
/// (8000 world units). Keeps every product the geometry forms inside `i64`.
pub const COORD_LIMIT: i64 = 8_000_000;

/// Truncating division (round toward zero), the quotient a machine `/`
/// computes on signed integers; `/` on `int` is Euclidean, so the negative
/// case is spelled out.
pub open spec fn div_trunc(x: int, d: int) -> int {
    if x >= 0 {
        x / d
    } else {
        -((-x) / d)
    }
}

/// `r` is the floor of the square root of `x`.
pub open spec fn is_sqrt_floor(x: int, r: int) -> bool {
    0 <= r && r * r <= x && (x < (r + 1) * (r + 1))
}

/// The floor of the square root of a non-negative integer.
pub open spec fn sqrt_floor(x: int) -> int {
    choose|r: int| is_sqrt_floor(x, r)
}

/// Any `r` with `r*r <= x < (r+1)*(r+1)` is `sqrt_floor(x)`: the floor root
/// exists and is unique.
pub proof fn lemma_sqrt_floor(x: int, r: int)
    requires
        0 <= r,
        r * r <= x,
        x < (r + 1) * (r + 1),
    ensures
        sqrt_floor(x) == r,
{
    assert(is_sqrt_floor(x, r));
    let c = sqrt_floor(x);
    assert(is_sqrt_floor(x, c)) by {
        assert(exists|q: int| is_sqrt_floor(x, q));
    }
    assert(0 <= c && c * c <= x && (x < (c + 1) * (c + 1)));
    if c < r {
        assert((c + 1) * (c + 1) <= r * r) by (nonlinear_arith)
            requires
                0 <= c,
                c < r,
        ;
    }
    if r < c {
        assert((r + 1) * (r + 1) <= c * c) by (nonlinear_arith)
            requires
                0 <= r,
                r < c,
        ;
    }
}

/// The floor root never exceeds its argument's magnitude scale: if
/// `x <= m * m` with `m >= 0` then `sqrt_floor(x) <= m`.
pub proof fn lemma_sqrt_floor_le(x: int, m: int)
    requires
        0 <= x,
        0 <= m,
        x <= m * m,
    ensures
        0 <= sqrt_floor(x),
        sqrt_floor(x) <= m,
{
    let r = sqrt_floor(x);
    lemma_sqrt_floor_exists(x);
    assert(is_sqrt_floor(x, r));
    if m < r {
        assert((m + 1) * (m + 1) <= r * r) by (nonlinear_arith)
            requires
                0 <= m,
                m < r,
        ;
        assert(m * m < (m + 1) * (m + 1)) by (nonlinear_arith)
            requires
                0 <= m,
        ;
    }
}

/// `sqrt_floor(x)` is well defined for every `x >= 0`: a witness exists.
pub proof fn lemma_sqrt_floor_exists(x: int)
    requires
        0 <= x,
    ensures
        is_sqrt_floor(x, sqrt_floor(x)),
    decreases x,
{
    if x == 0 {
        assert(is_sqrt_floor(0, 0)) by (nonlinear_arith);
        assert(exists|q: int| is_sqrt_floor(x, q));
    } else {
        lemma_sqrt_floor_exists(x - 1);
        let p = sqrt_floor(x - 1);
        assert(is_sqrt_floor(x - 1, p));
        if x < (p + 1) * (p + 1) {
            assert(is_sqrt_floor(x, p));
            assert(exists|q: int| is_sqrt_floor(x, q));
        } else {
            assert((p + 1) * (p + 1) == x);
            assert(is_sqrt_floor(x, p + 1)) by (nonlinear_arith)
                requires
                    0 <= p,
                    x == (p + 1) * (p + 1),
            ;
            assert(exists|q: int| is_sqrt_floor(x, q));
        }
    }
}

/// Truncating division by a positive divisor keeps any symmetric bound:
/// `|x| <= d * m` gives `|x / d| <= m`.
pub proof fn lemma_div_trunc_bound(x: int, d: int, m: int)
    requires
        d > 0,
        m >= 0,
        -(d * m) <= x,
        x <= d * m,
    ensures
        -m <= div_trunc(x, d),
        div_trunc(x, d) <= m,
{
    if x >= 0 {
        lemma_div_is_ordered(x, d * m, d);
        lemma_div_multiples_vanish(m, d);
        lemma_div_pos_is_pos(x, d);
    } else {
        lemma_div_is_ordered(-x, d * m, d);
        lemma_div_multiples_vanish(m, d);
        lemma_div_pos_is_pos(-x, d);
    }
}

/// Integer square root: the unique `r` with `r*r <= x < (r+1)*(r+1)`.
pub fn isqrt64(x: u64) -> (r: u64)
    requires
        x < 0x4000_0000_0000_0000,
    ensures
        r < 0x8000_0000,
        r * r <= x,
        x < (r + 1) * (r + 1),
        r == sqrt_floor(x as int),
{
    let mut lo: u64 = 0;
    let mut hi: u64 = 0x8000_0000;
    assert(x < hi * hi) by (nonlinear_arith)
        requires
            x < 0x4000_0000_0000_0000,
            hi == 0x8000_0000,
    ;
    while lo + 1 < hi
        invariant
            lo < hi,
            hi <= 0x8000_0000,
            lo * lo <= x,
            x < hi * hi,
        decreases hi - lo,
    {
        let mid: u64 = lo + (hi - lo) / 2;
        assert(lo < mid < hi);
        assert(mid * mid < 0x4000_0000_0000_0000) by (nonlinear_arith)
            requires
                mid < 0x8000_0000,
        ;
        if mid * mid <= x {
            lo = mid;
        } else {
            hi = mid;
        }
    }
    proof {
        lemma_sqrt_floor(x as int, lo as int);
    }
    lo
}

/// Truncating division of a milliunit quantity by a positive divisor.
pub fn div_trunc64(x: i64, d: i64) -> (q: i64)
    requires
        d > 0,
        x > i64::MIN,
    ensures
        q == div_trunc(x as int, d as int),
{
    if x >= 0 {
        let q: u64 = (x as u64) / (d as u64);
        proof {
            lemma_div_is_ordered(x as int, i64::MAX as int, d as int);
            lemma_div_pos_is_pos(x as int, d as int);
            assert(i64::MAX as int / (d as int) <= i64::MAX) by {
                lemma_div_is_ordered(i64::MAX as int, i64::MAX as int, d as int);
                assert(i64::MAX as int / (d as int) <= i64::MAX as int / 1) by {
                    vstd::arithmetic::div_mod::lemma_div_is_ordered_by_denominator(
                        i64::MAX as int,
                        1,
                        d as int,
                    );
                }
            }
        }
        q as i64
    } else {
        let neg: u64 = (-x) as u64;
        let q: u64 = neg / (d as u64);
        proof {
            lemma_div_is_ordered(neg as int, i64::MAX as int, d as int);
            lemma_div_pos_is_pos(neg as int, d as int);
            assert(i64::MAX as int / (d as int) <= i64::MAX) by {
                vstd::arithmetic::div_mod::lemma_div_is_ordered_by_denominator(
                    i64::MAX as int,
                    1,
                    d as int,
                );
            }
        }
        -(q as i64)
    }
}

} // verus!
