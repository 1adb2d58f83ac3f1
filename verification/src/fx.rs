//! Fixed-point arithmetic for the animation core.
//!
//! A world quantity (distance in world units, angle in radians, time in
//! seconds) is stored as an `i64` count of micro-units: `SCALE` ticks per
//! unit. Products of two fixed-point values are computed in 128-bit
//! intermediates and divided back down, truncating toward zero.

use vstd::prelude::*;
use vstd::arithmetic::div_mod::{lemma_div_is_ordered, lemma_div_pos_is_pos};
use vstd::arithmetic::mul::{lemma_mul_inequality, lemma_mul_nonnegative, lemma_mul_upper_bound};

verus! {

/// Number of fixed-point ticks per world unit (micro-units).
pub const SCALE: i64 = 1_000_000;

/// Truncating division for a positive divisor: the quotient is rounded
/// toward zero, as the executable helpers below compute it.
pub open spec fn tdiv(n: int, d: int) -> int {
    if n >= 0 {
        n / d
    } else {
        -((-n) / d)
    }
}

/// Fixed-point multiply-divide: `a * b / d`, truncated toward zero.
pub open spec fn fxmd(a: int, b: int, d: int) -> int {
    tdiv(a * b, d)
}

/// `r` is the integer square root of `n`, rounded down.
pub open spec fn is_sqrt_fl(n: int, r: int) -> bool {
    0 <= r && r * r <= n < (r + 1) * (r + 1)
}

/// The integer square root of `n`, rounded down.
pub closed spec fn sqrt_fl(n: int) -> int {
    choose|r: int| is_sqrt_fl(n, r)
}

/// The rounded-down square root is unique, so any witness equals `sqrt_fl`.
pub proof fn lemma_sqrt_fl_is(n: int, r: int)
    requires
        is_sqrt_fl(n, r),
    ensures
        sqrt_fl(n) == r,
{
    let w = choose|w: int| is_sqrt_fl(n, w);
    assert(is_sqrt_fl(n, w));
    if w < r {
        lemma_mul_inequality(w + 1, r, w + 1);
        lemma_mul_inequality(w + 1, r, r);
        assert((w + 1) * (w + 1) <= r * r) by {
            lemma_mul_inequality(w + 1, r, w + 1);
            assert((w + 1) * (w + 1) <= r * (w + 1));
            lemma_mul_inequality(w + 1, r, r);
            assert(r * (w + 1) <= r * r) by {
                lemma_mul_inequality(w + 1, r, r);
            }
        }
        assert(false);
    }
    if r < w {
        assert((r + 1) * (r + 1) <= w * w) by {
            lemma_mul_inequality(r + 1, w, r + 1);
            assert((r + 1) * (r + 1) <= w * (r + 1));
            lemma_mul_inequality(r + 1, w, w);
            assert(w * (r + 1) <= w * w);
        }
        assert(false);
    }
}

/// Square roots are ordered: a bound on the operand bounds the root.
pub proof fn lemma_sqrt_fl_le(n: int, b: int)
    requires
        0 <= n,
        0 <= b,
        n <= b * b,
        is_sqrt_fl(n, sqrt_fl(n)),
    ensures
        sqrt_fl(n) <= b,
{
    let r = sqrt_fl(n);
    if r > b {
        assert((b + 1) * (b + 1) <= r * r) by {
            lemma_mul_inequality(b + 1, r, b + 1);
            lemma_mul_inequality(b + 1, r, r);
        }
        assert(b * b < (b + 1) * (b + 1)) by (nonlinear_arith)
            requires
                0 <= b,
        ;
        assert(false);
    }
}

/// Bounds on the factors bound the truncated product quotient.
pub proof fn lemma_fxmd_bound(a: int, b: int, d: int, aa: int, bb: int)
    requires
        -aa <= a <= aa,
        -bb <= b <= bb,
        0 < d,
        0 <= aa,
        0 <= bb,
    ensures
        -(aa * bb / d) <= fxmd(a, b, d) <= aa * bb / d,
{
    let n = a * b;
    assert(-(aa * bb) <= n <= aa * bb) by (nonlinear_arith)
        requires
            -aa <= a <= aa,
            -bb <= b <= bb,
            0 <= aa,
            0 <= bb,
            n == a * b,
    ;
    lemma_mul_nonnegative(aa, bb);
    if n >= 0 {
        lemma_div_is_ordered(n, aa * bb, d);
        assert(n / d >= 0) by {
            lemma_div_is_ordered(0, n, d);
        }
    } else {
        lemma_div_is_ordered(-n, aa * bb, d);
        assert((-n) / d >= 0) by {
            lemma_div_is_ordered(0, -n, d);
        }
        assert(aa * bb / d >= 0) by {
            lemma_div_is_ordered(0, aa * bb, d);
        }
    }
}

/// The truncated product quotient of non-negative factors is non-negative.
pub proof fn lemma_fxmd_nonneg(a: int, b: int, d: int)
    requires
        0 <= a,
        0 <= b,
        0 < d,
    ensures
        0 <= fxmd(a, b, d),
        fxmd(a, b, d) == a * b / d,
{
    lemma_mul_nonnegative(a, b);
    lemma_div_is_ordered(0, a * b, d);
}

/// `a * b / d` for non-negative `a`, `b` and positive `d`, computed in
/// 128-bit intermediates.
pub fn mul_div_nn(a: i64, b: i64, d: i64) -> (r: i64)
    requires
        0 <= a,
        0 <= b,
        0 < d,
        a * b / (d as int) <= i64::MAX,
    ensures
        r == fxmd(a as int, b as int, d as int),
        0 <= r,
{
    proof {
        assert(a * b <= 0x7fff_ffff_ffff_ffff * 0x7fff_ffff_ffff_ffff) by (nonlinear_arith)
            requires
                0 <= a <= 0x7fff_ffff_ffff_ffff,
                0 <= b <= 0x7fff_ffff_ffff_ffff,
        ;
        lemma_mul_nonnegative(a as int, b as int);
    }
    let p: u128 = (a as u128) * (b as u128);
    let q: u128 = p / (d as u128);
    proof {
        assert(p == a * b);
        assert(q == (a * b) / (d as int));
        lemma_div_pos_is_pos(a * b, d as int);
    }
    q as i64
}

/// `a * b / d` truncated toward zero, for signed `a`, `b` and positive `d`.
pub fn mul_div(a: i64, b: i64, d: i64) -> (r: i64)
    requires
        -i64::MAX <= a,
        -i64::MAX <= b,
        0 < d,
        -(i64::MAX as int) <= fxmd(a as int, b as int, d as int) <= i64::MAX,
    ensures
        r == fxmd(a as int, b as int, d as int),
{
    let an: bool = a < 0;
    let bn: bool = b < 0;
    let aa: i64 = if an { -a } else { a };
    let bb: i64 = if bn { -b } else { b };
    proof {
        assert(aa * bb <= 0x7fff_ffff_ffff_ffff * 0x7fff_ffff_ffff_ffff) by (nonlinear_arith)
            requires
                0 <= aa <= 0x7fff_ffff_ffff_ffff,
                0 <= bb <= 0x7fff_ffff_ffff_ffff,
        ;
        lemma_mul_nonnegative(aa as int, bb as int);
    }
    let p: u128 = (aa as u128) * (bb as u128);
    let q: u128 = p / (d as u128);
    proof {
        assert(p == aa * bb);
        if an == bn {
            assert(aa * bb == a * b) by (nonlinear_arith)
                requires
                    (aa == a && bb == b) || (aa == -a && bb == -b),
            ;
        } else {
            assert(aa * bb == -(a * b)) by (nonlinear_arith)
                requires
                    (aa == a && bb == -b) || (aa == -a && bb == b),
            ;
        }
    }
    if an == bn {
        q as i64
    } else {
        proof {
            assert(q == (-(a * b)) / (d as int));
            if a * b >= 0 {
                assert(aa * bb == 0 || (an != bn && aa * bb >= 0 && a * b <= 0));
                assert(q == 0) by {
                    assert(aa * bb == -(a * b));
                    assert(a * b <= 0);
                    assert(aa * bb >= 0);
                    assert(a * b == 0);
                }
            }
        }
        -(q as i64)
    }
}

/// `min(a + step, cap)`: addition saturating at `cap`.
pub fn add_saturating_at(a: i64, step: i64, cap: i64) -> (r: i64)
    requires
        0 <= a <= cap,
        0 <= step,
    ensures
        r == if a + step <= cap {
            a + step
        } else {
            cap as int
        },
        a <= r <= cap,
{
    if step >= cap - a {
        cap
    } else {
        a + step
    }
}

/// `a % m` for non-negative `a` and positive `m`, through unsigned arithmetic.
pub fn rem_nn(a: i64, m: i64) -> (r: i64)
    requires
        0 <= a,
        0 < m,
    ensures
        r == (a as int) % (m as int),
        0 <= r < m,
{
    let q: u64 = (a as u64) % (m as u64);
    q as i64
}

/// The integer square root of `n`, rounded down, by bisection.
pub fn isqrt(n: u128) -> (r: u64)
    ensures
        is_sqrt_fl(n as int, r as int),
        r == sqrt_fl(n as int),
{
    let mut lo: u128 = 0;
    let mut hi: u128 = if n < 18_446_744_073_709_551_615u128 {
        n
    } else {
        18_446_744_073_709_551_615u128
    };
    proof {
        assert(n < (hi + 1) * (hi + 1)) by {
            if n < 18_446_744_073_709_551_615u128 {
                lemma_mul_inequality(1, n as int + 1, n as int + 1);
            } else {
                assert((18_446_744_073_709_551_615int + 1) * (18_446_744_073_709_551_615int + 1)
                    > u128::MAX);
            }
        }
    }
    while lo < hi
        invariant
            0 <= lo <= hi <= 18_446_744_073_709_551_615u128,
            lo * lo <= n,
            n < (hi + 1) * (hi + 1),
        decreases hi - lo,
    {
        let mid: u128 = lo + (hi - lo + 1) / 2;
        proof {
            assert(lo < mid <= hi);
            assert(mid * mid <= 18_446_744_073_709_551_615u128 * 18_446_744_073_709_551_615u128)
                by {
                lemma_mul_upper_bound(
                    mid as int,
                    18_446_744_073_709_551_615int,
                    mid as int,
                    18_446_744_073_709_551_615int,
                );
            }
        }
        let sq: u128 = mid * mid;
        if sq <= n {
            lo = mid;
        } else {
            hi = mid - 1;
        }
    }
    proof {
        lemma_sqrt_fl_is(n as int, lo as int);
    }
    lo as u64
}

} // verus!
