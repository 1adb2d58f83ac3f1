//! Fixed-point sine and cosine for angles in micro-radians.
//!
//! An angle is reduced to a quadrant of width `HALF_PI_FX` and evaluated by a
//! truncated alternating series; every division truncates, and the spec
//! functions state the computed value exactly, term by term. The values at
//! the quadrant boundaries are exact: `sin` of `0` is `0`, `sin` of
//! `HALF_PI_FX` is `SCALE`, `cos` of `HALF_PI_FX` is `0`.

use vstd::prelude::*;
use vstd::arithmetic::div_mod::{lemma_div_is_ordered, lemma_fundamental_div_mod};
use vstd::arithmetic::mul::lemma_mul_upper_bound;

verus! {

/// One full turn, in micro-radians.
pub const TWO_PI_FX: i64 = 6_283_185;

/// A quarter turn, in micro-radians; also the fixed polar angle of every
/// spawn descriptor.
pub const HALF_PI_FX: i64 = 1_570_796;

/// Which quarter turn the angle `a` falls in, the last quadrant absorbing
/// the sliver that remains above four exact quarter turns.
pub open spec fn quadrant(a: int) -> int {
    if a / (HALF_PI_FX as int) > 3 {
        3
    } else {
        a / (HALF_PI_FX as int)
    }
}

/// The angle's offset into its quadrant.
pub open spec fn quad_offset(a: int) -> int {
    a - quadrant(a) * (HALF_PI_FX as int)
}

/// The truncated sine series on one quadrant, micro-radians in and
/// micro-units out, every division truncating.
pub open spec fn sin_poly(r: int) -> int {
    let r2 = r * r;
    let t2 = r * r2 / 6_000_000_000_000;
    let t3 = t2 * r2 / 20_000_000_000_000;
    let t4 = t3 * r2 / 42_000_000_000_000;
    let t5 = t4 * r2 / 72_000_000_000_000;
    r - t2 + t3 - t4 + t5
}

/// The truncated cosine series on one quadrant.
pub open spec fn cos_poly(r: int) -> int {
    let r2 = r * r;
    let c2 = r2 / 2_000_000;
    let c3 = c2 * r2 / 12_000_000_000_000;
    let c4 = c3 * r2 / 30_000_000_000_000;
    let c5 = c4 * r2 / 56_000_000_000_000;
    1_000_000 - c2 + c3 - c4 + c5
}

/// Fixed-point sine of an angle in `[0, TWO_PI_FX)`.
pub open spec fn sin_fx_spec(a: int) -> int {
    let q = quadrant(a);
    let r = quad_offset(a);
    if q == 0 {
        sin_poly(r)
    } else if q == 1 {
        cos_poly(r)
    } else if q == 2 {
        -sin_poly(r)
    } else {
        -cos_poly(r)
    }
}

/// Fixed-point cosine of an angle in `[0, TWO_PI_FX)`.
pub open spec fn cos_fx_spec(a: int) -> int {
    let q = quadrant(a);
    let r = quad_offset(a);
    if q == 0 {
        cos_poly(r)
    } else if q == 1 {
        -sin_poly(r)
    } else if q == 2 {
        -cos_poly(r)
    } else {
        sin_poly(r)
    }
}

/// One further term of an alternating series: `t * r2 / d`.
fn poly_term(t: u128, r2: u128, d: u128) -> (r: u128)
    requires
        t <= 2_000_000,
        r2 <= 2_500_000_000_000,
        6_000_000_000_000 <= d,
    ensures
        r == t * r2 / (d as int),
        r <= 833_333,
{
    proof {
        lemma_mul_upper_bound(t as int, 2_000_000, r2 as int, 2_500_000_000_000);
        lemma_div_is_ordered(t * r2, 5_000_000_000_000_000_000, d as int);
        vstd::arithmetic::div_mod::lemma_div_is_ordered_by_denominator(
            5_000_000_000_000_000_000,
            6_000_000_000_000,
            d as int,
        );
    }
    t * r2 / d
}

/// The sine series on one quadrant offset.
fn sin_poly_fx(r: u64) -> (s: i64)
    requires
        r <= 1_570_796,
    ensures
        s == sin_poly(r as int),
        -1_800_000 <= s <= 1_800_000,
{
    proof {
        lemma_mul_upper_bound(r as int, 1_570_796, r as int, 1_570_796);
    }
    let r2: u128 = (r as u128) * (r as u128);
    let t1: u128 = r as u128;
    let t2: u128 = poly_term(t1, r2, 6_000_000_000_000);
    let t3: u128 = poly_term(t2, r2, 20_000_000_000_000);
    let t4: u128 = poly_term(t3, r2, 42_000_000_000_000);
    let t5: u128 = poly_term(t4, r2, 72_000_000_000_000);
    proof {
        lemma_mul_upper_bound(t2 as int, 833_333, r2 as int, 2_500_000_000_000);
        lemma_div_is_ordered(t2 * r2, 2_083_332_500_000_000_000, 20_000_000_000_000);
        lemma_mul_upper_bound(t4 as int, 833_333, r2 as int, 2_500_000_000_000);
        lemma_div_is_ordered(t4 * r2, 2_083_332_500_000_000_000, 72_000_000_000_000);
    }
    (t1 as i64) - (t2 as i64) + (t3 as i64) - (t4 as i64) + (t5 as i64)
}

/// The cosine series on one quadrant offset.
fn cos_poly_fx(r: u64) -> (c: i64)
    requires
        r <= 1_570_796,
    ensures
        c == cos_poly(r as int),
        -1_500_000 <= c <= 1_800_000,
{
    proof {
        lemma_mul_upper_bound(r as int, 1_570_796, r as int, 1_570_796);
    }
    let r2: u128 = (r as u128) * (r as u128);
    let c2: u128 = r2 / 2_000_000;
    let c3: u128 = poly_term(c2, r2, 12_000_000_000_000);
    let c4: u128 = poly_term(c3, r2, 30_000_000_000_000);
    let c5: u128 = poly_term(c4, r2, 56_000_000_000_000);
    proof {
        assert(c2 <= 1_250_000) by {
            lemma_div_is_ordered(r2 as int, 2_500_000_000_000, 2_000_000);
        }
        assert(c3 <= 260_416) by {
            lemma_mul_upper_bound(c2 as int, 1_250_000, r2 as int, 2_500_000_000_000);
            lemma_div_is_ordered(c2 * r2, 3_125_000_000_000_000_000, 12_000_000_000_000);
        }
        assert(c4 <= 21_701) by {
            lemma_mul_upper_bound(c3 as int, 260_416, r2 as int, 2_500_000_000_000);
            lemma_div_is_ordered(c3 * r2, 651_040_000_000_000_000, 30_000_000_000_000);
        }
        assert(c5 <= 969) by {
            lemma_mul_upper_bound(c4 as int, 21_701, r2 as int, 2_500_000_000_000);
            lemma_div_is_ordered(c4 * r2, 54_252_500_000_000_000, 56_000_000_000_000);
        }
    }
    1_000_000 - (c2 as i64) + (c3 as i64) - (c4 as i64) + (c5 as i64)
}

/// Reduce an angle in `[0, TWO_PI_FX)` to its quadrant and offset.
fn reduce(a: i64) -> (qr: (u64, u64))
    requires
        0 <= a < TWO_PI_FX,
    ensures
        qr.0 == quadrant(a as int),
        qr.1 == quad_offset(a as int),
        qr.1 <= 1_570_796,
{
    let au: u64 = a as u64;
    let q0: u64 = au / 1_570_796;
    proof {
        lemma_fundamental_div_mod(au as int, 1_570_796);
    }
    let q: u64 = if q0 > 3 {
        3
    } else {
        q0
    };
    let r: u64 = au - q * 1_570_796;
    (q, r)
}

/// Fixed-point sine of an angle in `[0, TWO_PI_FX)` micro-radians.
pub fn sin_fx(a: i64) -> (s: i64)
    requires
        0 <= a < TWO_PI_FX,
    ensures
        s == sin_fx_spec(a as int),
        -1_800_000 <= s <= 1_800_000,
{
    let (q, r) = reduce(a);
    if q == 0 {
        sin_poly_fx(r)
    } else if q == 1 {
        cos_poly_fx(r)
    } else if q == 2 {
        -sin_poly_fx(r)
    } else {
        -cos_poly_fx(r)
    }
}

/// Fixed-point cosine of an angle in `[0, TWO_PI_FX)` micro-radians.
pub fn cos_fx(a: i64) -> (c: i64)
    requires
        0 <= a < TWO_PI_FX,
    ensures
        c == cos_fx_spec(a as int),
        -1_800_000 <= c <= 1_800_000,
{
    let (q, r) = reduce(a);
    if q == 0 {
        cos_poly_fx(r)
    } else if q == 1 {
        -sin_poly_fx(r)
    } else if q == 2 {
        -cos_poly_fx(r)
    } else {
        sin_poly_fx(r)
    }
}

} // verus!
