//! Saturating fixed-point arithmetic on `i64` values.
//!
//! Every coordinate, velocity component, coefficient and merit value in this
//! crate is an `i64` read as a multiple of `1/SCALE`, so `SCALE` itself stands
//! for one whole unit.  Sums and products that would leave the `i64` range
//! saturate at the nearest representable value.

use vstd::prelude::*;

verus! {

/// Number of fixed-point steps per whole unit: an `i64` value `v` stands for
/// the quantity `v / SCALE`.
pub const SCALE: i64 = 1_000_000;

/// Clamp a mathematical integer into the `i64` range.
pub open spec fn sat64(v: int) -> int {
    if v > i64::MAX as int {
        i64::MAX as int
    } else if v < i64::MIN as int {
        i64::MIN as int
    } else {
        v
    }
}

/// Division of `p` by `SCALE`, rounding toward zero.
pub open spec fn div_scale(p: int) -> int {
    if p >= 0 {
        p / (SCALE as int)
    } else {
        -((-p) / (SCALE as int))
    }
}

/// Saturating fixed-point sum.
pub open spec fn fx_add_spec(a: int, b: int) -> int {
    sat64(a + b)
}

/// Saturating fixed-point difference.
pub open spec fn fx_sub_spec(a: int, b: int) -> int {
    sat64(a - b)
}

/// Saturating fixed-point product: the integer product rescaled by `SCALE`,
/// rounded toward zero.
pub open spec fn fx_mul_spec(a: int, b: int) -> int {
    sat64(div_scale(a * b))
}

pub fn fx_add(a: i64, b: i64) -> (r: i64)
    ensures
        r as int == fx_add_spec(a as int, b as int),
{
    let s: i128 = a as i128 + b as i128;
    if s > i64::MAX as i128 {
        i64::MAX
    } else if s < i64::MIN as i128 {
        i64::MIN
    } else {
        s as i64
    }
}

pub fn fx_sub(a: i64, b: i64) -> (r: i64)
    ensures
        r as int == fx_sub_spec(a as int, b as int),
{
    let s: i128 = a as i128 - b as i128;
    if s > i64::MAX as i128 {
        i64::MAX
    } else if s < i64::MIN as i128 {
        i64::MIN
    } else {
        s as i64
    }
}

pub fn fx_mul(a: i64, b: i64) -> (r: i64)
    ensures
        r as int == fx_mul_spec(a as int, b as int),
{
    proof {
        assert(i64::MIN as int * i64::MAX as int <= (a as int) * (b as int)
            <= i64::MIN as int * i64::MIN as int) by (nonlinear_arith)
            requires
                i64::MIN <= a <= i64::MAX,
                i64::MIN <= b <= i64::MAX,
        ;
    }
    let p: i128 = (a as i128) * (b as i128);
    if p >= 0 {
        let q: u128 = (p as u128) / (SCALE as u128);
        if q > i64::MAX as u128 {
            i64::MAX
        } else {
            q as i64
        }
    } else {
        let m: u128 = ((-p) as u128) / (SCALE as u128);
        if m > i64::MAX as u128 {
            i64::MIN
        } else {
            -(m as i64)
        }
    }
}

} // verus!
