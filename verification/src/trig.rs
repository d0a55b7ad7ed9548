//! Fixed-point sine and cosine on microradian angles.
//!
//! An angle in `[0, TURN_URAD)` is reduced to `[0, QUARTER_PI_URAD]` by the
//! usual symmetries, and the reduced value is fed to a truncated Taylor
//! polynomial evaluated in integer arithmetic. The result is a component of a
//! unit direction scaled by `UNIT` (millionths); rounding keeps every result
//! within `DIR_BOUND` of magnitude.

use crate::fixed::{DIR_BOUND, HALF_PI_URAD, PI_URAD, QUARTER_PI_URAD, TURN_URAD, UNIT};
use vstd::prelude::*;

verus! {

/// `6 * UNIT^2`, the denominator of the cubic sine term.
pub const SIN_DEN_3: u128 = 6_000_000_000_000;

/// `120 * UNIT^4`, the denominator of the quintic sine term.
pub const SIN_DEN_5: u128 = 120_000_000_000_000_000_000_000_000;

/// `2 * UNIT`, the denominator of the quadratic cosine term.
pub const COS_DEN_2: u128 = 2_000_000;

/// `24 * UNIT^3`, the denominator of the quartic cosine term.
pub const COS_DEN_4: u128 = 24_000_000_000_000_000_000;

/// `720 * UNIT^5`, the denominator of the sextic cosine term.
pub const COS_DEN_6: u128 = 720_000_000_000_000_000_000_000_000_000_000;

/// Taylor polynomial for sine on `[0, pi/4]`, in millionths.
pub open spec fn spec_sin_quarter(x: int) -> int {
    x - (x * x * x) / (SIN_DEN_3 as int) + (x * x * x * x * x) / (SIN_DEN_5 as int)
}

/// Taylor polynomial for cosine on `[0, pi/4]`, in millionths.
pub open spec fn spec_cos_quarter(x: int) -> int {
    UNIT - (x * x) / (COS_DEN_2 as int) + (x * x * x * x) / (COS_DEN_4 as int) - (x * x * x * x
        * x * x) / (COS_DEN_6 as int)
}

/// Sine on one quadrant `[0, pi/2]`, folded onto `[0, pi/4]`.
pub open spec fn spec_sin_quadrant(x: int) -> int {
    if x > QUARTER_PI_URAD {
        spec_cos_quarter(HALF_PI_URAD - x)
    } else {
        spec_sin_quarter(x)
    }
}

/// Cosine on one quadrant `[0, pi/2]`, folded onto `[0, pi/4]`.
pub open spec fn spec_cos_quadrant(x: int) -> int {
    if x > QUARTER_PI_URAD {
        spec_sin_quarter(HALF_PI_URAD - x)
    } else {
        spec_cos_quarter(x)
    }
}

/// Sine on one half turn `[0, pi]`, folded onto the first quadrant.
pub open spec fn spec_sin_half(x: int) -> int {
    if x > HALF_PI_URAD {
        spec_sin_quadrant(PI_URAD - x)
    } else {
        spec_sin_quadrant(x)
    }
}

/// Cosine on one half turn `[0, pi]`, folded onto the first quadrant.
pub open spec fn spec_cos_half(x: int) -> int {
    if x > HALF_PI_URAD {
        -spec_cos_quadrant(PI_URAD - x)
    } else {
        spec_cos_quadrant(x)
    }
}

/// Fixed-point sine of an angle in `[0, TURN_URAD)` microradians.
pub open spec fn spec_sin(a: int) -> int {
    if a >= PI_URAD {
        -spec_sin_half(a - PI_URAD)
    } else {
        spec_sin_half(a)
    }
}

/// Fixed-point cosine of an angle in `[0, TURN_URAD)` microradians.
pub open spec fn spec_cos(a: int) -> int {
    if a >= PI_URAD {
        -spec_cos_half(a - PI_URAD)
    } else {
        spec_cos_half(a)
    }
}

/// Sine polynomial on the reduced domain.
fn sin_quarter_fx(x: u64) -> (r: i64)
    requires
        x <= QUARTER_PI_URAD,
    ensures
        r == spec_sin_quarter(x as int),
        0 <= r <= DIR_BOUND,
{
    let xi: u128 = x as u128;
    proof {
        assert(xi * xi <= 617_000_000_000) by (nonlinear_arith)
            requires
                xi <= 785_398,
        ;
    }
    let x2: u128 = xi * xi;
    proof {
        assert(x2 * xi <= 485_000_000_000_000_000) by (nonlinear_arith)
            requires
                x2 <= 617_000_000_000,
                xi <= 785_398,
        ;
        assert(x2 * xi <= xi * SIN_DEN_3) by (nonlinear_arith)
            requires
                x2 <= SIN_DEN_3,
        ;
    }
    let x3: u128 = x2 * xi;
    proof {
        assert(x3 * x2 <= 300_000_000_000_000_000_000_000_000_000) by (nonlinear_arith)
            requires
                x3 <= 485_000_000_000_000_000,
                x2 <= 617_000_000_000,
        ;
    }
    let x5: u128 = x3 * x2;
    proof {
        assert(x5 == xi * xi * xi * xi * xi) by (nonlinear_arith)
            requires
                x2 == xi * xi,
                x3 == x2 * xi,
                x5 == x3 * x2,
        ;
    }
    let t3: u128 = x3 / SIN_DEN_3;
    let t5: u128 = x5 / SIN_DEN_5;
    proof {
        assert(t3 <= xi) by (nonlinear_arith)
            requires
                x3 <= xi * SIN_DEN_3,
                t3 == x3 / SIN_DEN_3,
        ;
        assert(t5 <= 2_500) by (nonlinear_arith)
            requires
                x5 <= 2_500 * SIN_DEN_5,
                t5 == x5 / SIN_DEN_5,
        ;
    }
    let r: u128 = xi + t5 - t3;
    r as i64
}

/// Cosine polynomial on the reduced domain.
fn cos_quarter_fx(x: u64) -> (r: i64)
    requires
        x <= QUARTER_PI_URAD,
    ensures
        r == spec_cos_quarter(x as int),
        0 <= r <= DIR_BOUND,
{
    let xi: u128 = x as u128;
    proof {
        assert(xi * xi <= 617_000_000_000) by (nonlinear_arith)
            requires
                xi <= 785_398,
        ;
    }
    let x2: u128 = xi * xi;
    proof {
        assert(x2 * x2 <= 381_000_000_000_000_000_000_000) by (nonlinear_arith)
            requires
                x2 <= 617_000_000_000,
        ;
    }
    let x4: u128 = x2 * x2;
    proof {
        assert(x4 * x2 <= 236_000_000_000_000_000_000_000_000_000_000_000) by (nonlinear_arith)
            requires
                x4 <= 381_000_000_000_000_000_000_000,
                x2 <= 617_000_000_000,
        ;
    }
    let x6: u128 = x4 * x2;
    proof {
        assert(x4 == xi * xi * xi * xi) by (nonlinear_arith)
            requires
                x2 == xi * xi,
                x4 == x2 * x2,
        ;
        assert(x6 == xi * xi * xi * xi * xi * xi) by (nonlinear_arith)
            requires
                x2 == xi * xi,
                x4 == x2 * x2,
                x6 == x4 * x2,
        ;
    }
    let t2: u128 = x2 / COS_DEN_2;
    let t4: u128 = x4 / COS_DEN_4;
    let t6: u128 = x6 / COS_DEN_6;
    proof {
        assert(t2 <= 308_500) by (nonlinear_arith)
            requires
                x2 <= 308_500 * COS_DEN_2,
                t2 == x2 / COS_DEN_2,
        ;
        assert(t4 <= 15_875) by (nonlinear_arith)
            requires
                x4 <= 15_875 * COS_DEN_4,
                t4 == x4 / COS_DEN_4,
        ;
        assert(t6 <= 328) by (nonlinear_arith)
            requires
                x6 <= 328 * COS_DEN_6,
                t6 == x6 / COS_DEN_6,
        ;
    }
    let unit: u128 = 1_000_000;
    let r: u128 = unit + t4 - t2 - t6;
    r as i64
}

/// Sine over one quadrant.
fn sin_quadrant_fx(x: u64) -> (r: i64)
    requires
        x <= HALF_PI_URAD,
    ensures
        r == spec_sin_quadrant(x as int),
        0 <= r <= DIR_BOUND,
{
    if x > QUARTER_PI_URAD {
        cos_quarter_fx(HALF_PI_URAD - x)
    } else {
        sin_quarter_fx(x)
    }
}

/// Cosine over one quadrant.
fn cos_quadrant_fx(x: u64) -> (r: i64)
    requires
        x <= HALF_PI_URAD,
    ensures
        r == spec_cos_quadrant(x as int),
        0 <= r <= DIR_BOUND,
{
    if x > QUARTER_PI_URAD {
        sin_quarter_fx(HALF_PI_URAD - x)
    } else {
        cos_quarter_fx(x)
    }
}

/// Sine over one half turn.
fn sin_half_fx(x: u64) -> (r: i64)
    requires
        x <= PI_URAD,
    ensures
        r == spec_sin_half(x as int),
        0 <= r <= DIR_BOUND,
{
    if x > HALF_PI_URAD {
        sin_quadrant_fx(PI_URAD - x)
    } else {
        sin_quadrant_fx(x)
    }
}

/// Cosine over one half turn.
fn cos_half_fx(x: u64) -> (r: i64)
    requires
        x <= PI_URAD,
    ensures
        r == spec_cos_half(x as int),
        -DIR_BOUND <= r <= DIR_BOUND,
{
    if x > HALF_PI_URAD {
        -cos_quadrant_fx(PI_URAD - x)
    } else {
        cos_quadrant_fx(x)
    }
}

/// Fixed-point sine: millionths of the sine of `a` microradians.
pub fn sin_scaled(a: u64) -> (r: i64)
    requires
        a < TURN_URAD,
    ensures
        r == spec_sin(a as int),
        -DIR_BOUND <= r <= DIR_BOUND,
{
    if a >= PI_URAD {
        -sin_half_fx(a - PI_URAD)
    } else {
        sin_half_fx(a)
    }
}

/// Fixed-point cosine: millionths of the cosine of `a` microradians.
pub fn cos_scaled(a: u64) -> (r: i64)
    requires
        a < TURN_URAD,
    ensures
        r == spec_cos(a as int),
        -DIR_BOUND <= r <= DIR_BOUND,
{
    if a >= PI_URAD {
        -cos_half_fx(a - PI_URAD)
    } else {
        cos_half_fx(a)
    }
}

} // verus!
