//! Shared fixed-point units, constants, and elementary integer routines:
//! a floor square root and a truncating signed division.

use vstd::prelude::*;

verus! {

/// One full turn (2*pi) in microradians, rounded to the nearest integer.
pub const TURN_URAD: u64 = 6_283_185;

/// Half a turn (pi) in microradians, rounded to the nearest integer.
pub const PI_URAD: u64 = 3_141_593;

/// A quarter turn (pi/2) in microradians, rounded to the nearest integer.
pub const HALF_PI_URAD: u64 = 1_570_796;

/// An eighth of a turn (pi/4) in microradians, rounded to the nearest integer.
pub const QUARTER_PI_URAD: u64 = 785_398;

/// The fixed-point representation of 1.0 for unit-vector and quaternion
/// components: values are stored in millionths.
pub const UNIT: i64 = 1_000_000;

/// Bound on a single component of a fixed-point direction produced by the
/// trigonometric routines: slightly above `UNIT` to absorb rounding.
pub const DIR_BOUND: i64 = 1_016_000;

/// Bound on a single world-space coordinate (millimeters): 50 km.
pub const COORD_LIMIT: i64 = 50_000_000;

/// Bound on configured ranges (millimeters): 100 km, the largest separation
/// two in-bounds points can have.
pub const RANGE_LIMIT: u64 = 100_000_000;

/// Bound on the number of rays in one sweep; keeps the angular resolution
/// at least one microradian.
pub const RAYS_LIMIT: usize = 1_000_000;

/// Bound on the configured scan rate (millihertz).
pub const RATE_LIMIT: u64 = 1_000_000_000;

/// Microseconds per second times hertz per millihertz: dividing this by a
/// scan rate in millihertz yields the scan period in microseconds.
pub const PERIOD_SCALE: u64 = 1_000_000_000;

/// Bound on a single time delta handed to the scheduler (microseconds).
pub const TICK_LIMIT: u64 = 1_000_000_000_000;

/// Bound on a single noise sample (millimeters).
pub const NOISE_LIMIT: i64 = 1_000_000_000;

/// Numerator of the squared cosine of the angular tolerance (about 5 degrees,
/// 0.087 rad): an obstacle direction d and a ray direction w agree when
/// `dot(w, d)^2 * COS_TOL_SQ_DEN > COS_TOL_SQ_NUM * |w|^2 * |d|^2` and the dot
/// product is positive.
pub const COS_TOL_SQ_NUM: i128 = 992_450;

/// Denominator of the squared cosine of the angular tolerance.
pub const COS_TOL_SQ_DEN: i128 = 1_000_000;

/// The largest integer whose square does not exceed `n`.
pub open spec fn sqrt_floor(n: nat) -> nat
    decreases n,
{
    if n == 0 {
        0
    } else {
        let r = sqrt_floor((n - 1) as nat);
        if (r + 1) * (r + 1) <= n {
            r + 1
        } else {
            r
        }
    }
}

/// `sqrt_floor(n)` brackets `n` between consecutive squares.
pub proof fn lemma_sqrt_floor_bounds(n: nat)
    ensures
        sqrt_floor(n) * sqrt_floor(n) <= n,
        n < (sqrt_floor(n) + 1) * (sqrt_floor(n) + 1),
    decreases n,
{
    if n == 0 {
        assert(n < (sqrt_floor(n) + 1) * (sqrt_floor(n) + 1)) by (nonlinear_arith)
            requires
                n == 0,
                sqrt_floor(n) == 0,
        ;
    } else {
        let r = sqrt_floor((n - 1) as nat);
        lemma_sqrt_floor_bounds((n - 1) as nat);
        if (r + 1) * (r + 1) <= n {
            assert(sqrt_floor(n) == r + 1);
            assert(n < (r + 2) * (r + 2)) by (nonlinear_arith)
                requires
                    n - 1 < (r + 1) * (r + 1),
            ;
        } else {
            assert(sqrt_floor(n) == r);
        }
    }
}

/// Any integer that brackets `n` between consecutive squares is `sqrt_floor(n)`.
pub proof fn lemma_sqrt_floor_unique(n: nat, r: nat)
    requires
        r * r <= n,
        n < (r + 1) * (r + 1),
    ensures
        r == sqrt_floor(n),
{
    let s = sqrt_floor(n);
    lemma_sqrt_floor_bounds(n);
    if r < s {
        assert((r + 1) * (r + 1) <= s * s) by (nonlinear_arith)
            requires
                r + 1 <= s,
        ;
    }
    if s < r {
        assert((s + 1) * (s + 1) <= r * r) by (nonlinear_arith)
            requires
                s + 1 <= r,
        ;
    }
}

/// The square root is monotone.
pub proof fn lemma_sqrt_floor_monotone(a: nat, b: nat)
    requires
        a <= b,
    ensures
        sqrt_floor(a) <= sqrt_floor(b),
{
    lemma_sqrt_floor_bounds(a);
    lemma_sqrt_floor_bounds(b);
    let ra = sqrt_floor(a);
    let rb = sqrt_floor(b);
    if rb < ra {
        assert((rb + 1) * (rb + 1) <= ra * ra) by (nonlinear_arith)
            requires
                rb + 1 <= ra,
        ;
    }
}

/// Floor square root by bisection.
pub fn isqrt(x: u64) -> (r: u64)
    ensures
        r == sqrt_floor(x as nat),
        r < 4_294_967_296,
{
    let mut lo: u64 = 0;
    let mut hi: u64 = 4_294_967_296;
    assert((hi as u128) * (hi as u128) > x as nat) by (nonlinear_arith)
        requires
            hi == 4_294_967_296u64,
            x <= 18_446_744_073_709_551_615u64,
    ;
    while lo + 1 < hi
        invariant
            lo < hi <= 4_294_967_296u64,
            (lo as nat) * (lo as nat) <= x as nat,
            (hi as nat) * (hi as nat) > x as nat,
        decreases hi - lo,
    {
        let mid: u64 = lo + (hi - lo) / 2;
        assert((mid as u128) * (mid as u128) <= 340_282_366_920_938_463_463_374_607_431_768_211_455u128)
            by (nonlinear_arith)
            requires
                mid <= 4_294_967_296u64,
        ;
        if (mid as u128) * (mid as u128) <= x as u128 {
            lo = mid;
        } else {
            hi = mid;
        }
    }
    proof {
        lemma_sqrt_floor_unique(x as nat, lo as nat);
    }
    lo
}

/// Division truncated toward zero, the native behavior of hardware division;
/// on non-negative operands it agrees with mathematical floor division.
pub open spec fn tdiv(n: int, d: int) -> int {
    if n >= 0 {
        n / d
    } else {
        -((-n) / d)
    }
}

/// Truncating signed division on 128-bit integers.
pub fn div_trunc(n: i128, d: i128) -> (r: i128)
    requires
        d >= 1,
        n > -170_141_183_460_469_231_731_687_303_715_884_105_727i128,
    ensures
        r == tdiv(n as int, d as int),
{
    if n >= 0 {
        let q: u128 = (n as u128) / (d as u128);
        proof {
            assert(q <= n as u128) by (nonlinear_arith)
                requires
                    d as u128 >= 1,
                    q == (n as u128) / (d as u128),
            ;
        }
        q as i128
    } else {
        let m: u128 = (-n) as u128;
        let q: u128 = m / (d as u128);
        proof {
            assert(q <= m) by (nonlinear_arith)
                requires
                    d as u128 >= 1,
                    q == m / (d as u128),
            ;
        }
        -(q as i128)
    }
}

/// Multiplication of two 128-bit integers whose magnitude bounds multiply to
/// something representable; the bounds are ghost, so one helper serves every
/// operand size.
pub fn mul_checked(a: i128, b: i128, bound_a: Ghost<int>, bound_b: Ghost<int>) -> (r: i128)
    requires
        0 <= bound_a@,
        0 <= bound_b@,
        -bound_a@ <= a <= bound_a@,
        -bound_b@ <= b <= bound_b@,
        bound_a@ * bound_b@ < 170_141_183_460_469_231_731_687_303_715_884_105_728,
    ensures
        r == a * b,
        -(bound_a@ * bound_b@) <= r <= bound_a@ * bound_b@,
{
    proof {
        assert(-(bound_a@ * bound_b@) <= a * b <= bound_a@ * bound_b@) by (nonlinear_arith)
            requires
                0 <= bound_a@,
                0 <= bound_b@,
                -bound_a@ <= a <= bound_a@,
                -bound_b@ <= b <= bound_b@,
        ;
    }
    a * b
}

/// The magnitude of a truncated quotient is bounded by the magnitude bound of
/// the dividend divided by the divisor.
pub proof fn lemma_tdiv_bound(n: int, d: int, b: int)
    requires
        d >= 1,
        b >= 0,
        -(b * d) <= n <= b * d,
    ensures
        -b <= tdiv(n, d) <= b,
{
    if n >= 0 {
        assert(n / d <= b) by (nonlinear_arith)
            requires
                d >= 1,
                0 <= n <= b * d,
        ;
        assert(n / d >= 0) by (nonlinear_arith)
            requires
                d >= 1,
                n >= 0,
        ;
    } else {
        assert((-n) / d <= b) by (nonlinear_arith)
            requires
                d >= 1,
                0 <= -n <= b * d,
        ;
        assert((-n) / d >= 0) by (nonlinear_arith)
            requires
                d >= 1,
                -n >= 0,
        ;
    }
}

} // verus!
