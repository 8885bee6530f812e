//! Fixed-point arithmetic: values are counted in millionths of a unit.
use vstd::prelude::*;

verus! {

/// One unit (one second, one full brightness, one full turn) in millionths.
pub const ONE: i64 = 1_000_000;

/// Largest magnitude accepted for levels and time offsets: one million units.
pub const MAX_LEVEL: i64 = 1_000_000_000_000;

/// `a / d` rounded to the nearest integer, halves away from zero.
pub open spec fn round_div(a: int, d: int) -> int
    recommends
        d > 0,
{
    if a >= 0 {
        (2 * a + d) / (2 * d)
    } else {
        -((-2 * a + d) / (2 * d))
    }
}

/// `a / d` rounded towards negative infinity.
pub open spec fn floor_div(a: int, d: int) -> int
    recommends
        d > 0,
{
    a / d
}

/// Clamps `x` into the range of a byte.
pub open spec fn clamp_byte(x: int) -> u8 {
    if x < 0 {
        0
    } else if x > 255 {
        255
    } else {
        x as u8
    }
}

pub proof fn lemma_round_div_bound(a: int, d: int, m: int)
    requires
        d > 0,
        m >= 0,
        -(m * d) <= a <= m * d,
    ensures
        -m <= round_div(a, d) <= m,
{
    if a >= 0 {
        assert((2 * a + d) / (2 * d) <= m) by (nonlinear_arith)
            requires
                d > 0,
                0 <= a <= m * d,
                m >= 0,
        ;
        assert((2 * a + d) / (2 * d) >= 0) by (nonlinear_arith)
            requires
                d > 0,
                a >= 0,
        ;
    } else {
        assert((-2 * a + d) / (2 * d) <= m) by (nonlinear_arith)
            requires
                d > 0,
                0 <= -a <= m * d,
                m >= 0,
        ;
        assert((-2 * a + d) / (2 * d) >= 0) by (nonlinear_arith)
            requires
                d > 0,
                a < 0,
        ;
    }
}

/// Rounded division of wide integers.
pub fn round_div_i128(a: i128, d: i128) -> (r: i128)
    requires
        d > 0,
        d <= 1_000_000_000_000_000_000_000_000,
        -1_000_000_000_000_000_000_000_000_000_000 <= a <= 1_000_000_000_000_000_000_000_000_000_000,
    ensures
        r == round_div(a as int, d as int),
{
    if a >= 0 {
        assert((2 * a + d) / (2 * d) <= a + d) by (nonlinear_arith)
            requires
                d > 0,
                a >= 0,
        ;
        (2 * a + d) / (2 * d)
    } else {
        assert((-2 * a + d) / (2 * d) <= -a + d) by (nonlinear_arith)
            requires
                d > 0,
                a < 0,
        ;
        -((-2 * a + d) / (2 * d))
    }
}

/// Floored division of wide integers.
pub fn floor_div_i128(a: i128, d: i128) -> (r: i128)
    requires
        d > 0,
        d <= 1_000_000_000_000_000_000_000_000,
        -1_000_000_000_000_000_000_000_000_000_000 <= a <= 1_000_000_000_000_000_000_000_000_000_000,
    ensures
        r == floor_div(a as int, d as int),
{
    if a >= 0 {
        a / d
    } else {
        let q = (-a + d - 1) / d;
        assert(-(q as int) == (a as int) / (d as int)) by (nonlinear_arith)
            requires
                d > 0,
                a < 0,
                q as int == (-(a as int) + (d as int) - 1) / (d as int),
        ;
        -q
    }
}

} // verus!
