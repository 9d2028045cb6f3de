//! Scalar arithmetic on 8-bit channel values.
//!
//! Every formula is stated over mathematical integers, rounded half up by
//! `round_div` and clamped into `[0, 255]` by `clamp255` before it becomes a
//! channel again. Percentages are given in hundredths of a percent, so that
//! `1000` stands for 10% and `-5` for -0.05%.
use vstd::prelude::*;

verus! {

/// Clamps an integer into the range of an 8-bit channel.
pub open spec fn clamp255(x: int) -> int {
    if x < 0 {
        0
    } else if x > 255 {
        255
    } else {
        x
    }
}

/// `x / d` rounded to the nearest integer, halves rounded up.
pub open spec fn round_div(x: int, d: int) -> int {
    (2 * x + d) / (2 * d)
}

/// Adding a whole multiple of the divisor shifts the rounded quotient by that multiple.
pub proof fn lemma_round_div_shift(x: int, k: int, d: int)
    requires
        d > 0,
    ensures
        round_div(x + k * d, d) == round_div(x, d) + k,
{
    assert((2 * (x + k * d) + d) / (2 * d) == (2 * x + d) / (2 * d) + k) by (nonlinear_arith)
        requires
            d > 0,
    ;
}

/// Rounding an exact multiple gives the quotient back.
pub proof fn lemma_round_div_exact(k: int, d: int)
    requires
        d > 0,
    ensures
        round_div(k * d, d) == k,
{
    lemma_round_div_shift(0, k, d);
    assert(round_div(0, d) == 0) by (nonlinear_arith)
        requires
            d > 0,
    ;
}

/// `q` is the rounded quotient of `x` by `d` when `x / d` lies within half of `q`.
pub proof fn lemma_round_div_is(x: int, d: int, q: int)
    requires
        d > 0,
        2 * q * d <= 2 * x + d < 2 * q * d + 2 * d,
    ensures
        round_div(x, d) == q,
{
    assert((2 * x + d) / (2 * d) == q) by (nonlinear_arith)
        requires
            d > 0,
            2 * q * d <= 2 * x + d < 2 * q * d + 2 * d,
    ;
}

/// Clamps an integer into a channel value.
pub fn clamp_channel(x: i64) -> (r: u8)
    ensures
        r == clamp255(x as int),
{
    if x < 0 {
        0
    } else if x > 255 {
        255
    } else {
        x as u8
    }
}

/// Rounds `num / den` to the nearest integer (halves up) and clamps it to a channel.
pub fn round_clamp(num: i64, den: i64) -> (r: u8)
    requires
        0 < den < 0x1000_0000,
        -0x1000_0000_0000_0000 < num < 0x1000_0000_0000_0000,
    ensures
        r == clamp255(round_div(num as int, den as int)),
{
    if num < 0 {
        assert(round_div(num as int, den as int) <= 0) by (nonlinear_arith)
            requires
                num < 0,
                den > 0,
        ;
        0
    } else {
        let q: i64 = (2 * num + den) / (2 * den);
        clamp_channel(q)
    }
}

/// `base + num / 10000`, rounded half up and clamped to a channel.
pub fn offset_round(base: i64, num: i64) -> (r: u8)
    requires
        -0x1000_0000 < base < 0x1000_0000,
        -0x1000_0000_0000 < num < 0x1000_0000_0000,
    ensures
        r == clamp255(base + round_div(num as int, 10000)),
{
    proof {
        lemma_round_div_shift(num as int, base as int, 10000);
    }
    round_clamp(num + base * 10000, 10000)
}

/// Bounds a product of two non-negative factors by the product of their bounds.
pub proof fn lemma_mul_bound(x: int, y: int, x_max: int, y_max: int)
    requires
        0 <= x <= x_max,
        0 <= y <= y_max,
    ensures
        0 <= x * y <= x_max * y_max,
{
    assert(0 <= x * y <= x_max * y_max) by (nonlinear_arith)
        requires
            0 <= x <= x_max,
            0 <= y <= y_max,
    ;
}

} // verus!
