//! Pixels and the operations on one pixel.
use vstd::prelude::*;
use crate::channel::{
    clamp255, round_div, round_clamp, clamp_channel, offset_round, lemma_mul_bound,
    lemma_round_div_exact,
};
use crate::blend::{BlendMode, blend_channel_spec, blend_channel};

verus! {

/// One RGBA pixel of 8-bit channels.
#[derive(Clone, Copy, Debug, PartialEq, Eq, Structural)]
pub struct Pixel {
    pub r: u8,
    pub g: u8,
    pub b: u8,
    pub a: u8,
}

/// A colour adjustment that reads one pixel at a time. Percentages are in
/// hundredths of a percent; the hue offset is in degrees.
#[derive(Clone, Copy, Debug, PartialEq, Eq, Structural)]
pub enum Adjustment {
    Brightness(i32),
    Contrast(i32),
    Saturation(i32),
    Sepia(i32),
    HueRotate(i32),
    Grayscale,
}

/// The shift that a brightness of `p` hundredths of a percent adds to a
/// channel: `p` percent of 255, rounded half away from zero, so that `-p`
/// shifts by exactly the opposite amount.
pub open spec fn brightness_delta(p: int) -> int {
    if p >= 0 {
        round_div(p * 255, 10000)
    } else {
        -round_div(-p * 255, 10000)
    }
}

pub open spec fn brighten_spec(c: int, p: int) -> int {
    clamp255(c + brightness_delta(p))
}

/// Scales the distance of `c` from the midpoint `m` by `1 + p / 10000`.
pub open spec fn scale_around_spec(c: int, m: int, p: int) -> int {
    clamp255(m + round_div((c - m) * (10000 + p), 10000))
}

/// Moves `c` towards `t` by `p / 10000` of the way.
pub open spec fn toward_spec(c: int, t: int, p: int) -> int {
    clamp255(c + round_div((t - c) * p, 10000))
}

/// Luma with the Rec. 709 weights.
pub open spec fn luma_spec(r: int, g: int, b: int) -> int {
    round_div(2126 * r + 7152 * g + 722 * b, 10000)
}

/// One row of a colour matrix whose weights are in thousandths.
pub open spec fn matrix_row_spec(wr: int, wg: int, wb: int, r: int, g: int, b: int) -> int {
    clamp255(round_div(wr * r + wg * g + wb * b, 1000))
}

pub open spec fn sepia_r_spec(r: int, g: int, b: int) -> int {
    matrix_row_spec(393, 769, 189, r, g, b)
}

pub open spec fn sepia_g_spec(r: int, g: int, b: int) -> int {
    matrix_row_spec(349, 686, 168, r, g, b)
}

pub open spec fn sepia_b_spec(r: int, g: int, b: int) -> int {
    matrix_row_spec(272, 534, 131, r, g, b)
}

/// Bhaskara's rational approximation of the sine of `x` degrees, `0 <= x <= 180`,
/// in thousandths.
pub open spec fn bhaskara_spec(x: int) -> int {
    round_div(4000 * (x * (180 - x)), 40500 - x * (180 - x))
}

/// The sine of `d` degrees, in thousandths.
pub open spec fn sin_deg(d: int) -> int {
    let m = d % 360;
    if m <= 180 {
        bhaskara_spec(m)
    } else {
        -bhaskara_spec(m - 180)
    }
}

/// The cosine of `d` degrees, in thousandths.
pub open spec fn cos_deg(d: int) -> int {
    sin_deg(d + 90)
}

/// One row of the luminance-preserving hue rotation matrix, with cosine `c`
/// and sine `s` in thousandths: a weighted sum whose weights are in millionths.
pub open spec fn hue_row_spec(wr: int, wg: int, wb: int, r: int, g: int, b: int) -> int {
    clamp255(round_div(wr * r + wg * g + wb * b, 1000000))
}

pub open spec fn hue_r_spec(c: int, s: int, r: int, g: int, b: int) -> int {
    hue_row_spec(213000 + 787 * c - 213 * s, 715000 - 715 * c - 715 * s, 72000 - 72 * c + 928 * s, r, g, b)
}

pub open spec fn hue_g_spec(c: int, s: int, r: int, g: int, b: int) -> int {
    hue_row_spec(213000 - 213 * c + 143 * s, 715000 + 285 * c + 140 * s, 72000 - 72 * c - 283 * s, r, g, b)
}

pub open spec fn hue_b_spec(c: int, s: int, r: int, g: int, b: int) -> int {
    hue_row_spec(213000 - 213 * c - 787 * s, 715000 - 715 * c + 715 * s, 72000 + 928 * c + 72 * s, r, g, b)
}

/// What an adjustment makes of one pixel; alpha always passes through.
pub open spec fn adjust_spec(adj: Adjustment, px: Pixel) -> Pixel {
    let (r, g, b) = (px.r as int, px.g as int, px.b as int);
    match adj {
        Adjustment::Brightness(p) => Pixel {
            r: brighten_spec(r, p as int) as u8,
            g: brighten_spec(g, p as int) as u8,
            b: brighten_spec(b, p as int) as u8,
            a: px.a,
        },
        Adjustment::Contrast(p) => Pixel {
            r: scale_around_spec(r, 128, p as int) as u8,
            g: scale_around_spec(g, 128, p as int) as u8,
            b: scale_around_spec(b, 128, p as int) as u8,
            a: px.a,
        },
        Adjustment::Saturation(p) => {
            let l = luma_spec(r, g, b);
            Pixel {
                r: scale_around_spec(r, l, p as int) as u8,
                g: scale_around_spec(g, l, p as int) as u8,
                b: scale_around_spec(b, l, p as int) as u8,
                a: px.a,
            }
        },
        Adjustment::Sepia(p) => Pixel {
            r: toward_spec(r, sepia_r_spec(r, g, b), p as int) as u8,
            g: toward_spec(g, sepia_g_spec(r, g, b), p as int) as u8,
            b: toward_spec(b, sepia_b_spec(r, g, b), p as int) as u8,
            a: px.a,
        },
        Adjustment::HueRotate(d) => {
            let (c, s) = (cos_deg(d as int), sin_deg(d as int));
            Pixel {
                r: hue_r_spec(c, s, r, g, b) as u8,
                g: hue_g_spec(c, s, r, g, b) as u8,
                b: hue_b_spec(c, s, r, g, b) as u8,
                a: px.a,
            }
        },
        Adjustment::Grayscale => {
            let l = luma_spec(r, g, b) as u8;
            Pixel { r: l, g: l, b: l, a: px.a }
        },
    }
}

/// `c` weighted by the coverage `a` against `b` weighted by `255 - a`.
pub open spec fn mix_spec(c: int, b: int, a: int) -> int {
    clamp255(round_div(c * a + b * (255 - a), 255))
}

/// Source-over alpha: `fa + ba * (1 - fa)`.
pub open spec fn over_alpha_spec(fa: int, ba: int) -> int {
    clamp255(round_div(fa * 255 + ba * (255 - fa), 255))
}

/// A foreground pixel blended onto a background pixel: the mode's formula on
/// each colour channel, weighted back towards the background by the
/// foreground's alpha, and source-over alpha.
pub open spec fn composite_spec(mode: BlendMode, fg: Pixel, bg: Pixel) -> Pixel {
    Pixel {
        r: mix_spec(blend_channel_spec(mode, fg.r as int, bg.r as int), bg.r as int, fg.a as int) as u8,
        g: mix_spec(blend_channel_spec(mode, fg.g as int, bg.g as int), bg.g as int, fg.a as int) as u8,
        b: mix_spec(blend_channel_spec(mode, fg.b as int, bg.b as int), bg.b as int, fg.a as int) as u8,
        a: over_alpha_spec(fg.a as int, bg.a as int) as u8,
    }
}

/// Bounds a product of two integers by the bounds of its factors.
pub proof fn lemma_mul_abs_bound(x: int, y: int, x_max: int, y_max: int)
    requires
        -x_max <= x <= x_max,
        -y_max <= y <= y_max,
    ensures
        -(x_max * y_max) <= x * y <= x_max * y_max,
{
    assert(-(x_max * y_max) <= x * y <= x_max * y_max) by (nonlinear_arith)
        requires
            -x_max <= x <= x_max,
            -y_max <= y <= y_max,
    ;
}

pub fn brightness_delta_of(p: i32) -> (d: i64)
    ensures
        d == brightness_delta(p as int),
        -60_000_000 <= d <= 60_000_000,
{
    let p = p as i64;
    if p >= 0 {
        (2 * (p * 255) + 10000) / 20000
    } else {
        -((2 * (-p * 255) + 10000) / 20000)
    }
}

pub fn scale_around(c: u8, m: i64, p: i32) -> (r: u8)
    requires
        0 <= m <= 255,
    ensures
        r == scale_around_spec(c as int, m as int, p as int),
{
    let d = c as i64 - m;
    let k = 10000 + p as i64;
    proof {
        lemma_mul_abs_bound(d as int, k as int, 255, 0x1_0000_0000);
    }
    offset_round(m, d * k)
}

pub fn toward(c: u8, t: u8, p: i32) -> (r: u8)
    ensures
        r == toward_spec(c as int, t as int, p as int),
{
    let d = t as i64 - c as i64;
    proof {
        lemma_mul_abs_bound(d as int, p as int, 255, 0x1_0000_0000);
    }
    offset_round(c as i64, d * p as i64)
}

pub fn luma(r: u8, g: u8, b: u8) -> (l: u8)
    ensures
        l == luma_spec(r as int, g as int, b as int),
{
    let sum: u32 = 2126 * r as u32 + 7152 * g as u32 + 722 * b as u32;
    ((2 * sum + 10000) / 20000) as u8
}

pub fn matrix_row(wr: i64, wg: i64, wb: i64, r: u8, g: u8, b: u8) -> (v: u8)
    requires
        0 <= wr <= 1000,
        0 <= wg <= 1000,
        0 <= wb <= 1000,
    ensures
        v == matrix_row_spec(wr as int, wg as int, wb as int, r as int, g as int, b as int),
{
    proof {
        lemma_mul_bound(wr as int, r as int, 1000, 255);
        lemma_mul_bound(wg as int, g as int, 1000, 255);
        lemma_mul_bound(wb as int, b as int, 1000, 255);
    }
    round_clamp(wr * r as i64 + wg * g as i64 + wb * b as i64, 1000)
}

pub fn bhaskara(x: i64) -> (s: i64)
    requires
        0 <= x <= 180,
    ensures
        s == bhaskara_spec(x as int),
        0 <= s <= 1000,
{
    proof {
        lemma_mul_bound(x as int, (180 - x) as int, 180, 180);
    }
    let q = x * (180 - x);
    assert(q <= 8100) by (nonlinear_arith)
        requires
            q == x * (180 - x),
            0 <= x <= 180,
    ;
    let num = 4000 * q;
    let den = 40500 - q;
    assert(0 <= (2 * num + den) / (2 * den) <= 1000) by (nonlinear_arith)
        requires
            num == 4000 * q,
            den == 40500 - q,
            0 <= q <= 8100,
    ;
    (2 * num + den) / (2 * den)
}

/// `d % 360` as a Euclidean remainder.
pub fn degrees_mod(d: i64) -> (m: i64)
    ensures
        m == (d as int) % 360,
        0 <= m < 360,
{
    if d >= 0 {
        (d as u64 % 360) as i64
    } else {
        let k: u64 = ((-(d as i128)) as u64) % 360;
        assert((d as int) % 360 == if k == 0 { 0 } else { 360 - k }) by (nonlinear_arith)
            requires
                d < 0,
                k == (-(d as int)) % 360,
        ;
        if k == 0 {
            0
        } else {
            360 - k as i64
        }
    }
}

pub fn sin_of(d: i64) -> (s: i64)
    ensures
        s == sin_deg(d as int),
        -1000 <= s <= 1000,
{
    let m = degrees_mod(d);
    if m <= 180 {
        bhaskara(m)
    } else {
        -bhaskara(m - 180)
    }
}

pub fn hue_row(wr: i64, wg: i64, wb: i64, r: u8, g: u8, b: u8) -> (v: u8)
    requires
        -3_000_000 <= wr <= 3_000_000,
        -3_000_000 <= wg <= 3_000_000,
        -3_000_000 <= wb <= 3_000_000,
    ensures
        v == hue_row_spec(wr as int, wg as int, wb as int, r as int, g as int, b as int),
{
    proof {
        lemma_mul_abs_bound(wr as int, r as int, 3_000_000, 255);
        lemma_mul_abs_bound(wg as int, g as int, 3_000_000, 255);
        lemma_mul_abs_bound(wb as int, b as int, 3_000_000, 255);
    }
    round_clamp(wr * r as i64 + wg * g as i64 + wb * b as i64, 1000000)
}

pub fn adjust_pixel(adj: Adjustment, px: Pixel) -> (out: Pixel)
    ensures
        out == adjust_spec(adj, px),
{
    match adj {
        Adjustment::Brightness(p) => {
            let d = brightness_delta_of(p);
            Pixel {
                r: clamp_channel(px.r as i64 + d),
                g: clamp_channel(px.g as i64 + d),
                b: clamp_channel(px.b as i64 + d),
                a: px.a,
            }
        },
        Adjustment::Contrast(p) => Pixel {
            r: scale_around(px.r, 128, p),
            g: scale_around(px.g, 128, p),
            b: scale_around(px.b, 128, p),
            a: px.a,
        },
        Adjustment::Saturation(p) => {
            let l = luma(px.r, px.g, px.b) as i64;
            Pixel {
                r: scale_around(px.r, l, p),
                g: scale_around(px.g, l, p),
                b: scale_around(px.b, l, p),
                a: px.a,
            }
        },
        Adjustment::Sepia(p) => {
            let tr = matrix_row(393, 769, 189, px.r, px.g, px.b);
            let tg = matrix_row(349, 686, 168, px.r, px.g, px.b);
            let tb = matrix_row(272, 534, 131, px.r, px.g, px.b);
            Pixel { r: toward(px.r, tr, p), g: toward(px.g, tg, p), b: toward(px.b, tb, p), a: px.a }
        },
        Adjustment::HueRotate(d) => {
            let c = sin_of(d as i64 + 90);
            let s = sin_of(d as i64);
            Pixel {
                r: hue_row(213000 + 787 * c - 213 * s, 715000 - 715 * c - 715 * s, 72000 - 72 * c + 928 * s, px.r, px.g, px.b),
                g: hue_row(213000 - 213 * c + 143 * s, 715000 + 285 * c + 140 * s, 72000 - 72 * c - 283 * s, px.r, px.g, px.b),
                b: hue_row(213000 - 213 * c - 787 * s, 715000 - 715 * c + 715 * s, 72000 + 928 * c + 72 * s, px.r, px.g, px.b),
                a: px.a,
            }
        },
        Adjustment::Grayscale => {
            let l = luma(px.r, px.g, px.b);
            Pixel { r: l, g: l, b: l, a: px.a }
        },
    }
}

pub fn mix(c: u8, b: u8, a: u8) -> (v: u8)
    ensures
        v == mix_spec(c as int, b as int, a as int),
{
    proof {
        lemma_mul_bound(c as int, a as int, 255, 255);
        lemma_mul_bound(b as int, (255 - a) as int, 255, 255);
    }
    round_clamp(c as i64 * a as i64 + b as i64 * (255 - a as i64), 255)
}

pub fn over_alpha(fa: u8, ba: u8) -> (v: u8)
    ensures
        v == over_alpha_spec(fa as int, ba as int),
{
    proof {
        lemma_mul_bound(ba as int, (255 - fa) as int, 255, 255);
    }
    round_clamp(fa as i64 * 255 + ba as i64 * (255 - fa as i64), 255)
}

pub fn composite_pixel(mode: BlendMode, fg: Pixel, bg: Pixel) -> (out: Pixel)
    ensures
        out == composite_spec(mode, fg, bg),
{
    Pixel {
        r: mix(blend_channel(mode, fg.r, bg.r), bg.r, fg.a),
        g: mix(blend_channel(mode, fg.g, bg.g), bg.g, fg.a),
        b: mix(blend_channel(mode, fg.b, bg.b), bg.b, fg.a),
        a: over_alpha(fg.a, bg.a),
    }
}

} // verus!
