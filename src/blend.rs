//! Per-channel blend formulas, one for each blend mode.
//!
//! `f` is the foreground channel and `b` the background channel, both in
//! `[0, 255]`; the formulas are the usual ones on `[0, 1]`, scaled by 255.
use vstd::prelude::*;
use crate::channel::{clamp255, round_div, round_clamp, lemma_mul_bound};

verus! {

/// The closed set of blend modes.
#[derive(Clone, Copy, Debug, PartialEq, Eq, Structural)]
pub enum BlendMode {
    /// The foreground colour itself: plain source-over compositing.
    Normal,
    /// `1 - (1 - f)(1 - b)`.
    Screen,
    /// `f * b`.
    Multiply,
    /// `b < 0.5 ? 2fb : 1 - 2(1 - f)(1 - b)`.
    Overlay,
    /// A soft light that is piecewise in `b` and continuous at `b = 0.5`.
    SoftLight,
    /// `min(f, b)`.
    Darken,
    /// `max(f, b)`.
    Lighten,
    /// `f = 1 ? 1 : min(1, b / (1 - f))`.
    ColorDodge,
    /// `f + b - 2fb`.
    Exclusion,
}

pub open spec fn screen_spec(f: int, b: int) -> int {
    clamp255(round_div(255 * 255 - (255 - f) * (255 - b), 255))
}

pub open spec fn multiply_spec(f: int, b: int) -> int {
    clamp255(round_div(f * b, 255))
}

pub open spec fn overlay_spec(f: int, b: int) -> int {
    if b < 128 {
        clamp255(round_div(2 * f * b, 255))
    } else {
        clamp255(round_div(255 * 255 - 2 * (255 - f) * (255 - b), 255))
    }
}

/// Below the midpoint `2fb + f^2(1 - 2b)`; above it `2f(1 - b) + g(f)(2b - 1)`,
/// where `g(f) = f(2 - f)` stands in for the square root of `f`. Both halves
/// give `f` at `b = 0.5`.
pub open spec fn soft_light_spec(f: int, b: int) -> int {
    if b < 128 {
        clamp255(round_div(2 * f * b * 255 + f * f * (255 - 2 * b), 65025))
    } else {
        clamp255(round_div(2 * f * (255 - b) * 255 + f * (510 - f) * (2 * b - 255), 65025))
    }
}

pub open spec fn darken_spec(f: int, b: int) -> int {
    if f <= b {
        f
    } else {
        b
    }
}

pub open spec fn lighten_spec(f: int, b: int) -> int {
    if f >= b {
        f
    } else {
        b
    }
}

pub open spec fn color_dodge_spec(f: int, b: int) -> int {
    if f >= 255 {
        255
    } else {
        clamp255(round_div(b * 255, 255 - f))
    }
}

pub open spec fn exclusion_spec(f: int, b: int) -> int {
    clamp255(round_div(255 * (f + b) - 2 * f * b, 255))
}

/// The colour formula of a blend mode, on one channel.
pub open spec fn blend_channel_spec(mode: BlendMode, f: int, b: int) -> int {
    match mode {
        BlendMode::Normal => f,
        BlendMode::Screen => screen_spec(f, b),
        BlendMode::Multiply => multiply_spec(f, b),
        BlendMode::Overlay => overlay_spec(f, b),
        BlendMode::SoftLight => soft_light_spec(f, b),
        BlendMode::Darken => darken_spec(f, b),
        BlendMode::Lighten => lighten_spec(f, b),
        BlendMode::ColorDodge => color_dodge_spec(f, b),
        BlendMode::Exclusion => exclusion_spec(f, b),
    }
}

pub fn screen(f: u8, b: u8) -> (r: u8)
    ensures
        r == screen_spec(f as int, b as int),
{
    let nf = 255 - f as i64;
    let nb = 255 - b as i64;
    proof {
        lemma_mul_bound(nf as int, nb as int, 255, 255);
    }
    round_clamp(255 * 255 - nf * nb, 255)
}

pub fn multiply(f: u8, b: u8) -> (r: u8)
    ensures
        r == multiply_spec(f as int, b as int),
{
    let f = f as i64;
    let b = b as i64;
    proof {
        lemma_mul_bound(f as int, b as int, 255, 255);
    }
    round_clamp(f * b, 255)
}

pub fn overlay(f: u8, b: u8) -> (r: u8)
    ensures
        r == overlay_spec(f as int, b as int),
{
    let f = f as i64;
    let b = b as i64;
    if b < 128 {
        proof {
            lemma_mul_bound(2 * f as int, b as int, 510, 255);
        }
        round_clamp(2 * f * b, 255)
    } else {
        proof {
            lemma_mul_bound(2 * (255 - f) as int, (255 - b) as int, 510, 255);
        }
        round_clamp(255 * 255 - 2 * (255 - f) * (255 - b), 255)
    }
}

pub fn soft_light(f: u8, b: u8) -> (r: u8)
    ensures
        r == soft_light_spec(f as int, b as int),
{
    let f = f as i64;
    let b = b as i64;
    proof {
        lemma_mul_bound(f as int, f as int, 255, 255);
        lemma_mul_bound(2 * f as int, b as int, 510, 255);
        lemma_mul_bound(2 * f as int, (255 - b) as int, 510, 255);
        lemma_mul_bound(f as int, (510 - f) as int, 255, 510);
    }
    if b < 128 {
        proof {
            lemma_mul_bound(2 * f * b, 255, 130050, 255);
            lemma_mul_bound(f * f, (255 - 2 * b) as int, 65025, 255);
        }
        round_clamp(2 * f * b * 255 + f * f * (255 - 2 * b), 65025)
    } else {
        proof {
            lemma_mul_bound(2 * f * (255 - b), 255, 130050, 255);
            lemma_mul_bound(f * (510 - f), (2 * b - 255) as int, 130050, 255);
        }
        round_clamp(2 * f * (255 - b) * 255 + f * (510 - f) * (2 * b - 255), 65025)
    }
}

pub fn darken(f: u8, b: u8) -> (r: u8)
    ensures
        r == darken_spec(f as int, b as int),
{
    if f <= b {
        f
    } else {
        b
    }
}

pub fn lighten(f: u8, b: u8) -> (r: u8)
    ensures
        r == lighten_spec(f as int, b as int),
{
    if f >= b {
        f
    } else {
        b
    }
}

pub fn color_dodge(f: u8, b: u8) -> (r: u8)
    ensures
        r == color_dodge_spec(f as int, b as int),
{
    if f == 255 {
        255
    } else {
        round_clamp(b as i64 * 255, 255 - f as i64)
    }
}

pub fn exclusion(f: u8, b: u8) -> (r: u8)
    ensures
        r == exclusion_spec(f as int, b as int),
{
    let f = f as i64;
    let b = b as i64;
    proof {
        lemma_mul_bound(2 * f as int, b as int, 510, 255);
    }
    round_clamp(255 * (f + b) - 2 * f * b, 255)
}

/// Dispatches a blend mode to its formula.
pub fn blend_channel(mode: BlendMode, f: u8, b: u8) -> (r: u8)
    ensures
        r == blend_channel_spec(mode, f as int, b as int),
{
    match mode {
        BlendMode::Normal => f,
        BlendMode::Screen => screen(f, b),
        BlendMode::Multiply => multiply(f, b),
        BlendMode::Overlay => overlay(f, b),
        BlendMode::SoftLight => soft_light(f, b),
        BlendMode::Darken => darken(f, b),
        BlendMode::Lighten => lighten(f, b),
        BlendMode::ColorDodge => color_dodge(f, b),
        BlendMode::Exclusion => exclusion(f, b),
    }
}

} // verus!
