//! Properties that hold across the operations.
use vstd::prelude::*;
use crate::blend::{BlendMode, blend_channel_spec};
use crate::channel::{lemma_round_div_exact, lemma_round_div_is};
use crate::pixel::{
    Adjustment, Pixel, adjust_spec, composite_spec, cos_deg, luma_spec, mix_spec, over_alpha_spec,
    sin_deg, bhaskara_spec, brightness_delta, hue_row_spec, hue_r_spec, hue_g_spec, hue_b_spec,
};
use crate::ops::{adjust_seq, composite_seq};

verus! {

/// Every channel formula yields a value in `[0, 255]` on channel inputs, so
/// storing it back into a channel loses nothing.
pub proof fn lemma_formulas_in_range(mode: BlendMode, x: int, y: int, z: int)
    requires
        0 <= x <= 255,
        0 <= y <= 255,
        0 <= z <= 255,
    ensures
        0 <= blend_channel_spec(mode, x, y) <= 255,
        0 <= mix_spec(x, y, z) <= 255,
        0 <= over_alpha_spec(x, y) <= 255,
        0 <= luma_spec(x, y, z) <= 255,
{
}

/// The sine of 0 degrees is 0 and its cosine is 1.
pub proof fn lemma_trig_at_zero()
    ensures
        sin_deg(0) == 0,
        cos_deg(0) == 1000,
{
    lemma_round_div_is(0, 40500, 0);
    lemma_round_div_is(32400000, 32400, 1000);
    assert(sin_deg(0) == bhaskara_spec(0));
    assert(cos_deg(0) == bhaskara_spec(90));
}

/// Brightness and sepia with a parameter of zero leave a pixel as it is.
proof fn lemma_shifts_at_zero(px: Pixel)
    ensures
        adjust_spec(Adjustment::Brightness(0), px) == px,
        adjust_spec(Adjustment::Sepia(0), px) == px,
{
    lemma_round_div_is(0, 10000, 0);
    assert(brightness_delta(0) == 0);
}

/// Contrast with a parameter of zero leaves a pixel as it is.
proof fn lemma_contrast_at_zero(px: Pixel)
    ensures
        adjust_spec(Adjustment::Contrast(0), px) == px,
{
    lemma_round_div_exact(px.r - 128, 10000);
    lemma_round_div_exact(px.g - 128, 10000);
    lemma_round_div_exact(px.b - 128, 10000);
}

/// Saturation with a parameter of zero leaves a pixel as it is.
proof fn lemma_saturation_at_zero(px: Pixel)
    ensures
        adjust_spec(Adjustment::Saturation(0), px) == px,
{
    let l = luma_spec(px.r as int, px.g as int, px.b as int);
    lemma_round_div_exact(px.r - l, 10000);
    lemma_round_div_exact(px.g - l, 10000);
    lemma_round_div_exact(px.b - l, 10000);
}

/// A hue rotation of zero degrees leaves a pixel as it is.
proof fn lemma_hue_at_zero(px: Pixel)
    ensures
        adjust_spec(Adjustment::HueRotate(0), px) == px,
{
    let (r, g, b) = (px.r as int, px.g as int, px.b as int);
    lemma_trig_at_zero();
    lemma_round_div_exact(r, 1000000);
    lemma_round_div_exact(g, 1000000);
    lemma_round_div_exact(b, 1000000);
    assert(hue_row_spec(1000000, 0, 0, r, g, b) == r);
    assert(hue_row_spec(0, 1000000, 0, r, g, b) == g);
    assert(hue_row_spec(0, 0, 1000000, r, g, b) == b);
    assert(hue_r_spec(1000, 0, r, g, b) == r);
    assert(hue_g_spec(1000, 0, r, g, b) == g);
    assert(hue_b_spec(1000, 0, r, g, b) == b);
}

/// Contrast, brightness, saturation, hue rotation and sepia with a parameter
/// of zero each return the buffer unchanged.
pub proof fn lemma_identity_at_zero(s: Seq<Pixel>)
    ensures
        adjust_seq(s, Adjustment::Contrast(0)) == s,
        adjust_seq(s, Adjustment::Brightness(0)) == s,
        adjust_seq(s, Adjustment::Saturation(0)) == s,
        adjust_seq(s, Adjustment::HueRotate(0)) == s,
        adjust_seq(s, Adjustment::Sepia(0)) == s,
{
    assert forall|i: int| 0 <= i < s.len() implies adjust_spec(Adjustment::Contrast(0), s[i]) == s[i]
        && adjust_spec(Adjustment::Brightness(0), s[i]) == s[i]
        && adjust_spec(Adjustment::Saturation(0), s[i]) == s[i]
        && adjust_spec(Adjustment::HueRotate(0), s[i]) == s[i]
        && adjust_spec(Adjustment::Sepia(0), s[i]) == s[i] by {
        lemma_shifts_at_zero(s[i]);
        lemma_contrast_at_zero(s[i]);
        lemma_saturation_at_zero(s[i]);
        lemma_hue_at_zero(s[i]);
    }
    assert(adjust_seq(s, Adjustment::Contrast(0)) =~= s);
    assert(adjust_seq(s, Adjustment::Brightness(0)) =~= s);
    assert(adjust_seq(s, Adjustment::Saturation(0)) =~= s);
    assert(adjust_seq(s, Adjustment::HueRotate(0)) =~= s);
    assert(adjust_seq(s, Adjustment::Sepia(0)) =~= s);
}

/// A foreground pixel of alpha 0 leaves the background pixel as it is; one of
/// alpha 255 yields the mode's formula on each colour channel, fully opaque.
pub proof fn lemma_pixel_coverage(mode: BlendMode, fg: Pixel, bg: Pixel)
    ensures
        fg.a == 0 ==> composite_spec(mode, fg, bg) == bg,
        fg.a == 255 ==> {
            let out = composite_spec(mode, fg, bg);
            &&& out.r == blend_channel_spec(mode, fg.r as int, bg.r as int)
            &&& out.g == blend_channel_spec(mode, fg.g as int, bg.g as int)
            &&& out.b == blend_channel_spec(mode, fg.b as int, bg.b as int)
            &&& out.a == 255
        },
{
    if fg.a == 0 {
        lemma_round_div_exact(bg.r as int, 255);
        lemma_round_div_exact(bg.g as int, 255);
        lemma_round_div_exact(bg.b as int, 255);
        lemma_round_div_exact(bg.a as int, 255);
    }
    if fg.a == 255 {
        let (cr, cg, cb) = (
            blend_channel_spec(mode, fg.r as int, bg.r as int),
            blend_channel_spec(mode, fg.g as int, bg.g as int),
            blend_channel_spec(mode, fg.b as int, bg.b as int),
        );
        lemma_formulas_in_range(mode, fg.r as int, bg.r as int, 0);
        lemma_formulas_in_range(mode, fg.g as int, bg.g as int, 0);
        lemma_formulas_in_range(mode, fg.b as int, bg.b as int, 0);
        lemma_round_div_exact(cr, 255);
        lemma_round_div_exact(cg, 255);
        lemma_round_div_exact(cb, 255);
        lemma_round_div_exact(255, 255);
    }
}

/// Blending or compositing onto a buffer: where the foreground has alpha 0
/// the background pixel comes out unchanged, and where it has alpha 255 each
/// colour channel is the blend formula's result.
pub proof fn lemma_coverage(mode: BlendMode, fg: Seq<Pixel>, bg: Seq<Pixel>, i: int)
    requires
        fg.len() == bg.len(),
        0 <= i < bg.len(),
    ensures
        fg[i].a == 0 ==> composite_seq(mode, fg, bg)[i] == bg[i],
        fg[i].a == 255 ==> {
            let out = composite_seq(mode, fg, bg)[i];
            &&& out.r == blend_channel_spec(mode, fg[i].r as int, bg[i].r as int)
            &&& out.g == blend_channel_spec(mode, fg[i].g as int, bg[i].g as int)
            &&& out.b == blend_channel_spec(mode, fg[i].b as int, bg[i].b as int)
            &&& out.a == 255
        },
{
    lemma_pixel_coverage(mode, fg[i], bg[i]);
}

/// Whether brightening each colour channel of `s` by `p` stays within
/// `[0, 255]`, so that no channel is clamped.
pub open spec fn brightness_fits(s: Seq<Pixel>, p: int) -> bool {
    forall|i: int| 0 <= i < s.len() ==> {
        &&& 0 <= #[trigger] s[i].r + brightness_delta(p) <= 255
        &&& 0 <= s[i].g + brightness_delta(p) <= 255
        &&& 0 <= s[i].b + brightness_delta(p) <= 255
    }
}

/// A brightness of `-p` undoes a brightness of `p` exactly, wherever the first
/// clamps no channel.
pub proof fn lemma_brightness_sign_symmetry(s: Seq<Pixel>, p: i32)
    requires
        p > i32::MIN,
        brightness_fits(s, p as int),
    ensures
        adjust_seq(adjust_seq(s, Adjustment::Brightness(p)), Adjustment::Brightness((-p) as i32)) == s,
{
    assert(brightness_delta(-p) == -brightness_delta(p as int));
    let once = adjust_seq(s, Adjustment::Brightness(p));
    let twice = adjust_seq(once, Adjustment::Brightness((-p) as i32));
    assert forall|i: int| 0 <= i < s.len() implies twice[i] == s[i] by {
        assert(0 <= s[i].r + brightness_delta(p as int) <= 255);
    }
    assert(twice =~= s);
}

/// Grayscale leaves a gray pixel as it is.
proof fn lemma_gray_pixel_fixed(px: Pixel)
    ensures
        adjust_spec(Adjustment::Grayscale, adjust_spec(Adjustment::Grayscale, px))
            == adjust_spec(Adjustment::Grayscale, px),
{
    let l = luma_spec(px.r as int, px.g as int, px.b as int);
    lemma_formulas_in_range(BlendMode::Normal, px.r as int, px.g as int, px.b as int);
    assert(2126 * l + 7152 * l + 722 * l == l * 10000);
    lemma_round_div_exact(l, 10000);
}

/// Converting to grayscale twice gives what converting once gives.
pub proof fn lemma_grayscale_idempotent(s: Seq<Pixel>)
    ensures
        adjust_seq(adjust_seq(s, Adjustment::Grayscale), Adjustment::Grayscale)
            == adjust_seq(s, Adjustment::Grayscale),
{
    let once = adjust_seq(s, Adjustment::Grayscale);
    assert forall|i: int| 0 <= i < s.len() implies adjust_spec(Adjustment::Grayscale, once[i]) == once[i] by {
        lemma_gray_pixel_fixed(s[i]);
    }
    assert(adjust_seq(once, Adjustment::Grayscale) =~= once);
}

} // verus!
