//! The filter catalogue: each filter is a fixed sequence of buffer
//! operations. Percentages are in hundredths of a percent.
use vstd::prelude::*;
use crate::blend::BlendMode;
use crate::buffer::Image;
use crate::pixel::{Adjustment, Pixel};
use crate::ops::{
    adjust_seq, composite_seq, solid_seq, restore_seq, fill_with_channels, contrast,
    brighten_by_percent, saturate, sepia, huerotate, grayscale, blend_screen, blend_multiply,
    blend_overlay, blend_soft_light, blend_darken, blend_lighten, blend_color_dodge,
    blend_exclusion, over, restore_transparency,
};

verus! {

/// All available image filters.
#[derive(Clone, Copy, Debug, PartialEq, Eq, Structural)]
pub enum FilterType {
    /// The `1977` filter.
    NineTeenSeventySeven,
    /// The `aden` filter.
    Aden,
    /// The `brannan` filter.
    Brannan,
    /// The `brooklyn` filter.
    Brooklyn,
    /// The `clarendon` filter.
    Clarendon,
    /// The `earlybird` filter.
    Earlybird,
    /// The `gingham` filter.
    Gingham,
    /// The `hudson` filter.
    Hudson,
    /// The `inkwell` filter.
    Inkwell,
    /// The `kelvin` filter.
    Kelvin,
    /// The `lark` filter.
    Lark,
    /// The `lofi` filter.
    Lofi,
    /// The `maven` filter.
    Maven,
    /// The `mayfair` filter.
    Mayfair,
    /// The `moon` filter.
    Moon,
    /// The `nashville` filter.
    Nashville,
    /// The `reyes` filter.
    Reyes,
    /// The `rise` filter.
    Rise,
    /// The `slumber` filter.
    Slumber,
    /// The `stinson` filter.
    Stinson,
    /// The `toaster` filter.
    Toaster,
    /// The `valencia` filter.
    Valencia,
    /// The `walden` filter.
    Walden,
}

/// Applies a filter.
pub trait RustagramFilter: Sized {
    /// Whether a filter can be applied to this value.
    spec fn filterable(&self) -> bool;

    /// Whether `out` is this value with the filter `ft` applied.
    spec fn filtered_as(&self, ft: FilterType, out: &Self) -> bool;

    /// Applies the given filter to an image.
    fn apply_filter(&self, ft: FilterType) -> (out: Self)
        requires
            self.filterable(),
        ensures
            self.filtered_as(ft, &out),
    ;
}

/// A buffer of the size of `s` that holds one colour.
pub open spec fn solid_of(s: Seq<Pixel>, r: u8, g: u8, b: u8, a: u8) -> Seq<Pixel> {
    solid_seq(s.len(), Pixel { r, g, b, a })
}

/// The pixels that the `1977` filter makes of `s`.
pub open spec fn f1977_spec(s: Seq<Pixel>) -> Seq<Pixel> {
    let c_ = adjust_seq(s, Adjustment::Contrast(1000i32));
    let b_ = adjust_seq(c_, Adjustment::Brightness(1000i32));
    let s_ = adjust_seq(b_, Adjustment::Saturation(3000i32));
    let f_ = solid_of(s, 243, 106, 188, 76);
    composite_seq(BlendMode::Screen, s_, f_)
}

/// The pixels that the `aden` filter makes of `s`.
pub open spec fn aden_spec(s: Seq<Pixel>) -> Seq<Pixel> {
    let h_ = adjust_seq(s, Adjustment::HueRotate(-20i32));
    let c_ = adjust_seq(h_, Adjustment::Contrast(-1000i32));
    let s_ = adjust_seq(c_, Adjustment::Saturation(-2000i32));
    let b_ = adjust_seq(s_, Adjustment::Brightness(2000i32));
    restore_seq(s, b_)
}

/// The pixels that the `brannan` filter makes of `s`.
pub open spec fn brannan_spec(s: Seq<Pixel>) -> Seq<Pixel> {
    let p_ = adjust_seq(s, Adjustment::Sepia(2000i32));
    let c_ = adjust_seq(p_, Adjustment::Contrast(2000i32));
    let f_ = solid_of(s, 161, 44, 199, 59);
    composite_seq(BlendMode::Lighten, f_, c_)
}

/// The pixels that the `brooklyn` filter makes of `s`.
pub open spec fn brooklyn_spec(s: Seq<Pixel>) -> Seq<Pixel> {
    let c_ = adjust_seq(s, Adjustment::Contrast(-1000i32));
    let b_ = adjust_seq(c_, Adjustment::Brightness(1000i32));
    let f_ = solid_of(s, 168, 223, 193, 150);
    let k_ = restore_seq(s, b_);
    composite_seq(BlendMode::Overlay, f_, k_)
}

/// The pixels that the `clarendon` filter makes of `s`.
pub open spec fn clarendon_spec(s: Seq<Pixel>) -> Seq<Pixel> {
    let c_ = adjust_seq(s, Adjustment::Contrast(2000i32));
    let s_ = adjust_seq(c_, Adjustment::Saturation(3500i32));
    let f_ = solid_of(s, 127, 187, 227, 101);
    composite_seq(BlendMode::Overlay, f_, s_)
}

/// The pixels that the `earlybird` filter makes of `s`.
pub open spec fn earlybird_spec(s: Seq<Pixel>) -> Seq<Pixel> {
    let c_ = adjust_seq(s, Adjustment::Contrast(-1000i32));
    let p_ = adjust_seq(c_, Adjustment::Sepia(500i32));
    let f_ = solid_of(s, 208, 186, 142, 150);
    let v_ = composite_seq(BlendMode::Overlay, p_, f_);
    restore_seq(s, v_)
}

/// The pixels that the `gingham` filter makes of `s`.
pub open spec fn gingham_spec(s: Seq<Pixel>) -> Seq<Pixel> {
    let b_ = adjust_seq(s, Adjustment::Brightness(500i32));
    let h_ = adjust_seq(b_, Adjustment::HueRotate(-10i32));
    let f_ = solid_of(s, 230, 230, 230, 255);
    composite_seq(BlendMode::SoftLight, f_, h_)
}

/// The pixels that the `hudson` filter makes of `s`.
pub open spec fn hudson_spec(s: Seq<Pixel>) -> Seq<Pixel> {
    let b_ = adjust_seq(s, Adjustment::Brightness(5000i32));
    let c_ = adjust_seq(b_, Adjustment::Contrast(-1000i32));
    let s_ = adjust_seq(c_, Adjustment::Saturation(1000i32));
    let f_ = solid_of(s, 166, 177, 255, 208);
    let m_ = composite_seq(BlendMode::Multiply, f_, s_);
    restore_seq(s, m_)
}

/// The pixels that the `inkwell` filter makes of `s`.
pub open spec fn inkwell_spec(s: Seq<Pixel>) -> Seq<Pixel> {
    let p_ = adjust_seq(s, Adjustment::Sepia(3000i32));
    let c_ = adjust_seq(p_, Adjustment::Contrast(1000i32));
    let b_ = adjust_seq(c_, Adjustment::Brightness(1000i32));
    adjust_seq(b_, Adjustment::Grayscale)
}

/// The pixels that the `kelvin` filter makes of `s`.
pub open spec fn kelvin_spec(s: Seq<Pixel>) -> Seq<Pixel> {
    let f_ = solid_of(s, 56, 44, 52, 255);
    let d_ = composite_seq(BlendMode::ColorDodge, s, f_);
    let g_ = solid_of(s, 183, 125, 33, 255);
    composite_seq(BlendMode::Overlay, g_, d_)
}

/// The pixels that the `lark` filter makes of `s`.
pub open spec fn lark_spec(s: Seq<Pixel>) -> Seq<Pixel> {
    let c_ = adjust_seq(s, Adjustment::Contrast(-1000i32));
    let f_ = solid_of(s, 34, 37, 63, 255);
    let d_ = composite_seq(BlendMode::ColorDodge, c_, f_);
    let g_ = solid_of(s, 242, 242, 242, 204);
    composite_seq(BlendMode::Darken, g_, d_)
}

/// The pixels that the `lofi` filter makes of `s`.
pub open spec fn lofi_spec(s: Seq<Pixel>) -> Seq<Pixel> {
    let s_ = adjust_seq(s, Adjustment::Saturation(1000i32));
    adjust_seq(s_, Adjustment::Contrast(5000i32))
}

/// The pixels that the `maven` filter makes of `s`.
pub open spec fn maven_spec(s: Seq<Pixel>) -> Seq<Pixel> {
    let p_ = adjust_seq(s, Adjustment::Sepia(2500i32));
    let b_ = adjust_seq(p_, Adjustment::Brightness(-5i32));
    let c_ = adjust_seq(b_, Adjustment::Contrast(-5i32));
    adjust_seq(c_, Adjustment::Saturation(5000i32))
}

/// The pixels that the `mayfair` filter makes of `s`.
pub open spec fn mayfair_spec(s: Seq<Pixel>) -> Seq<Pixel> {
    let c_ = adjust_seq(s, Adjustment::Contrast(1000i32));
    let s_ = adjust_seq(c_, Adjustment::Saturation(1000i32));
    let f_ = solid_of(s, 255, 200, 200, 153);
    composite_seq(BlendMode::Overlay, f_, s_)
}

/// The pixels that the `moon` filter makes of `s`.
pub open spec fn moon_spec(s: Seq<Pixel>) -> Seq<Pixel> {
    let c_ = adjust_seq(s, Adjustment::Contrast(1000i32));
    let b_ = adjust_seq(c_, Adjustment::Brightness(1000i32));
    let f_ = solid_of(s, 160, 160, 160, 255);
    let l_ = composite_seq(BlendMode::SoftLight, f_, b_);
    let g_ = solid_of(s, 56, 56, 56, 255);
    let t_ = composite_seq(BlendMode::Lighten, g_, l_);
    adjust_seq(t_, Adjustment::Grayscale)
}

/// The pixels that the `nashville` filter makes of `s`.
pub open spec fn nashville_spec(s: Seq<Pixel>) -> Seq<Pixel> {
    let p_ = adjust_seq(s, Adjustment::Sepia(200i32));
    let c_ = adjust_seq(p_, Adjustment::Contrast(2000i32));
    let b_ = adjust_seq(c_, Adjustment::Brightness(500i32));
    let s_ = adjust_seq(b_, Adjustment::Saturation(2000i32));
    let f_ = solid_of(s, 247, 176, 153, 243);
    let d_ = composite_seq(BlendMode::Darken, f_, s_);
    let g_ = solid_of(s, 0, 70, 150, 230);
    composite_seq(BlendMode::Lighten, g_, d_)
}

/// The pixels that the `reyes` filter makes of `s`.
pub open spec fn reyes_spec(s: Seq<Pixel>) -> Seq<Pixel> {
    let p_ = adjust_seq(s, Adjustment::Sepia(2200i32));
    let b_ = adjust_seq(p_, Adjustment::Brightness(1000i32));
    let c_ = adjust_seq(b_, Adjustment::Contrast(-1500i32));
    let s_ = adjust_seq(c_, Adjustment::Saturation(-2500i32));
    let f_ = solid_of(s, 239, 205, 173, 10);
    composite_seq(BlendMode::Normal, f_, s_)
}

/// The pixels that the `rise` filter makes of `s`.
pub open spec fn rise_spec(s: Seq<Pixel>) -> Seq<Pixel> {
    let b_ = adjust_seq(s, Adjustment::Brightness(500i32));
    let p_ = adjust_seq(b_, Adjustment::Sepia(500i32));
    let c_ = adjust_seq(p_, Adjustment::Contrast(-1000i32));
    let s_ = adjust_seq(c_, Adjustment::Saturation(-1000i32));
    let f_ = solid_of(s, 236, 205, 169, 240);
    let m_ = composite_seq(BlendMode::Multiply, f_, s_);
    let g_ = solid_of(s, 232, 197, 152, 10);
    let v_ = composite_seq(BlendMode::Overlay, g_, m_);
    composite_seq(BlendMode::Normal, v_, s)
}

/// The pixels that the `slumber` filter makes of `s`.
pub open spec fn slumber_spec(s: Seq<Pixel>) -> Seq<Pixel> {
    let s_ = adjust_seq(s, Adjustment::Saturation(-3400i32));
    let b_ = adjust_seq(s_, Adjustment::Brightness(500i32));
    let f_ = solid_of(s, 69, 41, 12, 102);
    let l_ = composite_seq(BlendMode::Lighten, f_, b_);
    let g_ = solid_of(s, 125, 105, 24, 128);
    composite_seq(BlendMode::SoftLight, g_, l_)
}

/// The pixels that the `stinson` filter makes of `s`.
pub open spec fn stinson_spec(s: Seq<Pixel>) -> Seq<Pixel> {
    let c_ = adjust_seq(s, Adjustment::Contrast(-2500i32));
    let s_ = adjust_seq(c_, Adjustment::Saturation(-1500i32));
    let b_ = adjust_seq(s_, Adjustment::Brightness(1500i32));
    let f_ = solid_of(s, 240, 149, 128, 51);
    composite_seq(BlendMode::SoftLight, f_, b_)
}

/// The pixels that the `toaster` filter makes of `s`.
pub open spec fn toaster_spec(s: Seq<Pixel>) -> Seq<Pixel> {
    let c_ = adjust_seq(s, Adjustment::Contrast(2000i32));
    let b_ = adjust_seq(c_, Adjustment::Brightness(-1000i32));
    let f_ = solid_of(s, 128, 78, 15, 140);
    composite_seq(BlendMode::Screen, f_, b_)
}

/// The pixels that the `valencia` filter makes of `s`.
pub open spec fn valencia_spec(s: Seq<Pixel>) -> Seq<Pixel> {
    let c_ = adjust_seq(s, Adjustment::Contrast(800i32));
    let b_ = adjust_seq(c_, Adjustment::Brightness(800i32));
    let p_ = adjust_seq(b_, Adjustment::Sepia(800i32));
    let f_ = solid_of(s, 58, 3, 57, 128);
    composite_seq(BlendMode::Exclusion, f_, p_)
}

/// The pixels that the `walden` filter makes of `s`.
pub open spec fn walden_spec(s: Seq<Pixel>) -> Seq<Pixel> {
    let b_ = adjust_seq(s, Adjustment::Brightness(1000i32));
    let h_ = adjust_seq(b_, Adjustment::HueRotate(-10i32));
    let s_ = adjust_seq(h_, Adjustment::Saturation(6000i32));
    let p_ = adjust_seq(s_, Adjustment::Sepia(500i32));
    let f_ = solid_of(s, 0, 88, 244, 77);
    composite_seq(BlendMode::Screen, f_, p_)
}

/// The pixels that filter `ft` makes of `s`.
pub open spec fn filter_spec(ft: FilterType, s: Seq<Pixel>) -> Seq<Pixel> {
    match ft {
        FilterType::NineTeenSeventySeven => f1977_spec(s),
        FilterType::Aden => aden_spec(s),
        FilterType::Brannan => brannan_spec(s),
        FilterType::Brooklyn => brooklyn_spec(s),
        FilterType::Clarendon => clarendon_spec(s),
        FilterType::Earlybird => earlybird_spec(s),
        FilterType::Gingham => gingham_spec(s),
        FilterType::Hudson => hudson_spec(s),
        FilterType::Inkwell => inkwell_spec(s),
        FilterType::Kelvin => kelvin_spec(s),
        FilterType::Lark => lark_spec(s),
        FilterType::Lofi => lofi_spec(s),
        FilterType::Maven => maven_spec(s),
        FilterType::Mayfair => mayfair_spec(s),
        FilterType::Moon => moon_spec(s),
        FilterType::Nashville => nashville_spec(s),
        FilterType::Reyes => reyes_spec(s),
        FilterType::Rise => rise_spec(s),
        FilterType::Slumber => slumber_spec(s),
        FilterType::Stinson => stinson_spec(s),
        FilterType::Toaster => toaster_spec(s),
        FilterType::Valencia => valencia_spec(s),
        FilterType::Walden => walden_spec(s),
    }
}

/// `out` has the size of `img` and holds the pixels that `ft` makes of those of `img`.
pub open spec fn filtered(out: Image, img: Image, ft: FilterType) -> bool {
    &&& out.wf()
    &&& out.same_size(&img)
    &&& out.pixels@ == filter_spec(ft, img.pixels@)
}

/// A buffer of the size of `img` that holds one colour.
fn solid_like(img: &Image, channels: &[u8; 4]) -> (out: Image)
    requires
        img.wf(),
    ensures
        out.wf(),
        out.same_size(img),
        out.pixels@ == solid_of(img.pixels@, channels[0], channels[1], channels[2], channels[3]),
{
    // width * height is the pixel count, so it fits in a usize.
    let _count = img.pixels.len();
    let (width, height) = img.dimensions();
    fill_with_channels(width, height, channels).unwrap()
}

/// Applies the `1977` filter.
pub fn apply_1977(img: &Image) -> (out: Image)
    requires
        img.wf(),
    ensures
        filtered(out, *img, FilterType::NineTeenSeventySeven),
{
    let contrasted = contrast(img, 1000);
    let brightened = brighten_by_percent(&contrasted, 1000);
    let saturated = saturate(&brightened, 3000);
    let foreground = solid_like(img, &[243, 106, 188, 76]);
    blend_screen(&saturated, &foreground).unwrap()
}

/// Applies the `aden` filter.
pub fn apply_aden(img: &Image) -> (out: Image)
    requires
        img.wf(),
    ensures
        filtered(out, *img, FilterType::Aden),
{
    let huerotated = huerotate(img, -20);
    let contrasted = contrast(&huerotated, -1000);
    let saturated = saturate(&contrasted, -2000);
    let brightened = brighten_by_percent(&saturated, 2000);
    restore_transparency(img, &brightened).unwrap()
}

/// Applies the `brannan` filter.
pub fn apply_brannan(img: &Image) -> (out: Image)
    requires
        img.wf(),
    ensures
        filtered(out, *img, FilterType::Brannan),
{
    let with_sepia = sepia(img, 2000);
    let contrasted = contrast(&with_sepia, 2000);
    let foreground = solid_like(img, &[161, 44, 199, 59]);
    blend_lighten(&foreground, &contrasted).unwrap()
}

/// Applies the `brooklyn` filter.
pub fn apply_brooklyn(img: &Image) -> (out: Image)
    requires
        img.wf(),
    ensures
        filtered(out, *img, FilterType::Brooklyn),
{
    let contrasted = contrast(img, -1000);
    let brightened = brighten_by_percent(&contrasted, 1000);
    let foreground = solid_like(img, &[168, 223, 193, 150]);
    let background = restore_transparency(img, &brightened).unwrap();
    blend_overlay(&foreground, &background).unwrap()
}

/// Applies the `clarendon` filter.
pub fn apply_clarendon(img: &Image) -> (out: Image)
    requires
        img.wf(),
    ensures
        filtered(out, *img, FilterType::Clarendon),
{
    let contrasted = contrast(img, 2000);
    let saturated = saturate(&contrasted, 3500);
    let foreground = solid_like(img, &[127, 187, 227, 101]);
    blend_overlay(&foreground, &saturated).unwrap()
}

/// Applies the `earlybird` filter.
pub fn apply_earlybird(img: &Image) -> (out: Image)
    requires
        img.wf(),
    ensures
        filtered(out, *img, FilterType::Earlybird),
{
    let contrasted = contrast(img, -1000);
    let with_sepia = sepia(&contrasted, 500);
    let foreground = solid_like(img, &[208, 186, 142, 150]);
    let overlaid = blend_overlay(&with_sepia, &foreground).unwrap();
    restore_transparency(img, &overlaid).unwrap()
}

/// Applies the `gingham` filter.
pub fn apply_gingham(img: &Image) -> (out: Image)
    requires
        img.wf(),
    ensures
        filtered(out, *img, FilterType::Gingham),
{
    let brightened = brighten_by_percent(img, 500);
    let huerotated = huerotate(&brightened, -10);
    let foreground = solid_like(img, &[230, 230, 230, 255]);
    blend_soft_light(&foreground, &huerotated).unwrap()
}

/// Applies the `hudson` filter.
pub fn apply_hudson(img: &Image) -> (out: Image)
    requires
        img.wf(),
    ensures
        filtered(out, *img, FilterType::Hudson),
{
    let brightened = brighten_by_percent(img, 5000);
    let contrasted = contrast(&brightened, -1000);
    let saturated = saturate(&contrasted, 1000);
    let foreground = solid_like(img, &[166, 177, 255, 208]);
    let multiplied = blend_multiply(&foreground, &saturated).unwrap();
    restore_transparency(img, &multiplied).unwrap()
}

/// Applies the `inkwell` filter.
pub fn apply_inkwell(img: &Image) -> (out: Image)
    requires
        img.wf(),
    ensures
        filtered(out, *img, FilterType::Inkwell),
{
    let with_sepia = sepia(img, 3000);
    let contrasted = contrast(&with_sepia, 1000);
    let brightened = brighten_by_percent(&contrasted, 1000);
    grayscale(&brightened)
}

/// Applies the `kelvin` filter.
pub fn apply_kelvin(img: &Image) -> (out: Image)
    requires
        img.wf(),
    ensures
        filtered(out, *img, FilterType::Kelvin),
{
    let foreground = solid_like(img, &[56, 44, 52, 255]);
    let color_dodged = blend_color_dodge(img, &foreground).unwrap();
    let second_foreground = solid_like(img, &[183, 125, 33, 255]);
    blend_overlay(&second_foreground, &color_dodged).unwrap()
}

/// Applies the `lark` filter.
pub fn apply_lark(img: &Image) -> (out: Image)
    requires
        img.wf(),
    ensures
        filtered(out, *img, FilterType::Lark),
{
    let contrasted = contrast(img, -1000);
    let foreground = solid_like(img, &[34, 37, 63, 255]);
    let color_dodged = blend_color_dodge(&contrasted, &foreground).unwrap();
    let second_foreground = solid_like(img, &[242, 242, 242, 204]);
    blend_darken(&second_foreground, &color_dodged).unwrap()
}

/// Applies the `lofi` filter.
pub fn apply_lofi(img: &Image) -> (out: Image)
    requires
        img.wf(),
    ensures
        filtered(out, *img, FilterType::Lofi),
{
    let saturated = saturate(img, 1000);
    contrast(&saturated, 5000)
}

/// Applies the `maven` filter.
pub fn apply_maven(img: &Image) -> (out: Image)
    requires
        img.wf(),
    ensures
        filtered(out, *img, FilterType::Maven),
{
    let with_sepia = sepia(img, 2500);
    let brightened = brighten_by_percent(&with_sepia, -5);
    let contrasted = contrast(&brightened, -5);
    saturate(&contrasted, 5000)
}

/// Applies the `mayfair` filter.
pub fn apply_mayfair(img: &Image) -> (out: Image)
    requires
        img.wf(),
    ensures
        filtered(out, *img, FilterType::Mayfair),
{
    let contrasted = contrast(img, 1000);
    let saturated = saturate(&contrasted, 1000);
    let foreground = solid_like(img, &[255, 200, 200, 153]);
    blend_overlay(&foreground, &saturated).unwrap()
}

/// Applies the `moon` filter.
pub fn apply_moon(img: &Image) -> (out: Image)
    requires
        img.wf(),
    ensures
        filtered(out, *img, FilterType::Moon),
{
    let contrasted = contrast(img, 1000);
    let brightened = brighten_by_percent(&contrasted, 1000);
    let foreground = solid_like(img, &[160, 160, 160, 255]);
    let blended = blend_soft_light(&foreground, &brightened).unwrap();
    let second_foreground = solid_like(img, &[56, 56, 56, 255]);
    let lightened = blend_lighten(&second_foreground, &blended).unwrap();
    grayscale(&lightened)
}

/// Applies the `nashville` filter.
pub fn apply_nashville(img: &Image) -> (out: Image)
    requires
        img.wf(),
    ensures
        filtered(out, *img, FilterType::Nashville),
{
    let with_sepia = sepia(img, 200);
    let contrasted = contrast(&with_sepia, 2000);
    let brightened = brighten_by_percent(&contrasted, 500);
    let saturated = saturate(&brightened, 2000);
    let foreground = solid_like(img, &[247, 176, 153, 243]);
    let color_dodged = blend_darken(&foreground, &saturated).unwrap();
    let second_foreground = solid_like(img, &[0, 70, 150, 230]);
    blend_lighten(&second_foreground, &color_dodged).unwrap()
}

/// Applies the `reyes` filter.
pub fn apply_reyes(img: &Image) -> (out: Image)
    requires
        img.wf(),
    ensures
        filtered(out, *img, FilterType::Reyes),
{
    let with_sepia = sepia(img, 2200);
    let brightened = brighten_by_percent(&with_sepia, 1000);
    let contrasted = contrast(&brightened, -1500);
    let saturated = saturate(&contrasted, -2500);
    let foreground = solid_like(img, &[239, 205, 173, 10]);
    over(&foreground, &saturated).unwrap()
}

/// Applies the `rise` filter.
pub fn apply_rise(img: &Image) -> (out: Image)
    requires
        img.wf(),
    ensures
        filtered(out, *img, FilterType::Rise),
{
    let brightened = brighten_by_percent(img, 500);
    let with_sepia = sepia(&brightened, 500);
    let contrasted = contrast(&with_sepia, -1000);
    let saturated = saturate(&contrasted, -1000);
    let foreground = solid_like(img, &[236, 205, 169, 240]);
    let multiplied = blend_multiply(&foreground, &saturated).unwrap();
    let second_foreground = solid_like(img, &[232, 197, 152, 10]);
    let overlaid = blend_overlay(&second_foreground, &multiplied).unwrap();
    over(&overlaid, img).unwrap()
}

/// Applies the `slumber` filter.
pub fn apply_slumber(img: &Image) -> (out: Image)
    requires
        img.wf(),
    ensures
        filtered(out, *img, FilterType::Slumber),
{
    let saturated = saturate(img, -3400);
    let brightened = brighten_by_percent(&saturated, 500);
    let foreground = solid_like(img, &[69, 41, 12, 102]);
    let blended = blend_lighten(&foreground, &brightened).unwrap();
    let second_foreground = solid_like(img, &[125, 105, 24, 128]);
    blend_soft_light(&second_foreground, &blended).unwrap()
}

/// Applies the `stinson` filter.
pub fn apply_stinson(img: &Image) -> (out: Image)
    requires
        img.wf(),
    ensures
        filtered(out, *img, FilterType::Stinson),
{
    let contrasted = contrast(img, -2500);
    let saturated = saturate(&contrasted, -1500);
    let brightened = brighten_by_percent(&saturated, 1500);
    let foreground = solid_like(img, &[240, 149, 128, 51]);
    blend_soft_light(&foreground, &brightened).unwrap()
}

/// Applies the `toaster` filter.
pub fn apply_toaster(img: &Image) -> (out: Image)
    requires
        img.wf(),
    ensures
        filtered(out, *img, FilterType::Toaster),
{
    let contrasted = contrast(img, 2000);
    let brightened = brighten_by_percent(&contrasted, -1000);
    let foreground = solid_like(img, &[128, 78, 15, 140]);
    blend_screen(&foreground, &brightened).unwrap()
}

/// Applies the `valencia` filter.
pub fn apply_valencia(img: &Image) -> (out: Image)
    requires
        img.wf(),
    ensures
        filtered(out, *img, FilterType::Valencia),
{
    let contrasted = contrast(img, 800);
    let brightened = brighten_by_percent(&contrasted, 800);
    let with_sepia = sepia(&brightened, 800);
    let foreground = solid_like(img, &[58, 3, 57, 128]);
    blend_exclusion(&foreground, &with_sepia).unwrap()
}

/// Applies the `walden` filter.
pub fn apply_walden(img: &Image) -> (out: Image)
    requires
        img.wf(),
    ensures
        filtered(out, *img, FilterType::Walden),
{
    let brightened = brighten_by_percent(img, 1000);
    let huerotated = huerotate(&brightened, -10);
    let saturated = saturate(&huerotated, 6000);
    let with_sepia = sepia(&saturated, 500);
    let foreground = solid_like(img, &[0, 88, 244, 77]);
    blend_screen(&foreground, &with_sepia).unwrap()
}

impl RustagramFilter for Image {
    open spec fn filterable(&self) -> bool {
        self.wf()
    }

    open spec fn filtered_as(&self, ft: FilterType, out: &Image) -> bool {
        filtered(*out, *self, ft)
    }

    fn apply_filter(&self, ft: FilterType) -> (out: Image) {
        match ft {
            FilterType::NineTeenSeventySeven => apply_1977(self),
            FilterType::Aden => apply_aden(self),
            FilterType::Brannan => apply_brannan(self),
            FilterType::Brooklyn => apply_brooklyn(self),
            FilterType::Clarendon => apply_clarendon(self),
            FilterType::Earlybird => apply_earlybird(self),
            FilterType::Gingham => apply_gingham(self),
            FilterType::Hudson => apply_hudson(self),
            FilterType::Inkwell => apply_inkwell(self),
            FilterType::Kelvin => apply_kelvin(self),
            FilterType::Lark => apply_lark(self),
            FilterType::Lofi => apply_lofi(self),
            FilterType::Maven => apply_maven(self),
            FilterType::Mayfair => apply_mayfair(self),
            FilterType::Moon => apply_moon(self),
            FilterType::Nashville => apply_nashville(self),
            FilterType::Reyes => apply_reyes(self),
            FilterType::Rise => apply_rise(self),
            FilterType::Slumber => apply_slumber(self),
            FilterType::Stinson => apply_stinson(self),
            FilterType::Toaster => apply_toaster(self),
            FilterType::Valencia => apply_valencia(self),
            FilterType::Walden => apply_walden(self),
        }
    }
}

} // verus!
