//! Whole-buffer operations: every pixel is processed independently, and each
//! operation returns a new buffer of the size of its input.
use vstd::prelude::*;
use crate::blend::BlendMode;
use crate::buffer::{EngineError, Image};
use crate::pixel::{Adjustment, Pixel, adjust_spec, adjust_pixel, composite_spec, composite_pixel};

verus! {

/// `adj` applied to each pixel of `s`.
pub open spec fn adjust_seq(s: Seq<Pixel>, adj: Adjustment) -> Seq<Pixel> {
    s.map_values(|p: Pixel| adjust_spec(adj, p))
}

/// Each pixel of `fg` blended by `mode` onto the pixel of `bg` at the same position.
pub open spec fn composite_seq(mode: BlendMode, fg: Seq<Pixel>, bg: Seq<Pixel>) -> Seq<Pixel> {
    Seq::new(bg.len(), |i: int| composite_spec(mode, fg[i], bg[i]))
}

/// `n` copies of one pixel.
pub open spec fn solid_seq(n: nat, px: Pixel) -> Seq<Pixel> {
    Seq::new(n, |i: int| px)
}

/// The pixels of `t`, each with the alpha of the pixel of `original` at the same position.
pub open spec fn restore_seq(original: Seq<Pixel>, t: Seq<Pixel>) -> Seq<Pixel> {
    Seq::new(t.len(), |i: int| Pixel { a: original[i].a, ..t[i] })
}

/// `out` has the size of `img`, and its pixels are those of `img` adjusted by `adj`.
pub open spec fn adjusted(out: Image, img: Image, adj: Adjustment) -> bool {
    &&& out.wf()
    &&& out.same_size(&img)
    &&& out.pixels@ == adjust_seq(img.pixels@, adj)
}

/// `out` has the size of `bg`, and its pixels are those of `fg` blended by `mode` onto `bg`.
pub open spec fn composited(out: Image, mode: BlendMode, fg: Image, bg: Image) -> bool {
    &&& out.wf()
    &&& out.same_size(&bg)
    &&& out.pixels@ == composite_seq(mode, fg.pixels@, bg.pixels@)
}

/// A buffer of `width` by `height` pixels that all hold `channels` as (R, G, B, A).
pub fn fill_with_channels(width: u32, height: u32, channels: &[u8; 4]) -> (r: Result<Image, EngineError>)
    requires
        width as int * height as int <= usize::MAX,
    ensures
        r is Ok <==> width > 0 && height > 0,
        r is Err ==> r->Err_0 == EngineError::InvalidDimensions,
        r is Ok ==> {
            let img = r->Ok_0;
            &&& img.wf()
            &&& img.width == width
            &&& img.height == height
            &&& img.pixels@ == solid_seq(
                width as nat * height as nat,
                Pixel { r: channels[0], g: channels[1], b: channels[2], a: channels[3] },
            )
        },
{
    if width == 0 || height == 0 {
        return Err(EngineError::InvalidDimensions);
    }
    let n: usize = width as usize * height as usize;
    let px = Pixel { r: channels[0], g: channels[1], b: channels[2], a: channels[3] };
    let mut pixels: Vec<Pixel> = Vec::with_capacity(n);
    let mut i: usize = 0;
    while i < n
        invariant
            i <= n,
            pixels@.len() == i,
            forall|j: int| 0 <= j < i ==> #[trigger] pixels@[j] == px,
        decreases n - i,
    {
        pixels.push(px);
        i += 1;
    }
    assert(pixels@ =~= solid_seq(n as nat, px));
    Ok(Image { width, height, pixels })
}

/// Applies a colour adjustment to every pixel.
pub fn adjust(img: &Image, adj: Adjustment) -> (out: Image)
    requires
        img.wf(),
    ensures
        adjusted(out, *img, adj),
{
    let n = img.pixels.len();
    let mut pixels: Vec<Pixel> = Vec::with_capacity(n);
    let mut i: usize = 0;
    while i < n
        invariant
            n == img.pixels@.len(),
            i <= n,
            pixels@.len() == i,
            forall|j: int| 0 <= j < i ==> pixels@[j] == adjust_spec(adj, #[trigger] img.pixels@[j]),
        decreases n - i,
    {
        pixels.push(adjust_pixel(adj, img.pixels[i]));
        i += 1;
    }
    assert(pixels@ =~= adjust_seq(img.pixels@, adj));
    Image { width: img.width, height: img.height, pixels }
}

/// Scales each colour channel's distance from the midpoint 128 by
/// `1 + percent / 10000`; `percent` is in hundredths of a percent.
pub fn contrast(img: &Image, percent: i32) -> (out: Image)
    requires
        img.wf(),
    ensures
        adjusted(out, *img, Adjustment::Contrast(percent)),
{
    adjust(img, Adjustment::Contrast(percent))
}

/// Adds `percent` percent of 255 to each colour channel; `percent` is in
/// hundredths of a percent.
pub fn brighten_by_percent(img: &Image, percent: i32) -> (out: Image)
    requires
        img.wf(),
    ensures
        adjusted(out, *img, Adjustment::Brightness(percent)),
{
    adjust(img, Adjustment::Brightness(percent))
}

/// Scales each colour channel's distance from the pixel's luma by
/// `1 + percent / 10000`; `percent` is in hundredths of a percent.
pub fn saturate(img: &Image, percent: i32) -> (out: Image)
    requires
        img.wf(),
    ensures
        adjusted(out, *img, Adjustment::Saturation(percent)),
{
    adjust(img, Adjustment::Saturation(percent))
}

/// Moves each pixel towards its sepia tone by `percent` hundredths of a percent.
pub fn sepia(img: &Image, percent: i32) -> (out: Image)
    requires
        img.wf(),
    ensures
        adjusted(out, *img, Adjustment::Sepia(percent)),
{
    adjust(img, Adjustment::Sepia(percent))
}

/// Rotates the hue of every pixel by `degrees`.
pub fn huerotate(img: &Image, degrees: i32) -> (out: Image)
    requires
        img.wf(),
    ensures
        adjusted(out, *img, Adjustment::HueRotate(degrees)),
{
    adjust(img, Adjustment::HueRotate(degrees))
}

/// Replaces the colour of every pixel by its luma.
pub fn grayscale(img: &Image) -> (out: Image)
    requires
        img.wf(),
    ensures
        adjusted(out, *img, Adjustment::Grayscale),
{
    adjust(img, Adjustment::Grayscale)
}

/// Blends `fg` onto `bg` with `mode`, weighting each colour channel by the
/// foreground's alpha and compositing the alpha source-over.
pub fn blend(mode: BlendMode, fg: &Image, bg: &Image) -> (r: Result<Image, EngineError>)
    requires
        fg.wf(),
        bg.wf(),
    ensures
        r is Ok <==> fg.same_size(bg),
        r is Err ==> r->Err_0 == EngineError::DimensionMismatch,
        r is Ok ==> composited(r->Ok_0, mode, *fg, *bg),
{
    if !fg.has_same_size(bg) {
        return Err(EngineError::DimensionMismatch);
    }
    let n = bg.pixels.len();
    let mut pixels: Vec<Pixel> = Vec::with_capacity(n);
    let mut i: usize = 0;
    while i < n
        invariant
            n == bg.pixels@.len(),
            n == fg.pixels@.len(),
            i <= n,
            pixels@.len() == i,
            forall|j: int| 0 <= j < i ==> pixels@[j] == composite_spec(mode, #[trigger] fg.pixels@[j], bg.pixels@[j]),
        decreases n - i,
    {
        pixels.push(composite_pixel(mode, fg.pixels[i], bg.pixels[i]));
        i += 1;
    }
    assert(pixels@ =~= composite_seq(mode, fg.pixels@, bg.pixels@));
    Ok(Image { width: bg.width, height: bg.height, pixels })
}

/// [`blend`] with [`BlendMode::Screen`].
pub fn blend_screen(fg: &Image, bg: &Image) -> (r: Result<Image, EngineError>)
    requires
        fg.wf(),
        bg.wf(),
    ensures
        r is Ok <==> fg.same_size(bg),
        r is Err ==> r->Err_0 == EngineError::DimensionMismatch,
        r is Ok ==> composited(r->Ok_0, BlendMode::Screen, *fg, *bg),
{
    blend(BlendMode::Screen, fg, bg)
}

/// [`blend`] with [`BlendMode::Multiply`].
pub fn blend_multiply(fg: &Image, bg: &Image) -> (r: Result<Image, EngineError>)
    requires
        fg.wf(),
        bg.wf(),
    ensures
        r is Ok <==> fg.same_size(bg),
        r is Err ==> r->Err_0 == EngineError::DimensionMismatch,
        r is Ok ==> composited(r->Ok_0, BlendMode::Multiply, *fg, *bg),
{
    blend(BlendMode::Multiply, fg, bg)
}

/// [`blend`] with [`BlendMode::Overlay`].
pub fn blend_overlay(fg: &Image, bg: &Image) -> (r: Result<Image, EngineError>)
    requires
        fg.wf(),
        bg.wf(),
    ensures
        r is Ok <==> fg.same_size(bg),
        r is Err ==> r->Err_0 == EngineError::DimensionMismatch,
        r is Ok ==> composited(r->Ok_0, BlendMode::Overlay, *fg, *bg),
{
    blend(BlendMode::Overlay, fg, bg)
}

/// [`blend`] with [`BlendMode::SoftLight`].
pub fn blend_soft_light(fg: &Image, bg: &Image) -> (r: Result<Image, EngineError>)
    requires
        fg.wf(),
        bg.wf(),
    ensures
        r is Ok <==> fg.same_size(bg),
        r is Err ==> r->Err_0 == EngineError::DimensionMismatch,
        r is Ok ==> composited(r->Ok_0, BlendMode::SoftLight, *fg, *bg),
{
    blend(BlendMode::SoftLight, fg, bg)
}

/// [`blend`] with [`BlendMode::Darken`].
pub fn blend_darken(fg: &Image, bg: &Image) -> (r: Result<Image, EngineError>)
    requires
        fg.wf(),
        bg.wf(),
    ensures
        r is Ok <==> fg.same_size(bg),
        r is Err ==> r->Err_0 == EngineError::DimensionMismatch,
        r is Ok ==> composited(r->Ok_0, BlendMode::Darken, *fg, *bg),
{
    blend(BlendMode::Darken, fg, bg)
}

/// [`blend`] with [`BlendMode::Lighten`].
pub fn blend_lighten(fg: &Image, bg: &Image) -> (r: Result<Image, EngineError>)
    requires
        fg.wf(),
        bg.wf(),
    ensures
        r is Ok <==> fg.same_size(bg),
        r is Err ==> r->Err_0 == EngineError::DimensionMismatch,
        r is Ok ==> composited(r->Ok_0, BlendMode::Lighten, *fg, *bg),
{
    blend(BlendMode::Lighten, fg, bg)
}

/// [`blend`] with [`BlendMode::ColorDodge`].
pub fn blend_color_dodge(fg: &Image, bg: &Image) -> (r: Result<Image, EngineError>)
    requires
        fg.wf(),
        bg.wf(),
    ensures
        r is Ok <==> fg.same_size(bg),
        r is Err ==> r->Err_0 == EngineError::DimensionMismatch,
        r is Ok ==> composited(r->Ok_0, BlendMode::ColorDodge, *fg, *bg),
{
    blend(BlendMode::ColorDodge, fg, bg)
}

/// [`blend`] with [`BlendMode::Exclusion`].
pub fn blend_exclusion(fg: &Image, bg: &Image) -> (r: Result<Image, EngineError>)
    requires
        fg.wf(),
        bg.wf(),
    ensures
        r is Ok <==> fg.same_size(bg),
        r is Err ==> r->Err_0 == EngineError::DimensionMismatch,
        r is Ok ==> composited(r->Ok_0, BlendMode::Exclusion, *fg, *bg),
{
    blend(BlendMode::Exclusion, fg, bg)
}

/// Plain source-over compositing of `fg` onto `bg`.
pub fn over(fg: &Image, bg: &Image) -> (r: Result<Image, EngineError>)
    requires
        fg.wf(),
        bg.wf(),
    ensures
        r is Ok <==> fg.same_size(bg),
        r is Err ==> r->Err_0 == EngineError::DimensionMismatch,
        r is Ok ==> composited(r->Ok_0, BlendMode::Normal, *fg, *bg),
{
    blend(BlendMode::Normal, fg, bg)
}

/// Gives each pixel of `transformed` the alpha of the pixel of `original` at
/// the same position.
pub fn restore_transparency(original: &Image, transformed: &Image) -> (r: Result<Image, EngineError>)
    requires
        original.wf(),
        transformed.wf(),
    ensures
        r is Ok <==> original.same_size(transformed),
        r is Err ==> r->Err_0 == EngineError::DimensionMismatch,
        r is Ok ==> {
            let out = r->Ok_0;
            &&& out.wf()
            &&& out.same_size(transformed)
            &&& out.pixels@ == restore_seq(original.pixels@, transformed.pixels@)
        },
{
    if !original.has_same_size(transformed) {
        return Err(EngineError::DimensionMismatch);
    }
    let n = transformed.pixels.len();
    let mut pixels: Vec<Pixel> = Vec::with_capacity(n);
    let mut i: usize = 0;
    while i < n
        invariant
            n == transformed.pixels@.len(),
            n == original.pixels@.len(),
            i <= n,
            pixels@.len() == i,
            forall|j: int| 0 <= j < i ==> #[trigger] pixels@[j] == (Pixel {
                a: original.pixels@[j].a,
                ..transformed.pixels@[j]
            }),
        decreases n - i,
    {
        let t = transformed.pixels[i];
        pixels.push(Pixel { a: original.pixels[i].a, ..t });
        i += 1;
    }
    assert(pixels@ =~= restore_seq(original.pixels@, transformed.pixels@));
    Ok(Image { width: transformed.width, height: transformed.height, pixels })
}

} // verus!
