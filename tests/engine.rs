use rustagram::blend::{color_dodge, darken, exclusion, lighten, multiply, overlay, screen, soft_light};
use rustagram::pixel::luma;
use rustagram::{
    blend, blend_screen, brighten_by_percent, contrast, fill_with_channels, grayscale, huerotate,
    over, restore_transparency, saturate, sepia, BlendMode, EngineError, Image, Pixel,
};

fn px(r: u8, g: u8, b: u8, a: u8) -> Pixel {
    Pixel { r, g, b, a }
}

fn image(width: u32, height: u32, pixels: Vec<Pixel>) -> Image {
    Image::new(width, height, pixels).unwrap()
}

fn sample() -> Image {
    image(
        3,
        2,
        vec![
            px(0, 0, 0, 255),
            px(255, 255, 255, 0),
            px(200, 100, 50, 128),
            px(12, 34, 56, 78),
            px(128, 128, 128, 255),
            px(90, 180, 240, 10),
        ],
    )
}

fn four_colours() -> Image {
    image(
        2,
        2,
        vec![px(255, 0, 0, 255), px(0, 255, 0, 255), px(0, 0, 255, 255), px(255, 255, 255, 0)],
    )
}

#[test]
fn screen_fill_over_four_colours() {
    let fg = fill_with_channels(2, 2, &[10, 20, 30, 128]).unwrap();
    let out = blend(BlendMode::Screen, &fg, &four_colours()).unwrap();
    assert_eq!(out.pixels[0], px(255, 10, 15, 255));
    assert_eq!(out.pixels[1], px(5, 255, 15, 255));
    assert_eq!(out.pixels[2], px(5, 10, 255, 255));
    // The colour of a white background stays white under screen; the alpha
    // is source-over: 128 + 0 * (1 - 128/255).
    assert_eq!(out.pixels[3], px(255, 255, 255, 128));
}

#[test]
fn new_checks_dimensions() {
    assert_eq!(Image::new(2, 2, vec![px(1, 2, 3, 4); 3]).err(), Some(EngineError::InvalidDimensions));
    assert_eq!(Image::new(0, 2, vec![]).err(), Some(EngineError::InvalidDimensions));
    let img = Image::new(2, 1, vec![px(1, 2, 3, 4), px(5, 6, 7, 8)]).unwrap();
    assert_eq!(img.dimensions(), (2, 1));
    assert_eq!(img.get_pixel(1, 0), px(5, 6, 7, 8));
    assert!(img.is_well_formed());
}

#[test]
fn fill_sets_every_pixel() {
    let img = fill_with_channels(3, 2, &[1, 2, 3, 4]).unwrap();
    assert_eq!(img.dimensions(), (3, 2));
    assert_eq!(img.pixels, vec![px(1, 2, 3, 4); 6]);
}

#[test]
fn fill_rejects_zero_dimensions() {
    assert_eq!(fill_with_channels(0, 5, &[1, 2, 3, 4]).err(), Some(EngineError::InvalidDimensions));
    assert_eq!(fill_with_channels(5, 0, &[1, 2, 3, 4]).err(), Some(EngineError::InvalidDimensions));
}

#[test]
fn binary_operations_reject_mismatched_sizes() {
    let a = fill_with_channels(2, 3, &[1, 2, 3, 4]).unwrap();
    let b = fill_with_channels(3, 2, &[1, 2, 3, 4]).unwrap();
    assert!(!a.has_same_size(&b));
    assert_eq!(blend(BlendMode::Multiply, &a, &b).err(), Some(EngineError::DimensionMismatch));
    assert_eq!(blend_screen(&a, &b).err(), Some(EngineError::DimensionMismatch));
    assert_eq!(over(&a, &b).err(), Some(EngineError::DimensionMismatch));
    assert_eq!(restore_transparency(&a, &b).err(), Some(EngineError::DimensionMismatch));
}

#[test]
fn blend_formulas_give_exact_values() {
    assert_eq!(screen(128, 128), 192);
    assert_eq!(screen(0, 77), 77);
    assert_eq!(multiply(128, 128), 64);
    assert_eq!(multiply(255, 77), 77);
    assert_eq!(overlay(100, 100), 78);
    assert_eq!(overlay(100, 200), 188);
    assert_eq!(soft_light(128, 64), 96);
    assert_eq!(soft_light(128, 200), 164);
    assert_eq!(soft_light(0, 200), 0);
    assert_eq!(soft_light(255, 0), 255);
    assert_eq!(darken(10, 20), 10);
    assert_eq!(lighten(10, 20), 20);
    assert_eq!(color_dodge(255, 0), 255);
    assert_eq!(color_dodge(128, 64), 129);
    assert_eq!(color_dodge(200, 255), 255);
    assert_eq!(exclusion(100, 200), 143);
    assert_eq!(exclusion(0, 200), 200);
}

#[test]
fn brightness_adds_a_share_of_full_scale() {
    let img = image(1, 1, vec![px(100, 0, 250, 7)]);
    assert_eq!(brighten_by_percent(&img, 1000).pixels[0], px(126, 26, 255, 7));
    assert_eq!(brighten_by_percent(&img, -1000).pixels[0], px(74, 0, 224, 7));
}

#[test]
fn contrast_scales_around_the_midpoint() {
    let img = image(2, 1, vec![px(200, 50, 128, 9), px(0, 255, 127, 9)]);
    let out = contrast(&img, 1000);
    assert_eq!(out.pixels[0], px(207, 42, 128, 9));
    let out = contrast(&img, -1000);
    assert_eq!(out.pixels[0].r, 193);
}

#[test]
fn luma_uses_rec_709_weights() {
    assert_eq!(luma(255, 0, 0), 54);
    assert_eq!(luma(0, 255, 0), 182);
    assert_eq!(luma(10, 200, 30), 147);
    assert_eq!(luma(255, 255, 255), 255);
}

#[test]
fn saturation_scales_around_luma() {
    let img = image(1, 1, vec![px(200, 100, 50, 3)]);
    assert_eq!(saturate(&img, 5000).pixels[0], px(241, 91, 16, 3));
    let gray = image(1, 1, vec![px(90, 90, 90, 3)]);
    assert_eq!(saturate(&gray, 5000).pixels[0], px(90, 90, 90, 3));
}

#[test]
fn sepia_moves_towards_the_sepia_tone() {
    let img = image(1, 1, vec![px(100, 100, 100, 42)]);
    assert_eq!(sepia(&img, 10000).pixels[0], px(135, 120, 94, 42));
    assert_eq!(sepia(&img, 5000).pixels[0], px(118, 110, 97, 42));
}

#[test]
fn hue_rotation_exact_values() {
    let img = image(2, 1, vec![px(255, 0, 0, 200), px(200, 100, 50, 1)]);
    let out = huerotate(&img, 180);
    assert_eq!(out.pixels[0], px(0, 109, 109, 200));
    let out = huerotate(&img, 120);
    assert_eq!(out.pixels[0], px(0, 113, 0, 200));
    let out = huerotate(&img, -20);
    assert_eq!(out.pixels[1], px(218, 91, 82, 1));
    assert_eq!(huerotate(&img, 360).pixels, img.pixels);
}

#[test]
fn grayscale_keeps_alpha() {
    let img = image(1, 1, vec![px(255, 0, 0, 17)]);
    assert_eq!(grayscale(&img).pixels[0], px(54, 54, 54, 17));
}

#[test]
fn identity_at_zero() {
    let img = sample();
    assert_eq!(contrast(&img, 0).pixels, img.pixels);
    assert_eq!(brighten_by_percent(&img, 0).pixels, img.pixels);
    assert_eq!(saturate(&img, 0).pixels, img.pixels);
    assert_eq!(huerotate(&img, 0).pixels, img.pixels);
    assert_eq!(sepia(&img, 0).pixels, img.pixels);
}

#[test]
fn dimensions_are_preserved() {
    let img = sample();
    for out in [
        contrast(&img, 2500),
        brighten_by_percent(&img, -700),
        saturate(&img, 4000),
        huerotate(&img, 33),
        sepia(&img, 6000),
        grayscale(&img),
    ] {
        assert_eq!(out.dimensions(), (3, 2));
        assert_eq!(out.pixels.len(), 6);
    }
    let fg = fill_with_channels(3, 2, &[1, 2, 3, 4]).unwrap();
    assert_eq!(blend(BlendMode::SoftLight, &fg, &img).unwrap().dimensions(), (3, 2));
    assert_eq!(restore_transparency(&fg, &img).unwrap().dimensions(), (3, 2));
}

#[test]
fn transparent_foreground_leaves_background() {
    let bg = sample();
    let fg = fill_with_channels(3, 2, &[250, 3, 77, 0]).unwrap();
    for mode in [
        BlendMode::Normal,
        BlendMode::Screen,
        BlendMode::Multiply,
        BlendMode::Overlay,
        BlendMode::SoftLight,
        BlendMode::Darken,
        BlendMode::Lighten,
        BlendMode::ColorDodge,
        BlendMode::Exclusion,
    ] {
        assert_eq!(blend(mode, &fg, &bg).unwrap().pixels, bg.pixels);
    }
    assert_eq!(over(&fg, &bg).unwrap().pixels, bg.pixels);
}

#[test]
fn opaque_foreground_gives_the_formula() {
    let bg = sample();
    let fg = fill_with_channels(3, 2, &[250, 3, 77, 255]).unwrap();
    let out = blend(BlendMode::Overlay, &fg, &bg).unwrap();
    for (o, b) in out.pixels.iter().zip(bg.pixels.iter()) {
        assert_eq!(*o, px(overlay(250, b.r), overlay(3, b.g), overlay(77, b.b), 255));
    }
    let out = over(&fg, &bg).unwrap();
    assert_eq!(out.pixels, vec![px(250, 3, 77, 255); 6]);
}

#[test]
fn brightness_sign_symmetry() {
    // +50% adds 128, so every channel here stays below 128.
    let img = image(2, 2, vec![px(0, 40, 127, 1), px(64, 64, 64, 2), px(110, 100, 5, 3), px(127, 18, 60, 4)]);
    for p in [1000, 2500, 5000] {
        let there = brighten_by_percent(&img, p);
        assert_eq!(brighten_by_percent(&there, -p).pixels, img.pixels);
    }
    // Where a channel is clamped, the way back cannot restore it.
    let white = image(1, 1, vec![px(250, 250, 250, 9)]);
    let there = brighten_by_percent(&white, 1000);
    assert_eq!(brighten_by_percent(&there, -1000).pixels[0], px(229, 229, 229, 9));
}

#[test]
fn grayscale_is_idempotent() {
    let img = sample();
    let once = grayscale(&img);
    assert_eq!(grayscale(&once).pixels, once.pixels);
}

#[test]
fn restore_transparency_copies_alpha() {
    let original = sample();
    let transformed = fill_with_channels(3, 2, &[9, 8, 7, 255]).unwrap();
    let out = restore_transparency(&original, &transformed).unwrap();
    for (o, p) in out.pixels.iter().zip(original.pixels.iter()) {
        assert_eq!(*o, px(9, 8, 7, p.a));
    }
}
