use rustagram::{
    apply_1977, apply_aden, apply_brannan, apply_brooklyn, apply_clarendon, apply_earlybird,
    apply_gingham, apply_hudson, apply_inkwell, apply_kelvin, apply_lark, apply_lofi, apply_maven,
    apply_mayfair, apply_moon, apply_nashville, apply_reyes, apply_rise, apply_slumber,
    apply_stinson, apply_toaster, apply_valencia, apply_walden, FilterType, Image, Pixel,
    RustagramFilter,
};

fn sample() -> Image {
    let pixels = vec![
        Pixel { r: 0, g: 0, b: 0, a: 255 },
        Pixel { r: 255, g: 255, b: 255, a: 0 },
        Pixel { r: 200, g: 100, b: 50, a: 128 },
        Pixel { r: 12, g: 34, b: 56, a: 78 },
        Pixel { r: 128, g: 128, b: 128, a: 255 },
        Pixel { r: 90, g: 180, b: 240, a: 10 },
    ];
    Image::new(3, 2, pixels).unwrap()
}

fn all() -> Vec<(FilterType, fn(&Image) -> Image)> {
    vec![
        (FilterType::NineTeenSeventySeven, apply_1977),
        (FilterType::Aden, apply_aden),
        (FilterType::Brannan, apply_brannan),
        (FilterType::Brooklyn, apply_brooklyn),
        (FilterType::Clarendon, apply_clarendon),
        (FilterType::Earlybird, apply_earlybird),
        (FilterType::Gingham, apply_gingham),
        (FilterType::Hudson, apply_hudson),
        (FilterType::Inkwell, apply_inkwell),
        (FilterType::Kelvin, apply_kelvin),
        (FilterType::Lark, apply_lark),
        (FilterType::Lofi, apply_lofi),
        (FilterType::Maven, apply_maven),
        (FilterType::Mayfair, apply_mayfair),
        (FilterType::Moon, apply_moon),
        (FilterType::Nashville, apply_nashville),
        (FilterType::Reyes, apply_reyes),
        (FilterType::Rise, apply_rise),
        (FilterType::Slumber, apply_slumber),
        (FilterType::Stinson, apply_stinson),
        (FilterType::Toaster, apply_toaster),
        (FilterType::Valencia, apply_valencia),
        (FilterType::Walden, apply_walden),
    ]
}

#[test]
fn apply_filter_dispatches_to_each_filter() {
    let img = sample();
    for (ft, f) in all() {
        let out = img.apply_filter(ft);
        assert_eq!(out.dimensions(), (3, 2));
        assert_eq!(out.pixels, f(&img).pixels);
    }
}

#[test]
fn lofi_keeps_mid_gray() {
    let img = Image::new(1, 1, vec![Pixel { r: 128, g: 128, b: 128, a: 200 }]).unwrap();
    assert_eq!(apply_lofi(&img).pixels, img.pixels);
}

#[test]
fn inkwell_and_moon_are_gray() {
    let img = sample();
    let inkwell = apply_inkwell(&img);
    for (p, q) in inkwell.pixels.iter().zip(img.pixels.iter()) {
        assert_eq!(p.r, p.g);
        assert_eq!(p.g, p.b);
        assert_eq!(p.a, q.a);
    }
    // The opaque fills of moon make every pixel opaque.
    for p in apply_moon(&img).pixels.iter() {
        assert_eq!(p.r, p.g);
        assert_eq!(p.g, p.b);
        assert_eq!(p.a, 255);
    }
}

#[test]
fn restoring_filters_keep_transparency() {
    let img = sample();
    for out in [apply_aden(&img), apply_earlybird(&img), apply_hudson(&img)] {
        for (p, q) in out.pixels.iter().zip(img.pixels.iter()) {
            assert_eq!(p.a, q.a);
        }
    }
}

#[test]
fn kelvin_on_black() {
    // Black dodged onto (56, 44, 52) gives that colour back; the overlay of
    // (183, 125, 33) onto it is 2fb on each channel.
    let img = Image::new(1, 1, vec![Pixel { r: 0, g: 0, b: 0, a: 255 }]).unwrap();
    assert_eq!(apply_kelvin(&img).pixels[0], Pixel { r: 80, g: 43, b: 13, a: 255 });
}
