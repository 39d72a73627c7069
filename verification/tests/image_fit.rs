use imgui_app::image_fit::{fit_to_max_size, scaled_size, RgbaImage};

fn image(width: u32, height: u32) -> RgbaImage {
    let mut pixels = Vec::new();
    for i in 0..(width * height) {
        pixels.extend_from_slice(&[(i % 256) as u8, 50, 100, 255]);
    }
    RgbaImage { width, height, pixels }
}

#[test]
fn scaled_size_keeps_aspect() {
    assert_eq!(scaled_size(10, 5, 4), (4, 2));
    assert_eq!(scaled_size(5, 10, 4), (2, 4));
    // 2 / 3 rounds to 1
    assert_eq!(scaled_size(3, 1, 2), (2, 1));
    assert_eq!(scaled_size(1, 3, 2), (1, 2));
    // 0.1 rounds to 0
    assert_eq!(scaled_size(100, 1, 10), (10, 0));
    // 0.5 rounds up
    assert_eq!(scaled_size(4, 2, 1), (1, 1));
    // square images scale by the width
    assert_eq!(scaled_size(300, 300, 100), (100, 100));
}

fn float_scaled_size(w: u32, h: u32, max: u32) -> (u32, u32) {
    if w >= h {
        (max, f64::round(h as f64 / w as f64 * max as f64) as u32)
    } else {
        (f64::round(w as f64 / h as f64 * max as f64) as u32, max)
    }
}

#[test]
fn scaled_size_matches_float_rounding() {
    for (w, h, max) in [
        (4000u32, 3000u32, 2048u32),
        (1920, 1080, 1024),
        (333, 1000, 256),
        (16385, 7, 16384),
        (u32::MAX, u32::MAX - 1, u32::MAX - 1),
        (u32::MAX, 3, 1),
    ] {
        assert_eq!(scaled_size(w, h, max), float_scaled_size(w, h, max));
    }
}

#[test]
fn scaled_size_rounds_as_floats_do_near_halves() {
    // 15 / 22 * 11 is 7.5, but its f64 computation gives 7.4999..., so 7
    assert_eq!(scaled_size(22, 15, 11), (11, 7));
    assert_eq!(scaled_size(15, 22, 11), (7, 11));
}

#[test]
fn scaled_size_matches_float_rounding_on_small_sizes() {
    for long in 1..120u32 {
        for short in 0..=long {
            for max in 0..long {
                assert_eq!(scaled_size(long, short, max), float_scaled_size(long, short, max));
                if short < long {
                    assert_eq!(scaled_size(short, long, max), float_scaled_size(short, long, max));
                }
            }
        }
    }
}

#[test]
fn image_that_fits_is_kept() {
    let source = image(3, 2);
    let pixels = source.pixels.clone();
    let fitted = fit_to_max_size(source, 3);
    assert!(!fitted.is_downscaled());
    assert_eq!((fitted.image.width, fitted.image.height), (3, 2));
    assert_eq!((fitted.intrinsic_width, fitted.intrinsic_height), (3, 2));
    assert_eq!(fitted.image.pixels, pixels);
}

#[test]
fn image_too_large_is_resampled() {
    let fitted = fit_to_max_size(image(8, 4), 4);
    assert!(fitted.is_downscaled());
    assert_eq!((fitted.image.width, fitted.image.height), (4, 2));
    assert_eq!((fitted.intrinsic_width, fitted.intrinsic_height), (8, 4));
    assert_eq!(fitted.image.pixels.len(), 4 * 2 * 4);
    // constant channels stay constant
    for pixel in fitted.image.pixels.chunks(4) {
        assert_eq!(pixel[1], 50);
        assert_eq!(pixel[3], 255);
    }
}

#[test]
fn tall_image_is_resampled() {
    let fitted = fit_to_max_size(image(2, 6), 3);
    assert_eq!((fitted.image.width, fitted.image.height), (1, 3));
    assert_eq!(fitted.image.pixels.len(), 1 * 3 * 4);
}
