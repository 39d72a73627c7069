use imgui_app::png_decoder::ImageError;
use imgui_app::{decode_rgba, load_fitted};

fn encode(width: u32, height: u32, color: png::ColorType, depth: png::BitDepth, data: &[u8]) -> Vec<u8> {
    let mut bytes = Vec::new();
    {
        let mut encoder = png::Encoder::new(&mut bytes, width, height);
        encoder.set_color(color);
        encoder.set_depth(depth);
        let mut writer = encoder.write_header().unwrap();
        writer.write_image_data(data).unwrap();
        writer.finish().unwrap();
    }
    bytes
}

fn image_crate_rgba(bytes: &[u8]) -> Vec<u8> {
    image::load_from_memory_with_format(bytes, image::ImageFormat::Png).unwrap().to_rgba8().into_raw()
}

#[test]
fn gray_pixels_become_opaque_rgba() {
    let bytes = encode(2, 1, png::ColorType::Grayscale, png::BitDepth::Eight, &[10, 200]);
    let image = decode_rgba(bytes).ok().unwrap();
    assert_eq!((image.width, image.height), (2, 1));
    assert_eq!(image.pixels, vec![10, 10, 10, 255, 200, 200, 200, 255]);
}

#[test]
fn rgba_pixels_stay_as_they_are() {
    let data = [1, 2, 3, 4, 5, 6, 7, 8];
    let bytes = encode(1, 2, png::ColorType::Rgba, png::BitDepth::Eight, &data);
    assert_eq!(decode_rgba(bytes).ok().unwrap().pixels, data.to_vec());
}

#[test]
fn conversion_matches_the_image_crate() {
    let cases: Vec<(png::ColorType, png::BitDepth, Vec<u8>)> = vec![
        (png::ColorType::GrayscaleAlpha, png::BitDepth::Eight, vec![10, 20, 30, 40]),
        (png::ColorType::Rgb, png::BitDepth::Eight, vec![1, 2, 3, 4, 5, 6]),
        (png::ColorType::Grayscale, png::BitDepth::Sixteen, vec![0x12, 0x34, 0xab, 0xcd]),
        (png::ColorType::GrayscaleAlpha, png::BitDepth::Sixteen, vec![0x12, 0x34, 0xff, 0x00, 0x80, 0x80, 0x7f, 0xff]),
        (png::ColorType::Rgb, png::BitDepth::Sixteen, vec![0xff, 0xff, 0x00, 0x00, 0x80, 0x7f, 0x01, 0x02, 0x03, 0x04, 0x05, 0x06]),
        (png::ColorType::Rgba, png::BitDepth::Sixteen, (0..16).map(|i| i * 16).collect()),
    ];
    for (color, depth, data) in cases {
        let samples_per_pixel = data.len() as u32 / (if depth == png::BitDepth::Sixteen { 2 } else { 1 }) / color.samples() as u32;
        let bytes = encode(samples_per_pixel, 1, color, depth, &data);
        let image = decode_rgba(bytes.clone()).ok().unwrap();
        assert_eq!(image.pixels, image_crate_rgba(&bytes));
    }
}

#[test]
fn garbage_does_not_decode() {
    assert!(matches!(decode_rgba(b"no png here".to_vec()), Err(ImageError::Decoding(_))));
    assert!(matches!(load_fitted(Vec::new(), 16), Err(ImageError::IoError(_))));
}

#[test]
fn large_image_is_decoded_and_fitted() {
    let data: Vec<u8> = (0..32).map(|i| (i * 8) as u8).collect();
    let bytes = encode(8, 4, png::ColorType::Grayscale, png::BitDepth::Eight, &data);
    let fitted = load_fitted(bytes, 4).ok().unwrap();
    assert_eq!((fitted.intrinsic_width, fitted.intrinsic_height), (8, 4));
    assert_eq!((fitted.image.width, fitted.image.height), (4, 2));
    assert_eq!(fitted.image.pixels.len(), 4 * 2 * 4);
    assert!(fitted.is_downscaled());
}

#[test]
fn small_image_is_kept() {
    let bytes = encode(2, 1, png::ColorType::Grayscale, png::BitDepth::Eight, &[10, 200]);
    let fitted = load_fitted(bytes, 4).ok().unwrap();
    assert!(!fitted.is_downscaled());
    assert_eq!(fitted.image.pixels, vec![10, 10, 10, 255, 200, 200, 200, 255]);
}
