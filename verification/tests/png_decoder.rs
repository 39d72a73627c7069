use imgui_app::png_decoder::{
    big_endian_to_native, color_type_from_png, image_error_from_png_kind, unsupported_color,
    ColorType, ExtendedColorType, ImageError, LimitErrorKind, Limits, PngBitDepth, PngColorType,
    PngDecoder, PngErrorKind, PNG_SIGNATURE,
};

fn encode(width: u32, height: u32, color: png::ColorType, depth: png::BitDepth, data: &[u8]) -> Vec<u8> {
    encode_with(width, height, color, depth, data, |_| {})
}

fn encode_with(
    width: u32,
    height: u32,
    color: png::ColorType,
    depth: png::BitDepth,
    data: &[u8],
    configure: impl FnOnce(&mut png::Encoder<'_, &mut Vec<u8>>),
) -> Vec<u8> {
    let mut bytes = Vec::new();
    {
        let mut encoder = png::Encoder::new(&mut bytes, width, height);
        encoder.set_color(color);
        encoder.set_depth(depth);
        configure(&mut encoder);
        let mut writer = encoder.write_header().unwrap();
        writer.write_image_data(data).unwrap();
        writer.finish().unwrap();
    }
    bytes
}

fn decode_all(decoder: PngDecoder) -> Vec<u8> {
    let mut buf = vec![0u8; decoder.total_bytes() as usize];
    decoder.read_image(&mut buf).ok().unwrap();
    buf
}

#[test]
fn signature_starts_encoded_files() {
    let bytes = encode(1, 1, png::ColorType::Rgba, png::BitDepth::Eight, &[1, 2, 3, 4]);
    assert_eq!(&bytes[..8], &PNG_SIGNATURE);
}

#[test]
fn decodes_rgba8() {
    let data = [1, 2, 3, 4, 5, 6, 7, 8];
    let bytes = encode(2, 1, png::ColorType::Rgba, png::BitDepth::Eight, &data);
    let decoder = PngDecoder::new(bytes).ok().unwrap();
    assert_eq!(decoder.dimensions(), (2, 1));
    assert_eq!(decoder.color_type(), ColorType::Rgba8);
    assert_eq!(decoder.total_bytes(), 8);
    assert_eq!(decode_all(decoder), data.to_vec());
}

#[test]
fn decodes_16_bit_samples_in_native_order() {
    let data = [0x01, 0x02, 0x03, 0x04];
    let bytes = encode(2, 1, png::ColorType::Grayscale, png::BitDepth::Sixteen, &data);
    let decoder = PngDecoder::new(bytes).ok().unwrap();
    assert_eq!(decoder.color_type(), ColorType::L16);
    assert_eq!(decoder.total_bytes(), 4);
    let out = decode_all(decoder);
    let samples: Vec<u16> = out.chunks(2).map(|c| u16::from_ne_bytes([c[0], c[1]])).collect();
    assert_eq!(samples, vec![0x0102, 0x0304]);
}

#[test]
fn expands_low_bit_depth_to_eight_bits() {
    // two pixels, 1 bit each: white, black
    let bytes = encode(2, 1, png::ColorType::Grayscale, png::BitDepth::One, &[0b1000_0000]);
    let decoder = PngDecoder::new(bytes).ok().unwrap();
    assert_eq!(decoder.color_type(), ColorType::L8);
    assert_eq!(decode_all(decoder), vec![255, 0]);
}

#[test]
fn expands_palette_to_rgb() {
    let bytes = encode_with(2, 1, png::ColorType::Indexed, png::BitDepth::Eight, &[1, 0], |e| {
        e.set_palette(vec![10, 20, 30, 40, 50, 60]);
    });
    let decoder = PngDecoder::new(bytes).ok().unwrap();
    assert_eq!(decoder.color_type(), ColorType::Rgb8);
    assert_eq!(decode_all(decoder), vec![40, 50, 60, 10, 20, 30]);
}

#[test]
fn width_limit_is_enforced() {
    let bytes = encode(2, 1, png::ColorType::Rgba, png::BitDepth::Eight, &[0; 8]);
    let limits = Limits { max_image_width: Some(1), max_image_height: None, max_alloc: None };
    match PngDecoder::with_limits(bytes.clone(), limits) {
        Err(ImageError::Limits(LimitErrorKind::DimensionError)) => {},
        _ => panic!("expected a dimension error"),
    }
    let limits = Limits { max_image_width: Some(2), max_image_height: Some(1), max_alloc: None };
    assert!(PngDecoder::with_limits(bytes, limits).is_ok());
}

#[test]
fn height_limit_is_enforced() {
    let bytes = encode(1, 3, png::ColorType::Rgba, png::BitDepth::Eight, &[0; 12]);
    let limits = Limits { max_image_width: None, max_image_height: Some(2), max_alloc: None };
    assert!(matches!(
        PngDecoder::with_limits(bytes, limits),
        Err(ImageError::Limits(LimitErrorKind::DimensionError))
    ));
}

#[test]
fn tiny_allocation_limit_is_lack_of_memory() {
    let bytes = encode(64, 64, png::ColorType::Rgba, png::BitDepth::Eight, &[7; 64 * 64 * 4]);
    let limits = Limits { max_image_width: None, max_image_height: None, max_alloc: Some(3) };
    assert!(matches!(
        PngDecoder::with_limits(bytes, limits),
        Err(ImageError::Limits(LimitErrorKind::InsufficientMemory))
    ));
}

#[test]
fn garbage_is_a_decoding_error() {
    assert!(matches!(PngDecoder::new(b"not a png file at all".to_vec()), Err(ImageError::Decoding(_))));
}

#[test]
fn empty_input_is_an_io_error() {
    assert!(matches!(PngDecoder::new(Vec::new()), Err(ImageError::IoError(_))));
}

#[test]
fn set_limits_checks_dimensions() {
    let bytes = encode(2, 2, png::ColorType::Rgba, png::BitDepth::Eight, &[0; 16]);
    let mut decoder = PngDecoder::new(bytes).ok().unwrap();
    let tight = Limits { max_image_width: Some(1), max_image_height: None, max_alloc: None };
    assert!(matches!(decoder.set_limits(tight), Err(ImageError::Limits(LimitErrorKind::DimensionError))));
    let loose = Limits { max_image_width: Some(2), max_image_height: Some(2), max_alloc: Some(1000) };
    assert!(decoder.set_limits(loose).is_ok());
}

#[test]
fn gamma_from_srgb_chunk() {
    let bytes = encode_with(1, 1, png::ColorType::Rgb, png::BitDepth::Eight, &[1, 2, 3], |e| {
        e.set_source_srgb(png::SrgbRenderingIntent::Perceptual);
    });
    let decoder = PngDecoder::new(bytes).ok().unwrap();
    assert_eq!(decoder.gamma_value_scaled().ok().unwrap(), Some(45455));
}

#[test]
fn gamma_from_gama_chunk_and_absent() {
    let bytes = encode_with(1, 1, png::ColorType::Rgb, png::BitDepth::Eight, &[1, 2, 3], |e| {
        e.set_source_gamma(png::ScaledFloat::from_scaled(50000));
    });
    let decoder = PngDecoder::new(bytes).ok().unwrap();
    assert_eq!(decoder.gamma_value_scaled().ok().unwrap(), Some(50000));
    let plain = encode(1, 1, png::ColorType::Rgb, png::BitDepth::Eight, &[1, 2, 3]);
    assert_eq!(PngDecoder::new(plain).ok().unwrap().gamma_value_scaled().ok().unwrap(), None);
}

#[test]
fn animation_is_detected() {
    let plain = encode(1, 1, png::ColorType::Rgb, png::BitDepth::Eight, &[1, 2, 3]);
    assert!(!PngDecoder::new(plain).ok().unwrap().is_apng().ok().unwrap());
    let animated = encode_with(1, 1, png::ColorType::Rgb, png::BitDepth::Eight, &[1, 2, 3], |e| {
        e.set_animated(1, 0).unwrap();
    });
    assert!(PngDecoder::new(animated).ok().unwrap().is_apng().ok().unwrap());
}

#[test]
fn metadata_is_absent_when_not_written() {
    let plain = encode(1, 1, png::ColorType::Rgb, png::BitDepth::Eight, &[1, 2, 3]);
    let mut decoder = PngDecoder::new(plain).ok().unwrap();
    assert_eq!(decoder.icc_profile().ok().unwrap(), None);
    assert_eq!(decoder.exif_metadata().ok().unwrap(), None);
}

#[test]
fn supported_color_types() {
    assert_eq!(color_type_from_png(PngColorType::Grayscale, PngBitDepth::Eight), Ok(ColorType::L8));
    assert_eq!(color_type_from_png(PngColorType::Grayscale, PngBitDepth::Sixteen), Ok(ColorType::L16));
    assert_eq!(color_type_from_png(PngColorType::GrayscaleAlpha, PngBitDepth::Eight), Ok(ColorType::La8));
    assert_eq!(color_type_from_png(PngColorType::GrayscaleAlpha, PngBitDepth::Sixteen), Ok(ColorType::La16));
    assert_eq!(color_type_from_png(PngColorType::Rgb, PngBitDepth::Eight), Ok(ColorType::Rgb8));
    assert_eq!(color_type_from_png(PngColorType::Rgb, PngBitDepth::Sixteen), Ok(ColorType::Rgb16));
    assert_eq!(color_type_from_png(PngColorType::Rgba, PngBitDepth::Eight), Ok(ColorType::Rgba8));
    assert_eq!(color_type_from_png(PngColorType::Rgba, PngBitDepth::Sixteen), Ok(ColorType::Rgba16));
}

#[test]
fn unsupported_color_types() {
    assert_eq!(color_type_from_png(PngColorType::Grayscale, PngBitDepth::One), Err(ExtendedColorType::L1));
    assert_eq!(color_type_from_png(PngColorType::GrayscaleAlpha, PngBitDepth::Two), Err(ExtendedColorType::La2));
    assert_eq!(color_type_from_png(PngColorType::Rgb, PngBitDepth::Four), Err(ExtendedColorType::Rgb4));
    assert_eq!(color_type_from_png(PngColorType::Rgba, PngBitDepth::One), Err(ExtendedColorType::Rgba1));
    assert_eq!(color_type_from_png(PngColorType::Indexed, PngBitDepth::Eight), Err(ExtendedColorType::Unknown(8)));
    assert_eq!(color_type_from_png(PngColorType::Indexed, PngBitDepth::Two), Err(ExtendedColorType::Unknown(2)));
    assert!(matches!(
        unsupported_color(ExtendedColorType::L4),
        ImageError::Unsupported(ExtendedColorType::L4)
    ));
}

#[test]
fn bytes_and_channels_per_pixel() {
    assert_eq!(ColorType::L8.bytes_per_pixel(), 1);
    assert_eq!(ColorType::La16.bytes_per_pixel(), 4);
    assert_eq!(ColorType::Rgb16.bytes_per_pixel(), 6);
    assert_eq!(ColorType::Rgba16.channel_count(), 4);
    assert_eq!(ColorType::La8.channel_count(), 2);
}

#[test]
fn png_errors_by_kind() {
    let e = || png::DecodingError::LimitsExceeded;
    assert!(matches!(image_error_from_png_kind(PngErrorKind::Io, e()), ImageError::IoError(_)));
    assert!(matches!(image_error_from_png_kind(PngErrorKind::Format, e()), ImageError::Decoding(_)));
    assert!(matches!(image_error_from_png_kind(PngErrorKind::Parameter, e()), ImageError::Parameter(_)));
    assert!(matches!(
        image_error_from_png_kind(PngErrorKind::LimitsExceeded, e()),
        ImageError::Limits(LimitErrorKind::InsufficientMemory)
    ));
}

#[test]
fn limit_checks() {
    let none = Limits::no_limits();
    assert!(none.check_dimensions(u32::MAX, u32::MAX).is_ok());
    assert_eq!(none.max_alloc_bytes(), usize::MAX);
    let some = Limits { max_image_width: Some(10), max_image_height: Some(20), max_alloc: Some(5) };
    assert!(some.check_dimensions(10, 20).is_ok());
    assert!(some.check_dimensions(11, 20).is_err());
    assert!(some.check_dimensions(10, 21).is_err());
    assert_eq!(some.max_alloc_bytes(), 5);
    assert!(some.check_support().is_ok());
}

#[test]
fn big_endian_pairs_become_native() {
    let mut buf = [0x12, 0x34, 0xab, 0xcd, 0x77];
    big_endian_to_native(&mut buf);
    assert_eq!(u16::from_ne_bytes([buf[0], buf[1]]), 0x1234);
    assert_eq!(u16::from_ne_bytes([buf[2], buf[3]]), 0xabcd);
    assert_eq!(buf[4], 0x77);
}

#[test]
fn checksums_are_not_checked() {
    let data = [9, 8, 7, 6];
    let mut bytes = encode(1, 1, png::ColorType::Rgba, png::BitDepth::Eight, &data);
    // the CRC of the IHDR chunk: signature (8), length (4), type (4), data (13)
    bytes[29] ^= 0xff;
    let decoder = PngDecoder::new(bytes).ok().unwrap();
    assert_eq!(decode_all(decoder), data.to_vec());
}

#[test]
fn truncated_image_data_fails_to_decode() {
    let data: Vec<u8> = (0..64u8).collect();
    let mut bytes = encode(4, 4, png::ColorType::Rgba, png::BitDepth::Eight, &data);
    // drop the end of the image data and the IEND chunk
    bytes.truncate(bytes.len() - 20);
    let decoder = PngDecoder::new(bytes).ok().unwrap();
    let mut buf = vec![0u8; decoder.total_bytes() as usize];
    assert!(decoder.read_image(&mut buf).is_err());
}
