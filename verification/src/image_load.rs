//! Loading an image for a texture: the bytes of a PNG file are decoded, the
//! decoded samples are turned into 8-bit RGBA pixels by the `image` crate's
//! colour conversion, and the result is fitted into the texture size limit.
use image::{DynamicImage, ImageBuffer};
use vstd::prelude::*;
use crate::image_fit::{
    fit_outcome, fit_to_max_size, fits, resample_fits_in_memory, scaled_size, FittedImage,
    RgbaImage,
};
use crate::png_backend::{
    all_encoded_in, encodes_u16_in, png_frame, png_header, png_open, read_u16s_native,
};
use crate::png_decoder::{
    big_endian_sample, is_png_error_of_kind, lemma_bytes_per_channel, native_samples_of,
    samples_in_order, spec_bytes_per_pixel, spec_channel_count, spec_decoder_settings,
    spec_png_color_type, spec_read_options, spec_total_bytes, with_limits_outcome, ColorType,
    ImageError, LimitErrorKind, Limits, PngDecoder,
};

verus! {

/// Whether a colour type has one byte per sample.
pub open spec fn is_eight_bit(color: ColorType) -> bool {
    ||| color == ColorType::L8
    ||| color == ColorType::La8
    ||| color == ColorType::Rgb8
    ||| color == ColorType::Rgba8
}

/// The RGBA pixels that `image::DynamicImage::to_rgba8` gives for an image of
/// the given 8-bit colour type and size with these samples (in the sRGB
/// colour space that `ImageBuffer::from_raw` gives).
pub uninterp spec fn rgba8_from_bytes(
    color: ColorType,
    width: u32,
    height: u32,
    samples: Seq<u8>,
) -> Seq<u8>;

/// The RGBA pixels that `image::DynamicImage::to_rgba8` gives for an image of
/// the given 16-bit colour type and size with these samples (in the sRGB
/// colour space that `ImageBuffer::from_raw` gives).
pub uninterp spec fn rgba8_from_words(
    color: ColorType,
    width: u32,
    height: u32,
    samples: Seq<u16>,
) -> Seq<u8>;

/// Builds the `image::DynamicImage` of an 8-bit colour type over `samples`
/// with `ImageBuffer::from_raw` (which accepts exactly enough samples) and
/// calls `to_rgba8` on it. The result has four bytes per pixel; building it
/// allocates them.
#[verifier::external_body]
fn rgba8_of_bytes(color: ColorType, width: u32, height: u32, samples: Vec<u8>) -> (pixels: Vec<u8>)
    requires
        is_eight_bit(color),
        samples@.len() == width * height * spec_channel_count(color),
        width * height * 4 <= isize::MAX,
    ensures
        pixels@ == rgba8_from_bytes(color, width, height, samples@),
        pixels@.len() == width * height * 4,
{
    let image = match color {
        ColorType::L8 => DynamicImage::ImageLuma8(ImageBuffer::from_raw(width, height, samples).unwrap()),
        ColorType::La8 => DynamicImage::ImageLumaA8(ImageBuffer::from_raw(width, height, samples).unwrap()),
        ColorType::Rgb8 => DynamicImage::ImageRgb8(ImageBuffer::from_raw(width, height, samples).unwrap()),
        _ => DynamicImage::ImageRgba8(ImageBuffer::from_raw(width, height, samples).unwrap()),
    };
    image.to_rgba8().into_raw()
}

/// Builds the `image::DynamicImage` of a 16-bit colour type over `samples`
/// with `ImageBuffer::from_raw` (which accepts exactly enough samples) and
/// calls `to_rgba8` on it. The result has four bytes per pixel; building it
/// allocates them.
#[verifier::external_body]
fn rgba8_of_words(color: ColorType, width: u32, height: u32, samples: Vec<u16>) -> (pixels: Vec<u8>)
    requires
        !is_eight_bit(color),
        samples@.len() == width * height * spec_channel_count(color),
        width * height * 4 <= isize::MAX,
    ensures
        pixels@ == rgba8_from_words(color, width, height, samples@),
        pixels@.len() == width * height * 4,
{
    let image = match color {
        ColorType::L16 => DynamicImage::ImageLuma16(ImageBuffer::from_raw(width, height, samples).unwrap()),
        ColorType::La16 => DynamicImage::ImageLumaA16(ImageBuffer::from_raw(width, height, samples).unwrap()),
        ColorType::Rgb16 => DynamicImage::ImageRgb16(ImageBuffer::from_raw(width, height, samples).unwrap()),
        _ => DynamicImage::ImageRgba16(ImageBuffer::from_raw(width, height, samples).unwrap()),
    };
    image.to_rgba8().into_raw()
}

/// A 16-bit value with its two bytes exchanged.
pub open spec fn swapped_u16(value: int) -> int {
    (value % 256) * 256 + value / 256
}

/// The 16-bit samples of a decoded frame (big-endian pairs of bytes), or, if
/// `swapped`, each with its two bytes exchanged.
pub open spec fn frame_words(frame: Seq<u8>, swapped: bool) -> Seq<u16> {
    Seq::new(
        frame.len() / 2,
        |k: int|
            if swapped {
                swapped_u16(big_endian_sample(frame, k)) as u16
            } else {
                big_endian_sample(frame, k) as u16
            },
    )
}

/// Whether `pixels` are the RGBA pixels of a decoded frame of the given
/// colour type and size. 16-bit samples go to the conversion in the
/// machine's byte order; as that order is not known here, the samples are
/// those of the frame, or all of them with their bytes exchanged.
pub open spec fn rgba_of_frame(
    color: ColorType,
    width: u32,
    height: u32,
    frame: Seq<u8>,
    pixels: Seq<u8>,
) -> bool {
    if is_eight_bit(color) {
        pixels == rgba8_from_bytes(color, width, height, frame)
    } else {
        exists|swapped: bool|
            pixels == rgba8_from_words(color, width, height, #[trigger] frame_words(frame, swapped))
    }
}

/// Whether the buffers of decoding and of the RGBA conversion can be
/// allocated: the decoded samples (at most `isize::MAX` bytes, as
/// `image::DynamicImage::from_decoder` demands) and four bytes per pixel.
pub open spec fn decode_fits_in_memory(width: u32, height: u32, color: ColorType) -> bool {
    &&& spec_total_bytes(width, height, color) <= isize::MAX
    &&& width * height * 4 <= isize::MAX
}

/// No limits on decoding.
pub open spec fn no_limits() -> Limits {
    Limits { max_image_width: None, max_image_height: None, max_alloc: None }
}

/// What decoding the bytes of a PNG file to RGBA pixels gives: the error of
/// `png` where the header or the metadata cannot be read; an unsupported
/// colour error where the samples are not of 8 or 16 bits (which EXPAND
/// rules out); a lack of memory where the buffers cannot be allocated; the
/// error of `png` where the image data cannot be decoded; and otherwise an
/// image of the header's size whose pixels are the RGBA conversion of the
/// decoded frame.
pub open spec fn decode_rgba_outcome(bytes: Seq<u8>, result: Result<RgbaImage, ImageError>) -> bool {
    let settings = spec_decoder_settings(no_limits());
    match png_header(bytes, spec_read_options(no_limits())) {
        Err(kind) => result matches Err(error) && is_png_error_of_kind(error, kind),
        Ok((width, height)) => match png_open(bytes, settings) {
            Err(kind) => result matches Err(error) && is_png_error_of_kind(error, kind),
            Ok(()) => match spec_png_color_type(bytes, settings) {
                Err(color) => result matches Err(ImageError::Unsupported(c)) && c == color,
                Ok(color) => if !decode_fits_in_memory(width, height, color) {
                    result matches Err(ImageError::Limits(LimitErrorKind::InsufficientMemory))
                } else {
                    match png_frame(bytes, settings, spec_total_bytes(width, height, color) as usize) {
                        Err(kind) => result matches Err(error) && is_png_error_of_kind(error, kind),
                        Ok(frame) => result matches Ok(image) && {
                            &&& image.width == width
                            &&& image.height == height
                            &&& rgba_of_frame(color, width, height, frame, image.pixels@)
                        },
                    }
                },
            },
        },
    }
}

/// `a * b`, without overflow.
fn area(a: u32, b: u32) -> (product: u128)
    ensures
        product == a * b,
        product <= 0xffff_ffff * 0xffff_ffffu128,
{
    assert((a as u128) * (b as u128) <= 0xffff_ffff * 0xffff_ffffu128) by (nonlinear_arith)
        requires
            a <= 0xffff_ffffu32,
            b <= 0xffff_ffffu32,
    ;
    (a as u128) * (b as u128)
}

/// The two bytes of a 16-bit value read in two byte orders give the value,
/// or the value with its bytes exchanged.
proof fn lemma_reencoded(first_order: bool, second_order: bool, b0: u8, b1: u8, v1: int, v2: int)
    requires
        0 <= v1 < 0x1_0000,
        0 <= v2 < 0x1_0000,
        encodes_u16_in(first_order, b0, b1, v1),
        encodes_u16_in(second_order, b0, b1, v2),
    ensures
        v2 == if first_order == second_order {
            v1
        } else {
            swapped_u16(v1)
        },
{
}

/// Decodes the bytes of a PNG file, without limits, into RGBA pixels (see
/// [`decode_rgba_outcome`]): the decoder's samples go through the `image`
/// crate's conversion to 8-bit RGBA.
pub fn decode_rgba(bytes: Vec<u8>) -> (result: Result<RgbaImage, ImageError>)
    ensures
        decode_rgba_outcome(bytes@, result),
        result matches Ok(image) ==> image.wf(),
{
    let ghost file = bytes@;
    let decoder = match PngDecoder::new(bytes) {
        Ok(decoder) => decoder,
        Err(error) => return Err(error),
    };
    assert(no_limits() == Limits { max_image_width: None, max_image_height: None, max_alloc: None });
    let (width, height) = decoder.dimensions();
    let color = decoder.color_type();
    let total = decoder.total_bytes();
    let per_pixel = color.bytes_per_pixel();
    let channels = color.channel_count();
    if total as u128 > isize::MAX as u128 || area(width, height) * 4 > isize::MAX as u128 {
        return Err(ImageError::Limits(LimitErrorKind::InsufficientMemory));
    }
    let mut buf: Vec<u8> = vec![0u8; total as usize];
    match decoder.read_image(buf.as_mut_slice()) {
        Ok(()) => {},
        Err(error) => return Err(error),
    }
    proof {
        lemma_bytes_per_channel(color);
    }
    let ghost frame = png_frame(file, spec_decoder_settings(no_limits()), total as usize)->Ok_0;
    assert(width * height * per_pixel == total) by (nonlinear_arith)
        requires
            total == spec_total_bytes(width, height, color),
            total <= isize::MAX,
            per_pixel == spec_bytes_per_pixel(color),
    ;
    if per_pixel == channels {
        assert(is_eight_bit(color));
        let pixels = rgba8_of_bytes(color, width, height, buf);
        Ok(RgbaImage { width, height, pixels })
    } else {
        assert(!is_eight_bit(color));
        assert(per_pixel == 2 * channels);
        let words = total / 2;
        let mut values: Vec<u16> = vec![0u16; words as usize];
        read_u16s_native(buf.as_slice(), &mut values);
        proof {
            let first = choose|little_endian: bool| #[trigger]
                samples_in_order(little_endian, buf@, frame);
            let second = choose|little_endian: bool| #[trigger]
                all_encoded_in(little_endian, buf@, values@);
            let swapped = first != second;
            assert forall|k: int| 0 <= k < values@.len() implies values@[k] == #[trigger] frame_words(
                frame,
                swapped,
            )[k] by {
                assert(encodes_u16_in(second, buf@[2 * k], buf@[2 * k + 1], values@[k] as int));
                assert(encodes_u16_in(first, buf@[2 * k], buf@[2 * k + 1], big_endian_sample(frame, k)));
                lemma_reencoded(first, second, buf@[2 * k], buf@[2 * k + 1], big_endian_sample(frame, k), values@[k] as int);
            }
            assert(values@ == frame_words(frame, swapped));
            assert(width * height * channels == words) by (nonlinear_arith)
                requires
                    width * height * per_pixel == total,
                    per_pixel == 2 * channels,
                    words == total / 2,
            ;
        }
        let pixels = rgba8_of_words(color, width, height, values);
        Ok(RgbaImage { width, height, pixels })
    }
}

/// Decodes the bytes of a PNG file into RGBA pixels and fits the image into
/// textures of at most `max_size` on each side: the decoding of
/// [`decode_rgba`], then [`fit_to_max_size`]; a lack of memory where the
/// resampling buffers cannot be allocated.
pub fn load_fitted(bytes: Vec<u8>, max_size: u32) -> (result: Result<FittedImage, ImageError>)
    ensures
        result is Ok <==> exists|image: RgbaImage|
            decode_rgba_outcome(bytes@, Ok(image)) && resample_fits_in_memory(
                image.width,
                image.height,
                max_size,
            ),
        result is Ok ==> exists|image: RgbaImage|
            decode_rgba_outcome(bytes@, Ok(image)) && #[trigger] fit_outcome(
                image,
                max_size,
                result->Ok_0,
            ),
        result matches Err(error) ==> decode_rgba_outcome(bytes@, Err(error)) || (error
            == ImageError::Limits(LimitErrorKind::InsufficientMemory) && exists|image: RgbaImage|
            decode_rgba_outcome(bytes@, Ok(image)) && !resample_fits_in_memory(
                image.width,
                image.height,
                max_size,
            )),
{
    let ghost file = bytes@;
    let image = match decode_rgba(bytes) {
        Ok(image) => image,
        Err(error) => return Err(error),
    };
    if !(image.width <= max_size && image.height <= max_size) {
        let (new_width, new_height) = scaled_size(image.width, image.height, max_size);
        if area(new_width, new_height) * 4 > isize::MAX as u128 || area(image.width, new_height)
            * 16 > isize::MAX as u128 {
            return Err(ImageError::Limits(LimitErrorKind::InsufficientMemory));
        }
    }
    assert(resample_fits_in_memory(image.width, image.height, max_size));
    let ghost decoded = image;
    let fitted = fit_to_max_size(image, max_size);
    assert(decode_rgba_outcome(file, Ok(decoded)) && fit_outcome(decoded, max_size, fitted));
    let result: Result<FittedImage, ImageError> = Ok(fitted);
    assert(fit_outcome(decoded, max_size, result->Ok_0));
    assert(exists|image: RgbaImage|
        decode_rgba_outcome(file, Ok(image)) && #[trigger] fit_outcome(image, max_size, result->Ok_0));
    result
}

} // verus!
