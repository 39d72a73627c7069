//! Decoding of PNG images (the Portable Network Graphics format, lossless):
//! the `png` crate reads the file, and this module decides which colour
//! types are supported, applies the decoding limits, puts errors into the
//! categories of `image::ImageError`, and puts 16-bit samples into the
//! machine's byte order.
//!
//! See <http://www.w3.org/TR/PNG/> for the format.
use vstd::prelude::*;
use crate::png_backend::{
    exif_metadata, frame_len, has_animation_control, icc_profile, ignore_checksums, next_frame,
    output_color_type, png_animated, png_exif, png_frame, png_gama_chunk, png_header,
    png_icc_profile, png_open, png_output_color, png_srgb, read_header_info, read_info, read_u16s_big_endian,
    samples_of_code, set_ignore_iccp_chunk, set_ignore_text_chunk, set_transformations,
    setup_with_limits, has_srgb_chunk, gama_chunk_scaled, write_u16s_native, all_encoded_in, encodes_u16_in,
    PngFailure, PngReadOptions, PngSettings, PngStream, PngTransformations,
};

verus! {

/// The first eight bytes of every PNG file
/// (<http://www.w3.org/TR/PNG-Structure.html>).
pub const PNG_SIGNATURE: [u8; 8] = [137, 80, 78, 71, 13, 10, 26, 10];

/// The gamma of the sRGB colour space, 0.45455, times 100000
/// (<https://www.w3.org/TR/2003/REC-PNG-20031110/#11sRGB>).
pub const SRGB_GAMMA_SCALED: u32 = 45455;

/// The colour type of PNG samples, as the `png` crate reports it.
#[derive(PartialEq, Eq, Structural, Clone, Copy, Debug)]
pub enum PngColorType {
    Grayscale,
    Rgb,
    Indexed,
    GrayscaleAlpha,
    Rgba,
}

/// The number of bits per sample, as the `png` crate reports it.
#[derive(PartialEq, Eq, Structural, Clone, Copy, Debug)]
pub enum PngBitDepth {
    One,
    Two,
    Four,
    Eight,
    Sixteen,
}

/// Whether `code` is a colour type code of the PNG specification.
pub open spec fn is_png_color_code(code: u8) -> bool {
    code == 0 || code == 2 || code == 3 || code == 4 || code == 6
}

/// Whether `code` is a bit depth of the PNG specification.
pub open spec fn is_png_depth_code(code: u8) -> bool {
    code == 1 || code == 2 || code == 4 || code == 8 || code == 16
}

/// The colour type with the given PNG code.
pub open spec fn spec_color_type_of_code(code: u8) -> PngColorType {
    if code == 0 {
        PngColorType::Grayscale
    } else if code == 2 {
        PngColorType::Rgb
    } else if code == 3 {
        PngColorType::Indexed
    } else if code == 4 {
        PngColorType::GrayscaleAlpha
    } else {
        PngColorType::Rgba
    }
}

/// The colour type with the given PNG code (0 grey, 2 RGB, 3 palette,
/// 4 grey with alpha, 6 RGBA).
pub fn color_type_of_code(code: u8) -> (color: PngColorType)
    requires
        is_png_color_code(code),
    ensures
        color == spec_color_type_of_code(code),
{
    if code == 0 {
        PngColorType::Grayscale
    } else if code == 2 {
        PngColorType::Rgb
    } else if code == 3 {
        PngColorType::Indexed
    } else if code == 4 {
        PngColorType::GrayscaleAlpha
    } else {
        PngColorType::Rgba
    }
}

/// The bit depth with the given number of bits.
pub open spec fn spec_depth_of_code(code: u8) -> PngBitDepth {
    if code == 1 {
        PngBitDepth::One
    } else if code == 2 {
        PngBitDepth::Two
    } else if code == 4 {
        PngBitDepth::Four
    } else if code == 8 {
        PngBitDepth::Eight
    } else {
        PngBitDepth::Sixteen
    }
}

/// The bit depth with the given number of bits.
pub fn bit_depth_of_code(code: u8) -> (depth: PngBitDepth)
    requires
        is_png_depth_code(code),
    ensures
        depth == spec_depth_of_code(code),
        spec_bits(depth) == code,
{
    if code == 1 {
        PngBitDepth::One
    } else if code == 2 {
        PngBitDepth::Two
    } else if code == 4 {
        PngBitDepth::Four
    } else if code == 8 {
        PngBitDepth::Eight
    } else {
        PngBitDepth::Sixteen
    }
}

/// The number of bits of a bit depth.
pub open spec fn spec_bits(depth: PngBitDepth) -> u8 {
    match depth {
        PngBitDepth::One => 1,
        PngBitDepth::Two => 2,
        PngBitDepth::Four => 4,
        PngBitDepth::Eight => 8,
        PngBitDepth::Sixteen => 16,
    }
}

/// The number of bits of a bit depth.
pub fn bits(depth: PngBitDepth) -> (b: u8)
    ensures
        b == spec_bits(depth),
{
    match depth {
        PngBitDepth::One => 1,
        PngBitDepth::Two => 2,
        PngBitDepth::Four => 4,
        PngBitDepth::Eight => 8,
        PngBitDepth::Sixteen => 16,
    }
}

/// The colour types that the decoder hands out (those of `image::ColorType`
/// with 8 or 16 bits per channel).
#[derive(PartialEq, Eq, Structural, Clone, Copy, Debug)]
pub enum ColorType {
    L8,
    La8,
    Rgb8,
    Rgba8,
    L16,
    La16,
    Rgb16,
    Rgba16,
}

/// The colour types that PNG can describe but the decoder does not support
/// (those of `image::ExtendedColorType` that it reports).
#[derive(PartialEq, Eq, Structural, Clone, Copy, Debug)]
pub enum ExtendedColorType {
    L1,
    La1,
    Rgb1,
    Rgba1,
    L2,
    La2,
    Rgb2,
    Rgba2,
    L4,
    La4,
    Rgb4,
    Rgba4,
    /// A colour type of this many bits that has no name here.
    Unknown(u8),
}

/// The number of bytes of one pixel.
pub open spec fn spec_bytes_per_pixel(color: ColorType) -> u8 {
    match color {
        ColorType::L8 => 1,
        ColorType::La8 | ColorType::L16 => 2,
        ColorType::Rgb8 => 3,
        ColorType::Rgba8 | ColorType::La16 => 4,
        ColorType::Rgb16 => 6,
        ColorType::Rgba16 => 8,
    }
}

/// The number of channels of one pixel.
pub open spec fn spec_channel_count(color: ColorType) -> u8 {
    match color {
        ColorType::L8 | ColorType::L16 => 1,
        ColorType::La8 | ColorType::La16 => 2,
        ColorType::Rgb8 | ColorType::Rgb16 => 3,
        ColorType::Rgba8 | ColorType::Rgba16 => 4,
    }
}

impl ColorType {
    /// The number of bytes of one pixel (as `image::ColorType::bytes_per_pixel`).
    pub fn bytes_per_pixel(self) -> (n: u8)
        ensures
            n == spec_bytes_per_pixel(self),
    {
        match self {
            ColorType::L8 => 1,
            ColorType::La8 | ColorType::L16 => 2,
            ColorType::Rgb8 => 3,
            ColorType::Rgba8 | ColorType::La16 => 4,
            ColorType::Rgb16 => 6,
            ColorType::Rgba16 => 8,
        }
    }

    /// The number of channels of one pixel (as `image::ColorType::channel_count`).
    pub fn channel_count(self) -> (n: u8)
        ensures
            n == spec_channel_count(self),
    {
        match self {
            ColorType::L8 | ColorType::L16 => 1,
            ColorType::La8 | ColorType::La16 => 2,
            ColorType::Rgb8 | ColorType::Rgb16 => 3,
            ColorType::Rgba8 | ColorType::Rgba16 => 4,
        }
    }
}

/// The colour type of the decoded image for each colour type and bit depth
/// that the `png` crate reports, or the unsupported colour type.
pub open spec fn spec_color_type_from_png(color: PngColorType, depth: PngBitDepth) -> Result<
    ColorType,
    ExtendedColorType,
> {
    match (color, depth) {
        (PngColorType::Grayscale, PngBitDepth::Eight) => Ok(ColorType::L8),
        (PngColorType::Grayscale, PngBitDepth::Sixteen) => Ok(ColorType::L16),
        (PngColorType::GrayscaleAlpha, PngBitDepth::Eight) => Ok(ColorType::La8),
        (PngColorType::GrayscaleAlpha, PngBitDepth::Sixteen) => Ok(ColorType::La16),
        (PngColorType::Rgb, PngBitDepth::Eight) => Ok(ColorType::Rgb8),
        (PngColorType::Rgb, PngBitDepth::Sixteen) => Ok(ColorType::Rgb16),
        (PngColorType::Rgba, PngBitDepth::Eight) => Ok(ColorType::Rgba8),
        (PngColorType::Rgba, PngBitDepth::Sixteen) => Ok(ColorType::Rgba16),
        (PngColorType::Grayscale, PngBitDepth::One) => Err(ExtendedColorType::L1),
        (PngColorType::GrayscaleAlpha, PngBitDepth::One) => Err(ExtendedColorType::La1),
        (PngColorType::Rgb, PngBitDepth::One) => Err(ExtendedColorType::Rgb1),
        (PngColorType::Rgba, PngBitDepth::One) => Err(ExtendedColorType::Rgba1),
        (PngColorType::Grayscale, PngBitDepth::Two) => Err(ExtendedColorType::L2),
        (PngColorType::GrayscaleAlpha, PngBitDepth::Two) => Err(ExtendedColorType::La2),
        (PngColorType::Rgb, PngBitDepth::Two) => Err(ExtendedColorType::Rgb2),
        (PngColorType::Rgba, PngBitDepth::Two) => Err(ExtendedColorType::Rgba2),
        (PngColorType::Grayscale, PngBitDepth::Four) => Err(ExtendedColorType::L4),
        (PngColorType::GrayscaleAlpha, PngBitDepth::Four) => Err(ExtendedColorType::La4),
        (PngColorType::Rgb, PngBitDepth::Four) => Err(ExtendedColorType::Rgb4),
        (PngColorType::Rgba, PngBitDepth::Four) => Err(ExtendedColorType::Rgba4),
        (PngColorType::Indexed, depth) => Err(ExtendedColorType::Unknown(spec_bits(depth))),
    }
}

/// Maps the colour type and bit depth of the decoded samples to the colour
/// type of the image; only 8 and 16 bits per channel, and no palette, are
/// supported.
pub fn color_type_from_png(color: PngColorType, depth: PngBitDepth) -> (result: Result<
    ColorType,
    ExtendedColorType,
>)
    ensures
        result == spec_color_type_from_png(color, depth),
{
    match (color, depth) {
        (PngColorType::Grayscale, PngBitDepth::Eight) => Ok(ColorType::L8),
        (PngColorType::Grayscale, PngBitDepth::Sixteen) => Ok(ColorType::L16),
        (PngColorType::GrayscaleAlpha, PngBitDepth::Eight) => Ok(ColorType::La8),
        (PngColorType::GrayscaleAlpha, PngBitDepth::Sixteen) => Ok(ColorType::La16),
        (PngColorType::Rgb, PngBitDepth::Eight) => Ok(ColorType::Rgb8),
        (PngColorType::Rgb, PngBitDepth::Sixteen) => Ok(ColorType::Rgb16),
        (PngColorType::Rgba, PngBitDepth::Eight) => Ok(ColorType::Rgba8),
        (PngColorType::Rgba, PngBitDepth::Sixteen) => Ok(ColorType::Rgba16),
        (PngColorType::Grayscale, PngBitDepth::One) => Err(ExtendedColorType::L1),
        (PngColorType::GrayscaleAlpha, PngBitDepth::One) => Err(ExtendedColorType::La1),
        (PngColorType::Rgb, PngBitDepth::One) => Err(ExtendedColorType::Rgb1),
        (PngColorType::Rgba, PngBitDepth::One) => Err(ExtendedColorType::Rgba1),
        (PngColorType::Grayscale, PngBitDepth::Two) => Err(ExtendedColorType::L2),
        (PngColorType::GrayscaleAlpha, PngBitDepth::Two) => Err(ExtendedColorType::La2),
        (PngColorType::Rgb, PngBitDepth::Two) => Err(ExtendedColorType::Rgb2),
        (PngColorType::Rgba, PngBitDepth::Two) => Err(ExtendedColorType::Rgba2),
        (PngColorType::Grayscale, PngBitDepth::Four) => Err(ExtendedColorType::L4),
        (PngColorType::GrayscaleAlpha, PngBitDepth::Four) => Err(ExtendedColorType::La4),
        (PngColorType::Rgb, PngBitDepth::Four) => Err(ExtendedColorType::Rgb4),
        (PngColorType::Rgba, PngBitDepth::Four) => Err(ExtendedColorType::Rgba4),
        (PngColorType::Indexed, depth) => Err(ExtendedColorType::Unknown(bits(depth))),
    }
}

/// How the `png` crate failed.
#[derive(PartialEq, Eq, Structural, Clone, Copy, Debug)]
pub enum PngErrorKind {
    /// The underlying reader failed.
    Io,
    /// The input is not a valid PNG file.
    Format,
    /// The decoder was used wrongly (asked for a frame after the last one, or
    /// given a buffer of the wrong size).
    Parameter,
    /// Decoding would allocate more than the limit allows.
    LimitsExceeded,
}

/// Why a limit stopped decoding.
#[derive(PartialEq, Eq, Structural, Clone, Copy, Debug)]
pub enum LimitErrorKind {
    /// The image is wider or taller than the limits allow.
    DimensionError,
    /// Decoding needs more memory than the limits allow.
    InsufficientMemory,
    /// A strict limit is set that the decoder cannot keep.
    Unsupported,
}

/// The errors of the decoder, in the categories of `image::ImageError`.
pub enum ImageError {
    /// The underlying reader failed; the `png` error holds the I/O error.
    IoError(png::DecodingError),
    /// The input is not a valid PNG file.
    Decoding(png::DecodingError),
    /// The decoder was used wrongly.
    Parameter(png::DecodingError),
    /// A limit stopped decoding.
    Limits(LimitErrorKind),
    /// The image has a colour type that the decoder does not support.
    Unsupported(ExtendedColorType),
}

/// The error that the decoder reports for a `png` error of the given kind.
pub open spec fn spec_image_error_from_png(kind: PngErrorKind, error: png::DecodingError) -> ImageError {
    match kind {
        PngErrorKind::Io => ImageError::IoError(error),
        PngErrorKind::Format => ImageError::Decoding(error),
        PngErrorKind::Parameter => ImageError::Parameter(error),
        PngErrorKind::LimitsExceeded => ImageError::Limits(LimitErrorKind::InsufficientMemory),
    }
}

/// Puts a `png` error of the given kind in its category: I/O errors stay
/// I/O errors, an invalid file is a decoding error, misuse is a parameter
/// error, and an exceeded allocation limit is a lack of memory.
pub fn image_error_from_png_kind(kind: PngErrorKind, error: png::DecodingError) -> (result:
    ImageError)
    ensures
        result == spec_image_error_from_png(kind, error),
{
    match kind {
        PngErrorKind::Io => ImageError::IoError(error),
        PngErrorKind::Format => ImageError::Decoding(error),
        PngErrorKind::Parameter => ImageError::Parameter(error),
        PngErrorKind::LimitsExceeded => ImageError::Limits(LimitErrorKind::InsufficientMemory),
    }
}

/// Converts an error of the `png` crate into an error of the decoder, by its
/// kind (see [`image_error_from_png_kind`]).
pub fn image_error_from_png(failure: PngFailure) -> (result: ImageError)
    ensures
        result == spec_image_error_from_png(failure.kind, failure.error),
{
    image_error_from_png_kind(failure.kind, failure.error)
}

/// The error for an unsupported colour type.
pub fn unsupported_color(color: ExtendedColorType) -> (result: ImageError)
    ensures
        result == ImageError::Unsupported(color),
{
    ImageError::Unsupported(color)
}

/// Limits on decoding (as `image::Limits`).
#[derive(PartialEq, Eq, Structural, Clone, Copy, Debug)]
pub struct Limits {
    /// The largest width allowed, if any.
    pub max_image_width: Option<u32>,
    /// The largest height allowed, if any.
    pub max_image_height: Option<u32>,
    /// The most bytes that the decoder may allocate, if limited.
    pub max_alloc: Option<u64>,
}

/// Whether an image of this size is within the width and height limits.
pub open spec fn spec_dimensions_allowed(limits: Limits, width: u32, height: u32) -> bool {
    &&& (limits.max_image_width matches Some(max_width) ==> width <= max_width)
    &&& (limits.max_image_height matches Some(max_height) ==> height <= max_height)
}

/// The allocation limit handed to the `png` crate: the `max_alloc` limit
/// (none meaning `u64::MAX`), cut down to `usize::MAX`.
pub open spec fn spec_max_alloc_bytes(limits: Limits) -> int {
    let max_alloc: int = match limits.max_alloc {
        Some(max_alloc) => max_alloc as int,
        None => u64::MAX as int,
    };
    if max_alloc <= usize::MAX {
        max_alloc
    } else {
        usize::MAX as int
    }
}

impl Limits {
    /// No limits at all.
    pub fn no_limits() -> (limits: Limits)
        ensures
            limits.max_image_width is None,
            limits.max_image_height is None,
            limits.max_alloc is None,
    {
        Limits { max_image_width: None, max_image_height: None, max_alloc: None }
    }

    /// Checks that the decoder can keep every strict limit that is set; the
    /// width and height limits, the only strict ones, it always can.
    pub fn check_support(&self) -> (result: Result<(), ImageError>)
        ensures
            result is Ok,
    {
        Ok(())
    }

    /// Checks the width and height limits against the size of an image.
    pub fn check_dimensions(&self, width: u32, height: u32) -> (result: Result<(), ImageError>)
        ensures
            result is Ok <==> spec_dimensions_allowed(*self, width, height),
            result is Err ==> result == Err::<(), ImageError>(
                ImageError::Limits(LimitErrorKind::DimensionError),
            ),
    {
        if let Some(max_width) = self.max_image_width {
            if width > max_width {
                return Err(ImageError::Limits(LimitErrorKind::DimensionError));
            }
        }
        if let Some(max_height) = self.max_image_height {
            if height > max_height {
                return Err(ImageError::Limits(LimitErrorKind::DimensionError));
            }
        }
        Ok(())
    }

    /// The allocation limit for the `png` crate (see [`spec_max_alloc_bytes`]).
    pub fn max_alloc_bytes(&self) -> (bytes: usize)
        ensures
            bytes == spec_max_alloc_bytes(*self),
    {
        let max_alloc: u64 = match self.max_alloc {
            Some(max_alloc) => max_alloc,
            None => u64::MAX,
        };
        if max_alloc as u128 <= usize::MAX as u128 {
            max_alloc as usize
        } else {
            usize::MAX
        }
    }
}

/// The number of bytes that a whole image takes: width times height times
/// the bytes of one pixel, or `u64::MAX` where that does not fit.
pub open spec fn spec_total_bytes(width: u32, height: u32, color: ColorType) -> int {
    let total = width * height * spec_bytes_per_pixel(color);
    if total <= u64::MAX {
        total
    } else {
        u64::MAX as int
    }
}

/// The reading options that the decoder hands to `png` under the given
/// limits: the allocation limit of [`spec_max_alloc_bytes`], text and ICC
/// chunks skipped, and no checksum checked.
pub open spec fn spec_read_options(limits: Limits) -> PngReadOptions {
    PngReadOptions {
        max_bytes: spec_max_alloc_bytes(limits) as usize,
        ignore_text_chunk: true,
        ignore_iccp_chunk: true,
        ignore_adler32: true,
        ignore_crc: true,
    }
}

/// The settings that the decoder hands to `png` under the given limits: the
/// reading options of [`spec_read_options`] and the `EXPAND`
/// transformation, which keeps 16-bit samples and expands fewer than 8 bits
/// to 8 and palettes to RGB or RGBA.
pub open spec fn spec_decoder_settings(limits: Limits) -> PngSettings {
    PngSettings { options: spec_read_options(limits), transformations: PngTransformations::Expand }
}

/// Whether `error` is the decoder's error for a `png` error of the given
/// kind (see [`spec_image_error_from_png`]).
pub open spec fn is_png_error_of_kind(error: ImageError, kind: PngErrorKind) -> bool {
    match kind {
        PngErrorKind::Io => error is IoError,
        PngErrorKind::Format => error is Decoding,
        PngErrorKind::Parameter => error is Parameter,
        PngErrorKind::LimitsExceeded => error == ImageError::Limits(LimitErrorKind::InsufficientMemory),
    }
}

/// The colour type of the image that `png` decodes from `bytes` with
/// `settings`, or the unsupported colour type.
pub open spec fn spec_png_color_type(bytes: Seq<u8>, settings: PngSettings) -> Result<
    ColorType,
    ExtendedColorType,
> {
    let (color, depth) = png_output_color(bytes, settings);
    spec_color_type_from_png(spec_color_type_of_code(color), spec_depth_of_code(depth))
}

/// What creating a decoder for `bytes` under `limits` gives: the error of
/// `png` where the header cannot be read; a dimension error where the
/// header's size exceeds the limits; the error of `png` where the metadata
/// cannot be read; an unsupported colour error where the samples are not of
/// 8 or 16 bits; and otherwise a decoder of the header's size and the
/// decoded colour type, over these bytes, with these limits and the settings
/// of [`spec_decoder_settings`].
pub open spec fn with_limits_outcome(
    bytes: Seq<u8>,
    limits: Limits,
    result: Result<PngDecoder, ImageError>,
) -> bool {
    let settings = spec_decoder_settings(limits);
    match png_header(bytes, spec_read_options(limits)) {
        Err(kind) => result matches Err(error) && is_png_error_of_kind(error, kind),
        Ok((width, height)) => if !spec_dimensions_allowed(limits, width, height) {
            result matches Err(ImageError::Limits(LimitErrorKind::DimensionError))
        } else {
            match png_open(bytes, settings) {
                Err(kind) => result matches Err(error) && is_png_error_of_kind(error, kind),
                Ok(()) => match spec_png_color_type(bytes, settings) {
                    Err(color) => result matches Err(ImageError::Unsupported(c)) && c == color,
                    Ok(color) => result matches Ok(decoder) && {
                        &&& decoder.spec_limits() == limits
                        &&& decoder.spec_bytes() == bytes
                        &&& decoder.spec_settings() == settings
                        &&& decoder.spec_width() == width
                        &&& decoder.spec_height() == height
                        &&& decoder.spec_color_type() == color
                    },
                },
            }
        },
    }
}

/// A PNG decoder over the bytes of a PNG file.
pub struct PngDecoder {
    color_type: ColorType,
    reader: PngStream,
    limits: Limits,
    width: u32,
    height: u32,
}

impl PngDecoder {
    /// The reader skips ICC chunks, and the size and colour type are those
    /// of the file.
    #[verifier::type_invariant]
    spec fn inv(self) -> bool {
        &&& self.reader.spec_settings().options.ignore_iccp_chunk
        &&& png_header(self.reader.spec_bytes(), self.reader.spec_settings().options) == Ok::<
            (u32, u32),
            PngErrorKind,
        >((self.width, self.height))
        &&& is_png_color_code(png_output_color(self.reader.spec_bytes(), self.reader.spec_settings()).0)
        &&& is_png_depth_code(png_output_color(self.reader.spec_bytes(), self.reader.spec_settings()).1)
        &&& spec_png_color_type(self.reader.spec_bytes(), self.reader.spec_settings()) == Ok::<
            ColorType,
            ExtendedColorType,
        >(self.color_type)
    }

    /// The colour type of the decoded image.
    pub closed spec fn spec_color_type(&self) -> ColorType {
        self.color_type
    }

    /// The limits that the decoder keeps.
    pub closed spec fn spec_limits(&self) -> Limits {
        self.limits
    }

    /// The width of the image.
    pub closed spec fn spec_width(&self) -> u32 {
        self.width
    }

    /// The height of the image.
    pub closed spec fn spec_height(&self) -> u32 {
        self.height
    }

    /// The bytes of the file.
    pub closed spec fn spec_bytes(&self) -> Seq<u8> {
        self.reader.spec_bytes()
    }

    /// The settings that `png` decodes the file with.
    pub closed spec fn spec_settings(&self) -> PngSettings {
        self.reader.spec_settings()
    }

    /// Creates a decoder for the bytes of a PNG file, without limits: it
    /// behaves as [`Self::with_limits`] with [`Limits::no_limits`].
    pub fn new(bytes: Vec<u8>) -> (result: Result<PngDecoder, ImageError>)
        ensures
            with_limits_outcome(
                bytes@,
                Limits { max_image_width: None, max_image_height: None, max_alloc: None },
                result,
            ),
    {
        Self::with_limits(bytes, Limits::no_limits())
    }

    /// Creates a decoder for the bytes of a PNG file, with the given limits
    /// (see [`with_limits_outcome`]). The decoder skips text and ICC chunks
    /// and does not check checksums; it expands samples of fewer than 8 bits
    /// to 8 bits and palettes to RGB or RGBA, and keeps 16-bit samples. So
    /// expanded, no PNG file gives an unsupported colour type.
    pub fn with_limits(bytes: Vec<u8>, limits: Limits) -> (result: Result<PngDecoder, ImageError>)
        ensures
            with_limits_outcome(bytes@, limits, result),
            !(result matches Err(ImageError::Unsupported(_))),
            result matches Ok(decoder) ==> spec_dimensions_allowed(
                limits,
                decoder.spec_width(),
                decoder.spec_height(),
            ),
    {
        limits.check_support()?;

        let ghost file = bytes@;
        let max_bytes = limits.max_alloc_bytes();
        let mut setup = setup_with_limits(bytes, max_bytes);

        set_ignore_text_chunk(&mut setup, true);
        set_ignore_iccp_chunk(&mut setup, true);
        ignore_checksums(&mut setup, true);
        assert(setup.spec_settings().options == spec_read_options(limits));

        let (mut setup, (width, height)) = match read_header_info(setup) {
            Ok(read) => read,
            Err(failure) => return Err(image_error_from_png(failure)),
        };
        limits.check_dimensions(width, height)?;

        // By default the png crate scales 16 bits per channel down to 8; EXPAND
        // keeps them, and still expands fewer than 8 bits to 8.
        set_transformations(&mut setup, PngTransformations::Expand);
        assert(setup.spec_settings() == spec_decoder_settings(limits));
        let reader = match read_info(setup) {
            Ok(reader) => reader,
            Err(failure) => return Err(image_error_from_png(failure)),
        };
        let (color_code, depth_code) = output_color_type(&reader);
        let source_color = color_type_of_code(color_code);
        let source_depth = bit_depth_of_code(depth_code);
        proof {
            lemma_supported_color_types(source_color, source_depth);
        }
        let color_type = match color_type_from_png(source_color, source_depth) {
            Ok(color_type) => color_type,
            Err(unsupported) => return Err(unsupported_color(unsupported)),
        };

        Ok(PngDecoder { color_type, reader, limits, width, height })
    }

    /// The gamma of the file, times 100000, or `None` where the file gives
    /// none. Where an sRGB chunk is present this is 0.45455 and the gAMA
    /// chunk is ignored, as the PNG standard recommends to decoders without
    /// colour management; otherwise it is the value of the gAMA chunk (as
    /// `png::Info::gamma` gives it).
    pub fn gamma_value_scaled(&self) -> (result: Result<Option<u32>, ImageError>)
        ensures
            result matches Ok(gamma) && gamma == if png_srgb(self.spec_bytes(), self.spec_settings()) {
                Some(SRGB_GAMMA_SCALED)
            } else {
                png_gama_chunk(self.spec_bytes(), self.spec_settings())
            },
    {
        proof {
            use_type_invariant(self);
        }
        if has_srgb_chunk(&self.reader) {
            Ok(Some(SRGB_GAMMA_SCALED))
        } else {
            Ok(gama_chunk_scaled(&self.reader))
        }
    }

    /// Whether the file holds an animation (an acTL chunk).
    pub fn is_apng(&self) -> (result: Result<bool, ImageError>)
        ensures
            result matches Ok(animated) && animated == png_animated(self.spec_bytes(), self.spec_settings()),
    {
        proof {
            use_type_invariant(self);
        }
        Ok(has_animation_control(&self.reader))
    }

    /// The width and height of the image.
    pub fn dimensions(&self) -> (size: (u32, u32))
        ensures
            size == (self.spec_width(), self.spec_height()),
    {
        (self.width, self.height)
    }

    /// The colour type of the decoded image.
    pub fn color_type(&self) -> (color: ColorType)
        ensures
            color == self.spec_color_type(),
    {
        self.color_type
    }

    /// The ICC profile of the image: always none, as the decoder skips ICC
    /// chunks.
    pub fn icc_profile(&mut self) -> (result: Result<Option<Vec<u8>>, ImageError>)
        ensures
            result matches Ok(None),
            png_icc_profile(old(self).spec_bytes(), old(self).spec_settings()) is None,
            *final(self) == *old(self),
    {
        proof {
            use_type_invariant(&*self);
        }
        Ok(icc_profile(&self.reader))
    }

    /// The Exif metadata of the image, if the file holds any.
    pub fn exif_metadata(&mut self) -> (result: Result<Option<Vec<u8>>, ImageError>)
        ensures
            result matches Ok(exif) && match exif {
                Some(e) => png_exif(old(self).spec_bytes(), old(self).spec_settings()) == Some(e@),
                None => png_exif(old(self).spec_bytes(), old(self).spec_settings()) is None,
            },
            *final(self) == *old(self),
    {
        proof {
            use_type_invariant(&*self);
        }
        Ok(exif_metadata(&self.reader))
    }

    /// The number of bytes of the whole decoded image (see [`spec_total_bytes`]).
    pub fn total_bytes(&self) -> (total: u64)
        ensures
            total == spec_total_bytes(self.spec_width(), self.spec_height(), self.spec_color_type()),
    {
        let width = self.width as u64;
        let height = self.height as u64;
        assert(width * height <= u64::MAX) by (nonlinear_arith)
            requires
                width <= u32::MAX,
                height <= u32::MAX,
        ;
        let pixels: u64 = width * height;
        let per_pixel: u64 = self.color_type.bytes_per_pixel() as u64;
        match pixels.checked_mul(per_pixel) {
            Some(total) => total,
            None => u64::MAX,
        }
    }

    /// Decodes the image into `buf`, which must hold exactly
    /// [`Self::total_bytes`] bytes: the frame that `png` decodes, as it is for
    /// 8-bit samples and with 16-bit samples in the machine's byte order (the
    /// contract: all in one and the same of the two byte orders).
    pub fn read_image(self, buf: &mut [u8]) -> (result: Result<(), ImageError>)
        requires
            old(buf)@.len() == spec_total_bytes(
                self.spec_width(),
                self.spec_height(),
                self.spec_color_type(),
            ),
        ensures
            final(buf)@.len() == old(buf)@.len(),
            ({
                let frame = png_frame(self.spec_bytes(), self.spec_settings(), old(buf)@.len() as usize);
                let color = self.spec_color_type();
                let per_channel = spec_bytes_per_pixel(color) / spec_channel_count(color);
                &&& result is Ok <==> frame is Ok
                &&& result matches Err(error) ==> frame matches Err(kind) && is_png_error_of_kind(
                    error,
                    kind,
                )
                &&& frame matches Ok(f) ==> {
                    &&& f.len() == old(buf)@.len()
                    &&& per_channel == 1 ==> final(buf)@ == f
                    &&& per_channel == 2 ==> native_samples_of(final(buf)@, f)
                }
            }),
    {
        proof {
            use_type_invariant(&self);
        }
        let ghost bytes = self.reader.spec_bytes();
        proof {
            let (c, d) = png_output_color(bytes, self.reader.spec_settings());
            lemma_frame_len_is_total(self.width, self.height, c, d, self.color_type);
        }
        let ghost settings = self.reader.spec_settings();
        let color_type = self.color_type;
        let ghost width = self.width;
        let ghost height = self.height;
        let reader = self.reader;
        match next_frame(reader, buf) {
            Ok(()) => {},
            Err(failure) => return Err(image_error_from_png(failure)),
        }
        proof {
            let f = png_frame(bytes, settings, old(buf)@.len() as usize)->Ok_0;
            let (c, d) = png_output_color(bytes, settings);
            lemma_frame_len_is_total(width, height, c, d, color_type);
            assert(f.len() == old(buf)@.len());
            assert(buf@.take(f.len() as int) == buf@);
        }
        // PNG samples are big-endian; samples of two bytes go into the machine's
        // order, as `read_image` promises.
        let bytes_per_channel = color_type.bytes_per_pixel() / color_type.channel_count();
        if bytes_per_channel == 2 {
            big_endian_to_native(buf);
        } else {
            assert(bytes_per_channel == 1);
        }
        Ok(())
    }

    /// Sets new limits, after checking that the decoder can keep them and that
    /// the image is within them; a refusal is a dimension error, and keeps the
    /// old limits.
    pub fn set_limits(&mut self, limits: Limits) -> (result: Result<(), ImageError>)
        ensures
            result is Ok <==> spec_dimensions_allowed(
                limits,
                old(self).spec_width(),
                old(self).spec_height(),
            ),
            result is Err ==> result matches Err(ImageError::Limits(LimitErrorKind::DimensionError)),
            result is Ok ==> final(self).spec_limits() == limits,
            result is Err ==> final(self).spec_limits() == old(self).spec_limits(),
            final(self).spec_color_type() == old(self).spec_color_type(),
            final(self).spec_width() == old(self).spec_width(),
            final(self).spec_height() == old(self).spec_height(),
            final(self).spec_bytes() == old(self).spec_bytes(),
            final(self).spec_settings() == old(self).spec_settings(),
    {
        proof {
            use_type_invariant(&*self);
        }
        limits.check_support()?;
        limits.check_dimensions(self.width, self.height)?;
        self.limits = limits;
        Ok(())
    }
}

/// For the colour types that the decoder hands out, samples have 8 or 16
/// bits, and the frame that `png` decodes takes exactly the bytes of
/// [`spec_total_bytes`] (where it fits in a `u64`).
proof fn lemma_frame_len_is_total(width: u32, height: u32, color_code: u8, depth_code: u8, color: ColorType)
    requires
        spec_color_type_from_png(spec_color_type_of_code(color_code), spec_depth_of_code(depth_code))
            == Ok::<ColorType, ExtendedColorType>(color),
        is_png_color_code(color_code),
        is_png_depth_code(depth_code),
    ensures
        depth_code == 8 || depth_code == 16,
        frame_len(width, height, color_code, depth_code) <= u64::MAX ==> frame_len(
            width,
            height,
            color_code,
            depth_code,
        ) == spec_total_bytes(width, height, color),
{
    let per_pixel = samples_of_code(color_code) * (depth_code / 8);
    assert(depth_code == 8 || depth_code == 16);
    assert(spec_bytes_per_pixel(color) == per_pixel);
    assert(width * height * samples_of_code(color_code) * (depth_code / 8) == width * height * per_pixel)
        by (nonlinear_arith)
        requires
            per_pixel == samples_of_code(color_code) * (depth_code / 8),
    ;
}

/// The value of the big-endian 16-bit sample at byte `2 * k`.
pub open spec fn big_endian_sample(bytes: Seq<u8>, k: int) -> int {
    bytes[2 * k] as int * 256 + bytes[2 * k + 1] as int
}

/// Whether every whole pair of bytes of `out` encodes the big-endian 16-bit
/// sample at the same place in `frame`, all pairs in the same byte order
/// (`little_endian` or not).
pub open spec fn samples_in_order(little_endian: bool, out: Seq<u8>, frame: Seq<u8>) -> bool {
    forall|k: int|
        0 <= k < frame.len() / 2 ==> encodes_u16_in(
            little_endian,
            #[trigger] out[2 * k],
            out[2 * k + 1],
            big_endian_sample(frame, k),
        )
}

/// Whether `out` holds the samples of `frame` in one of the two byte orders
/// (the machine's).
pub open spec fn native_samples_of(out: Seq<u8>, frame: Seq<u8>) -> bool {
    exists|little_endian: bool| #[trigger] samples_in_order(little_endian, out, frame)
}

/// Rewrites every whole pair of bytes, read as a big-endian 16-bit value, in
/// the machine's byte order, the same for every pair; an odd last byte stays
/// as it is.
pub fn big_endian_to_native(buf: &mut [u8])
    ensures
        final(buf)@.len() == old(buf)@.len(),
        native_samples_of(final(buf)@, old(buf)@),
        old(buf)@.len() % 2 == 1 ==> final(buf)@[old(buf)@.len() - 1] == old(buf)@[old(buf)@.len()
            - 1],
{
    let pairs = buf.len() / 2;
    let mut values: Vec<u16> = Vec::new();
    let mut k: usize = 0;
    while k < pairs
        invariant
            k <= pairs,
            values@.len() == k,
        decreases pairs - k,
    {
        values.push(0);
        k = k + 1;
    }
    read_u16s_big_endian(buf, &mut values);
    let ghost before = buf@;
    write_u16s_native(&values, buf);
    proof {
        let little_endian = choose|little_endian: bool|
            #[trigger] all_encoded_in(little_endian, buf@, values@);
        assert forall|j: int| 0 <= j < before.len() / 2 implies encodes_u16_in(
            little_endian,
            #[trigger] buf@[2 * j],
            buf@[2 * j + 1],
            big_endian_sample(before, j),
        ) by {
            assert(values@[j] as int == big_endian_sample(before, j));
        }
        assert(samples_in_order(little_endian, buf@, before));
    }
}

/// A colour type is supported exactly when it has no palette and 8 or 16
/// bits per sample; an unsupported one is reported with its bit depth.
pub proof fn lemma_supported_color_types(color: PngColorType, depth: PngBitDepth)
    ensures
        spec_color_type_from_png(color, depth) is Ok <==> (color != PngColorType::Indexed && (depth
            == PngBitDepth::Eight || depth == PngBitDepth::Sixteen)),
        spec_color_type_from_png(color, depth) matches Ok(c) ==> spec_bytes_per_pixel(c)
            == spec_channel_count(c) * (spec_bits(depth) / 8),
{
    match (color, depth) {
        (PngColorType::Indexed, _) => {},
        (_, PngBitDepth::Eight) => {
            assert(spec_bits(depth) / 8 == 1);
        },
        (_, PngBitDepth::Sixteen) => {
            assert(spec_bits(depth) / 8 == 2);
        },
        _ => {},
    }
}

/// Every colour type that the decoder hands out has one or two bytes per
/// channel, so decoding never meets samples of another width.
pub proof fn lemma_bytes_per_channel(color: ColorType)
    ensures
        spec_bytes_per_pixel(color) / spec_channel_count(color) == 1 || spec_bytes_per_pixel(color)
            / spec_channel_count(color) == 2,
        spec_bytes_per_pixel(color) % spec_channel_count(color) == 0,
{
    match color {
        ColorType::L8 => assert(1u8 / 1u8 == 1 && 1u8 % 1u8 == 0),
        ColorType::La8 => assert(2u8 / 2u8 == 1 && 2u8 % 2u8 == 0),
        ColorType::Rgb8 => assert(3u8 / 3u8 == 1 && 3u8 % 3u8 == 0),
        ColorType::Rgba8 => assert(4u8 / 4u8 == 1 && 4u8 % 4u8 == 0),
        ColorType::L16 => assert(2u8 / 1u8 == 2 && 2u8 % 1u8 == 0),
        ColorType::La16 => assert(4u8 / 2u8 == 2 && 4u8 % 2u8 == 0),
        ColorType::Rgb16 => assert(6u8 / 3u8 == 2 && 6u8 % 3u8 == 0),
        ColorType::Rgba16 => assert(8u8 / 4u8 == 2 && 8u8 % 4u8 == 0),
    }
}

} // verus!
