//! The calls into the `png` and `byteorder_lite` crates that the decoder
//! makes, with what each does to the `png` objects: the file they read,
//! their settings, and what `png` computes from these, by name.
use std::io::Cursor;
use vstd::prelude::*;
use byteorder_lite::{BigEndian, ByteOrder, NativeEndian};
use crate::png_decoder::{is_png_color_code, is_png_depth_code, PngErrorKind};

verus! {

/// `png::DecodingError`, carried through opaquely.
#[verifier::external_type_specification]
#[verifier::external_body]
pub struct ExPngDecodingError(png::DecodingError);

/// How `png` reads the chunks of a file: the allocation limit
/// (`png::Limits::bytes`), whether text and ICC chunks are skipped, and
/// whether the Adler-32 and CRC checksums are left unchecked.
#[derive(PartialEq, Eq, Structural, Clone, Copy, Debug)]
pub struct PngReadOptions {
    pub max_bytes: usize,
    pub ignore_text_chunk: bool,
    pub ignore_iccp_chunk: bool,
    pub ignore_adler32: bool,
    pub ignore_crc: bool,
}

/// The output transformations of `png` that the library uses.
#[derive(PartialEq, Eq, Structural, Clone, Copy, Debug)]
pub enum PngTransformations {
    /// `png::Transformations::IDENTITY`: samples as stored.
    Identity,
    /// `png::Transformations::EXPAND`: palettes to RGB(A), fewer than 8 bits
    /// to 8, transparency chunks to alpha.
    Expand,
}

/// Everything that decides what `png` decodes from a file's bytes.
#[derive(PartialEq, Eq, Structural, Clone, Copy, Debug)]
pub struct PngSettings {
    pub options: PngReadOptions,
    pub transformations: PngTransformations,
}

/// An error of `png`, with the variant it is.
pub struct PngFailure {
    pub kind: PngErrorKind,
    pub error: png::DecodingError,
}

/// What `png::Decoder::read_header_info` gives for a file: its width and
/// height, or how it failed.
pub uninterp spec fn png_header(bytes: Seq<u8>, options: PngReadOptions) -> Result<
    (u32, u32),
    PngErrorKind,
>;

/// Whether `png::Decoder::read_info` (reading the metadata up to the image
/// data) succeeds on a file, or how it fails.
pub uninterp spec fn png_open(bytes: Seq<u8>, settings: PngSettings) -> Result<(), PngErrorKind>;

/// The PNG codes of the colour type and bit depth that
/// `png::Reader::output_color_type` reports.
pub uninterp spec fn png_output_color(bytes: Seq<u8>, settings: PngSettings) -> (u8, u8);

/// Whether the file's sRGB chunk was read (`png::Info::srgb` is set).
pub uninterp spec fn png_srgb(bytes: Seq<u8>, settings: PngSettings) -> bool;

/// The value of the file's gAMA chunk, if read (`png::Info::gama_chunk`),
/// times 100000.
pub uninterp spec fn png_gama_chunk(bytes: Seq<u8>, settings: PngSettings) -> Option<u32>;

/// Whether the file holds an animation control (`acTL`) chunk.
pub uninterp spec fn png_animated(bytes: Seq<u8>, settings: PngSettings) -> bool;

/// The ICC profile that `png::Info::icc_profile` holds.
pub uninterp spec fn png_icc_profile(bytes: Seq<u8>, settings: PngSettings) -> Option<Seq<u8>>;

/// The Exif data that `png::Info::exif_metadata` holds.
pub uninterp spec fn png_exif(bytes: Seq<u8>, settings: PngSettings) -> Option<Seq<u8>>;

/// What the first `png::Reader::next_frame` does with a buffer of `buf_len`
/// bytes: how it fails, or, where it succeeds, the bytes of the frame. For
/// output of 8 or more bits per sample these are the bytes it writes at the
/// start of the buffer. With fewer bits, an interlaced frame is merged into
/// what the buffer held (`png::adam7::expand_pass` ORs the samples into their
/// bytes), so only the bytes written into a zeroed buffer are a function of
/// the file.
pub uninterp spec fn png_frame(bytes: Seq<u8>, settings: PngSettings, buf_len: usize) -> Result<
    Seq<u8>,
    PngErrorKind,
>;

/// The number of samples per pixel of a PNG colour type code.
pub open spec fn samples_of_code(color_code: u8) -> int {
    if color_code == 2 {
        3
    } else if color_code == 4 {
        2
    } else if color_code == 6 {
        4
    } else {
        1
    }
}

/// The number of bytes of a frame of `width` by `height` pixels with the
/// given colour type and bit depth codes, for depths of 8 and 16 bits.
pub open spec fn frame_len(width: u32, height: u32, color_code: u8, depth_code: u8) -> int {
    width * height * samples_of_code(color_code) * (depth_code / 8)
}

/// A `png::Decoder` over an in-memory PNG file, before its metadata is read.
/// (`png::Decoder` bounds its reader by `BufRead + Seek`, so the decoder is
/// held here for the one reader type used.)
#[verifier::external_body]
pub struct PngSetup {
    decoder: png::Decoder<Cursor<Vec<u8>>>,
}

/// A `png::Reader` over an in-memory PNG file, after its metadata is read and
/// before any frame is decoded.
#[verifier::external_body]
pub struct PngStream {
    reader: png::Reader<Cursor<Vec<u8>>>,
}

/// The bytes of the PNG file that a decoder reads.
pub uninterp spec fn setup_input(setup: PngSetup) -> Seq<u8>;

/// The settings that a decoder holds.
pub uninterp spec fn setup_settings(setup: PngSetup) -> PngSettings;

/// Whether a decoder has read the file's header.
pub uninterp spec fn setup_header_read(setup: PngSetup) -> bool;

/// The bytes of the PNG file that a reader reads.
pub uninterp spec fn stream_input(stream: PngStream) -> Seq<u8>;

/// The settings that a reader was made with.
pub uninterp spec fn stream_settings(stream: PngStream) -> PngSettings;

impl PngSetup {
    /// The bytes of the file.
    pub open spec fn spec_bytes(&self) -> Seq<u8> {
        setup_input(*self)
    }

    /// The settings held.
    pub open spec fn spec_settings(&self) -> PngSettings {
        setup_settings(*self)
    }

    /// Whether the header has been read.
    pub open spec fn spec_header_read(&self) -> bool {
        setup_header_read(*self)
    }
}

impl PngStream {
    /// The bytes of the file.
    pub open spec fn spec_bytes(&self) -> Seq<u8> {
        stream_input(*self)
    }

    /// The settings the reader was made with.
    pub open spec fn spec_settings(&self) -> PngSettings {
        stream_settings(*self)
    }
}

/// The settings of a new `png::Decoder` with the given allocation limit: no
/// chunk skipped, Adler-32 unchecked and CRC checked
/// (`png::DecodeOptions::default`), samples as stored.
pub open spec fn new_decoder_settings(max_bytes: usize) -> PngSettings {
    PngSettings {
        options: PngReadOptions {
            max_bytes,
            ignore_text_chunk: false,
            ignore_iccp_chunk: false,
            ignore_adler32: true,
            ignore_crc: false,
        },
        transformations: PngTransformations::Identity,
    }
}

/// Calls `png::Decoder::new_with_limits` on the bytes of a PNG file, with
/// `png::Limits { bytes: max_bytes }`. It reads nothing yet.
#[verifier::external_body]
pub fn setup_with_limits(bytes: Vec<u8>, max_bytes: usize) -> (setup: PngSetup)
    ensures
        setup_input(setup) == bytes@,
        setup_settings(setup) == new_decoder_settings(max_bytes),
        !setup_header_read(setup),
{
    PngSetup { decoder: png::Decoder::new_with_limits(Cursor::new(bytes), png::Limits { bytes: max_bytes }) }
}

/// Calls `png::Decoder::set_ignore_text_chunk`. (The reading options are set
/// before the header is read, so that the header is read with them.)
#[verifier::external_body]
pub fn set_ignore_text_chunk(setup: &mut PngSetup, ignore: bool)
    requires
        !setup_header_read(*old(setup)),
    ensures
        setup_header_read(*final(setup)) == setup_header_read(*old(setup)),
        setup_input(*final(setup)) == setup_input(*old(setup)),
        setup_settings(*final(setup)) == (PngSettings {
            options: PngReadOptions { ignore_text_chunk: ignore, ..setup_settings(*old(setup)).options },
            ..setup_settings(*old(setup))
        }),
{
    setup.decoder.set_ignore_text_chunk(ignore)
}

/// Calls `png::Decoder::set_ignore_iccp_chunk`.
#[verifier::external_body]
pub fn set_ignore_iccp_chunk(setup: &mut PngSetup, ignore: bool)
    requires
        !setup_header_read(*old(setup)),
    ensures
        setup_header_read(*final(setup)) == setup_header_read(*old(setup)),
        setup_input(*final(setup)) == setup_input(*old(setup)),
        setup_settings(*final(setup)) == (PngSettings {
            options: PngReadOptions { ignore_iccp_chunk: ignore, ..setup_settings(*old(setup)).options },
            ..setup_settings(*old(setup))
        }),
{
    setup.decoder.set_ignore_iccp_chunk(ignore)
}

/// Calls `png::Decoder::ignore_checksums`, which sets both the Adler-32 and
/// the CRC setting.
#[verifier::external_body]
pub fn ignore_checksums(setup: &mut PngSetup, ignore: bool)
    requires
        !setup_header_read(*old(setup)),
    ensures
        setup_header_read(*final(setup)) == setup_header_read(*old(setup)),
        setup_input(*final(setup)) == setup_input(*old(setup)),
        setup_settings(*final(setup)) == (PngSettings {
            options: PngReadOptions {
                ignore_adler32: ignore,
                ignore_crc: ignore,
                ..setup_settings(*old(setup)).options
            },
            ..setup_settings(*old(setup))
        }),
{
    setup.decoder.ignore_checksums(ignore)
}

/// Calls `png::Decoder::read_header_info` and hands back the decoder with the
/// width and height of the header, or the error with its variant (the
/// decoder is dropped then).
#[verifier::external_body]
pub fn read_header_info(setup: PngSetup) -> (result: Result<(PngSetup, (u32, u32)), PngFailure>)
    requires
        !setup_header_read(setup),
    ensures
        match result {
            Ok((read, size)) => {
                &&& png_header(setup_input(setup), setup_settings(setup).options) == Ok::<
                    (u32, u32),
                    PngErrorKind,
                >(size)
                &&& setup_input(read) == setup_input(setup)
                &&& setup_settings(read) == setup_settings(setup)
                &&& setup_header_read(read)
            },
            Err(failure) => png_header(setup_input(setup), setup_settings(setup).options)
                == Err::<(u32, u32), PngErrorKind>(failure.kind),
        },
{
    let mut setup = setup;
    let size = match setup.decoder.read_header_info() {
        Ok(info) => info.size(),
        Err(error) => return Err(PngFailure {
            kind: match &error {
                png::DecodingError::IoError(_) => PngErrorKind::Io,
                png::DecodingError::Format(_) => PngErrorKind::Format,
                png::DecodingError::Parameter(_) => PngErrorKind::Parameter,
                png::DecodingError::LimitsExceeded => PngErrorKind::LimitsExceeded,
            },
            error,
        }),
    };
    Ok((setup, size))
}

/// Calls `png::Decoder::set_transformations` with the constant of `png` for
/// the given transformations.
#[verifier::external_body]
pub fn set_transformations(setup: &mut PngSetup, transformations: PngTransformations)
    ensures
        setup_header_read(*final(setup)) == setup_header_read(*old(setup)),
        setup_input(*final(setup)) == setup_input(*old(setup)),
        setup_settings(*final(setup)) == (PngSettings { transformations, ..setup_settings(*old(setup)) }),
{
    setup.decoder.set_transformations(match transformations {
        PngTransformations::Identity => png::Transformations::IDENTITY,
        PngTransformations::Expand => png::Transformations::EXPAND,
    })
}

/// Calls `png::Decoder::read_info`, which reads the metadata up to the image
/// data (reading the header first where that has not been done). Where it
/// succeeds, the header was read successfully too.
#[verifier::external_body]
pub fn read_info(setup: PngSetup) -> (result: Result<PngStream, PngFailure>)
    ensures
        match result {
            Ok(stream) => {
                &&& png_open(setup_input(setup), setup_settings(setup)) is Ok
                &&& png_header(setup_input(setup), setup_settings(setup).options) is Ok
                &&& stream_input(stream) == setup_input(setup)
                &&& stream_settings(stream) == setup_settings(setup)
            },
            Err(failure) => png_open(setup_input(setup), setup_settings(setup)) == Err::<
                (),
                PngErrorKind,
            >(failure.kind),
        },
{
    setup.decoder.read_info().map(|reader| PngStream { reader }).map_err(|error| PngFailure {
        kind: match &error {
            png::DecodingError::IoError(_) => PngErrorKind::Io,
            png::DecodingError::Format(_) => PngErrorKind::Format,
            png::DecodingError::Parameter(_) => PngErrorKind::Parameter,
            png::DecodingError::LimitsExceeded => PngErrorKind::LimitsExceeded,
        },
        error,
    })
}

/// Calls `png::Reader::output_color_type` and hands back its two parts as
/// their PNG codes (`png::ColorType` and `png::BitDepth` are `repr(u8)` with
/// the codes of the PNG specification as discriminants). With `EXPAND`,
/// palettes become RGB or RGBA and fewer than 8 bits become 8.
#[verifier::external_body]
pub fn output_color_type(stream: &PngStream) -> (codes: (u8, u8))
    ensures
        is_png_color_code(codes.0),
        is_png_depth_code(codes.1),
        stream_settings(*stream).transformations == PngTransformations::Expand ==> codes.0 != 3
            && codes.1 >= 8,
        codes == png_output_color(stream_input(*stream), stream_settings(*stream)),
{
    let (color, depth) = stream.reader.output_color_type();
    (color as u8, depth as u8)
}

/// Whether `png::Info::srgb` of `png::Reader::info` is set.
#[verifier::external_body]
pub fn has_srgb_chunk(stream: &PngStream) -> (srgb: bool)
    ensures
        srgb == png_srgb(stream_input(*stream), stream_settings(*stream)),
{
    stream.reader.info().srgb.is_some()
}

/// `png::Info::gama_chunk` of `png::Reader::info`, as the scaled integer of
/// `png::ScaledFloat::into_scaled` (gamma times 100000).
#[verifier::external_body]
pub fn gama_chunk_scaled(stream: &PngStream) -> (gama: Option<u32>)
    ensures
        gama == png_gama_chunk(stream_input(*stream), stream_settings(*stream)),
{
    stream.reader.info().gama_chunk.map(|gama| gama.into_scaled())
}

/// Whether `png::Info::animation_control` of `png::Reader::info` is present.
#[verifier::external_body]
pub fn has_animation_control(stream: &PngStream) -> (animated: bool)
    ensures
        animated == png_animated(stream_input(*stream), stream_settings(*stream)),
{
    stream.reader.info().animation_control.is_some()
}

/// A copy of `png::Info::icc_profile` of `png::Reader::info`. Where ICC
/// chunks are skipped, `png` never fills it.
#[verifier::external_body]
pub fn icc_profile(stream: &PngStream) -> (profile: Option<Vec<u8>>)
    ensures
        match profile {
            Some(p) => png_icc_profile(stream_input(*stream), stream_settings(*stream)) == Some(p@),
            None => png_icc_profile(stream_input(*stream), stream_settings(*stream)) is None,
        },
        stream_settings(*stream).options.ignore_iccp_chunk ==> profile is None,
{
    stream.reader.info().icc_profile.as_ref().map(|profile| profile.to_vec())
}

/// A copy of `png::Info::exif_metadata` of `png::Reader::info`.
#[verifier::external_body]
pub fn exif_metadata(stream: &PngStream) -> (exif: Option<Vec<u8>>)
    ensures
        match exif {
            Some(e) => png_exif(stream_input(*stream), stream_settings(*stream)) == Some(e@),
            None => png_exif(stream_input(*stream), stream_settings(*stream)) is None,
        },
{
    stream.reader.info().exif_metadata.as_ref().map(|exif| exif.to_vec())
}

/// Calls `png::Reader::next_frame` once, which decodes the first frame into
/// the start of `buf` (samples in big-endian order); the reader is dropped
/// then. Whether it succeeds, and how it fails, is a function of the file,
/// the settings and the buffer's length. For output of 8 or 16 bits per
/// sample it overwrites the start of the buffer with the frame, which takes
/// `frame_len` bytes of the header's size and the output colour type (the
/// row length of `png::Reader::output_buffer_size` times the height); with
/// fewer bits the contract says nothing of the buffer's contents (see
/// [`png_frame`]).
#[verifier::external_body]
pub fn next_frame(stream: PngStream, buf: &mut [u8]) -> (result: Result<(), PngFailure>)
    ensures
        final(buf)@.len() == old(buf)@.len(),
        result is Ok <==> png_frame(stream_input(stream), stream_settings(stream), old(buf)@.len() as usize) is Ok,
        result matches Err(failure) ==> png_frame(stream_input(stream), stream_settings(stream), old(buf)@.len() as usize) matches Err(kind) && kind == failure.kind,
        result is Ok ==> png_header(stream_input(stream), stream_settings(stream).options) is Ok,
        result is Ok && png_output_color(stream_input(stream), stream_settings(stream)).1 >= 8 ==> {
            let f = png_frame(stream_input(stream), stream_settings(stream), old(buf)@.len() as usize)->Ok_0;
            let size = png_header(stream_input(stream), stream_settings(stream).options)->Ok_0;
            let (color, depth) = png_output_color(stream_input(stream), stream_settings(stream));
            &&& f.len() == frame_len(size.0, size.1, color, depth)
            &&& f.len() <= old(buf)@.len()
            &&& final(buf)@.take(f.len() as int) == f
        },
{
    let mut stream = stream;
    stream.reader.next_frame(buf).map(|_| ()).map_err(|error| PngFailure {
        kind: match &error {
            png::DecodingError::IoError(_) => PngErrorKind::Io,
            png::DecodingError::Format(_) => PngErrorKind::Format,
            png::DecodingError::Parameter(_) => PngErrorKind::Parameter,
            png::DecodingError::LimitsExceeded => PngErrorKind::LimitsExceeded,
        },
        error,
    })
}

/// Calls `byteorder_lite::BigEndian::read_u16_into` on the first
/// `2 * values.len()` bytes of `bytes`: each value is read from two bytes,
/// the first of them the high one.
#[verifier::external_body]
pub fn read_u16s_big_endian(bytes: &[u8], values: &mut Vec<u16>)
    requires
        2 * old(values)@.len() <= bytes@.len(),
    ensures
        final(values)@.len() == old(values)@.len(),
        forall|k: int|
            0 <= k < old(values)@.len() ==> #[trigger] final(values)@[k] as int == bytes@[2 * k] as int
                * 256 + bytes@[2 * k + 1] as int,
{
    BigEndian::read_u16_into(&bytes[..2 * values.len()], values.as_mut_slice())
}

/// Whether the two bytes `first` and `second`, in this order, encode `value`
/// little-endian (`little_endian`) or big-endian (otherwise).
pub open spec fn encodes_u16_in(little_endian: bool, first: u8, second: u8, value: int) -> bool {
    if little_endian {
        first as int == value % 256 && second as int == value / 256
    } else {
        first as int == value / 256 && second as int == value % 256
    }
}

/// Whether the pairs of bytes of `bytes` at `2 * k` encode `values[k]`, all
/// in the same byte order.
pub open spec fn all_encoded_in(little_endian: bool, bytes: Seq<u8>, values: Seq<u16>) -> bool {
    forall|k: int|
        0 <= k < values.len() ==> encodes_u16_in(
            little_endian,
            #[trigger] bytes[2 * k],
            bytes[2 * k + 1],
            values[k] as int,
        )
}

/// Calls `byteorder_lite::NativeEndian::write_u16_into` on the first
/// `2 * values.len()` bytes of `bytes`: every value is written in the
/// machine's byte order. Which order that is depends on the machine, so the
/// contract says only that all values are written in one and the same of
/// the two orders.
#[verifier::external_body]
pub fn write_u16s_native(values: &Vec<u16>, bytes: &mut [u8])
    requires
        2 * values@.len() <= old(bytes)@.len(),
    ensures
        final(bytes)@.len() == old(bytes)@.len(),
        forall|i: int|
            2 * values@.len() <= i < old(bytes)@.len() ==> final(bytes)@[i] == old(bytes)@[i],
        exists|little_endian: bool| #[trigger] all_encoded_in(little_endian, final(bytes)@, values@),
{
    NativeEndian::write_u16_into(values.as_slice(), &mut bytes[..2 * values.len()])
}

/// Calls `byteorder_lite::NativeEndian::read_u16_into` on the first
/// `2 * values.len()` bytes of `bytes`: every value is read in the machine's
/// byte order. Which order that is depends on the machine, so the contract
/// says only that all values are read in one and the same of the two
/// orders.
#[verifier::external_body]
pub fn read_u16s_native(bytes: &[u8], values: &mut Vec<u16>)
    requires
        2 * old(values)@.len() <= bytes@.len(),
    ensures
        final(values)@.len() == old(values)@.len(),
        exists|little_endian: bool| #[trigger] all_encoded_in(little_endian, bytes@, final(values)@),
{
    NativeEndian::read_u16_into(&bytes[..2 * values.len()], values.as_mut_slice())
}

} // verus!
