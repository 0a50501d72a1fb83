//! The compression pipeline on bytes, its errors and its size report.
use vstd::prelude::*;

use crate::codec::{decode, decoded_size, encode, error_text, fits_square, has_signature, resize_to_fit};
use crate::format::{format_named, parse_format, OutputFormat};
use image::ImageError;

verus! {

/// The side of the square box that every output image fits into.
pub const MAX_SIDE: u32 = 400;

/// Why a compression failed; the text is the underlying reason.
#[derive(Clone, Debug)]
pub enum CompressError {
    /// The size of the input file could not be read.
    InputMetadata(String),
    /// The input could not be decoded as an image.
    Decode(String),
    /// The directory of the output file could not be created.
    CreateDirectory(String),
    /// The output file could not be created.
    CreateFile(String),
    /// The resized image could not be encoded or written.
    Encode(String),
    /// The size of the written output file could not be read.
    OutputMetadata(String),
    /// The requested format is not one of `jpeg`, `png` or `webp`.
    UnsupportedFormat,
}

/// The readable text that introduces each kind of failure.
pub open spec fn error_prefix(e: CompressError) -> Seq<char> {
    match e {
        CompressError::InputMetadata(_) => "Failed to get input file metadata: "@,
        CompressError::Decode(_) => "Failed to open image: "@,
        CompressError::CreateDirectory(_) => "Failed to create output directory: "@,
        CompressError::CreateFile(_) => "Failed to create output file: "@,
        CompressError::Encode(_) => "Failed to write image: "@,
        CompressError::OutputMetadata(_) => "Failed to get output file metadata: "@,
        CompressError::UnsupportedFormat => "Unsupported format"@,
    }
}

/// The reason that a failure carries, if any.
pub open spec fn error_detail(e: CompressError) -> Seq<char> {
    match e {
        CompressError::InputMetadata(s) => s@,
        CompressError::Decode(s) => s@,
        CompressError::CreateDirectory(s) => s@,
        CompressError::CreateFile(s) => s@,
        CompressError::Encode(s) => s@,
        CompressError::OutputMetadata(s) => s@,
        CompressError::UnsupportedFormat => Seq::empty(),
    }
}

impl CompressError {
    /// A human-readable account of the failure.
    pub fn message(&self) -> (r: String)
        ensures
            r@ == error_prefix(*self) + error_detail(*self),
    {
        let (prefix, detail) = match self {
            CompressError::InputMetadata(s) => ("Failed to get input file metadata: ", s.as_str()),
            CompressError::Decode(s) => ("Failed to open image: ", s.as_str()),
            CompressError::CreateDirectory(s) => ("Failed to create output directory: ", s.as_str()),
            CompressError::CreateFile(s) => ("Failed to create output file: ", s.as_str()),
            CompressError::Encode(s) => ("Failed to write image: ", s.as_str()),
            CompressError::OutputMetadata(s) => ("Failed to get output file metadata: ", s.as_str()),
            CompressError::UnsupportedFormat => ("Unsupported format", ""),
        };
        proof {
            reveal_strlit("");
        }
        let mut r = String::from_str(prefix);
        r.append(detail);
        r
    }
}

/// Byte counts before and after compression.
#[derive(Clone, Copy, Debug, PartialEq, Eq, Structural)]
pub struct SizeReport {
    pub original_bytes: u64,
    pub compressed_bytes: u64,
}

impl SizeReport {
    pub fn new(original_bytes: u64, compressed_bytes: u64) -> (r: SizeReport)
        ensures
            r.original_bytes == original_bytes,
            r.compressed_bytes == compressed_bytes,
    {
        SizeReport { original_bytes, compressed_bytes }
    }

    /// Bytes saved; negative where the output is the larger.
    pub fn reduction(&self) -> (r: i128)
        ensures
            r == self.original_bytes - self.compressed_bytes,
    {
        self.original_bytes as i128 - self.compressed_bytes as i128
    }
}

/// The outcome of a successful compression.
pub struct Compressed {
    /// The encoded output image.
    pub bytes: Vec<u8>,
    /// Its encoding.
    pub format: OutputFormat,
    /// Its dimensions in pixels.
    pub width: u32,
    pub height: u32,
    /// The dimensions of the decoded input.
    pub source_width: u32,
    pub source_height: u32,
    /// The length of the input in bytes.
    pub original_bytes: u64,
}

impl Compressed {
    /// The sizes of the input and of the encoded output.
    pub fn report(&self) -> (r: SizeReport)
        ensures
            r.original_bytes == self.original_bytes,
            r.compressed_bytes == self.bytes@.len(),
    {
        SizeReport::new(self.original_bytes, self.bytes.len() as u64)
    }
}

/// The outcome once the encoder has answered: the encoded bytes with the
/// dimensions before and after resizing, or the encoder's failure.
pub fn assemble(
    encoded: Result<Vec<u8>, ImageError>,
    format: OutputFormat,
    source_width: u32,
    source_height: u32,
    width: u32,
    height: u32,
    original_bytes: u64,
) -> (r: Result<Compressed, CompressError>)
    ensures
        match encoded {
            Ok(bytes) => r matches Ok(c) && c.bytes@ == bytes@ && c.format == format
                && c.source_width == source_width && c.source_height == source_height
                && c.width == width && c.height == height && c.original_bytes == original_bytes,
            Err(_) => r matches Err(e) && e is Encode,
        },
{
    match encoded {
        Ok(bytes) => Ok(
            Compressed { bytes, format, width, height, source_width, source_height, original_bytes },
        ),
        Err(e) => Err(CompressError::Encode(error_text(&e))),
    }
}

/// Decodes `input`, fits it into a `MAX_SIDE` by `MAX_SIDE` box with its
/// aspect ratio kept, and encodes it in the format that `format` names
/// (`jpeg`, `png` or `webp`, in any ASCII case).
///
/// An unknown format is refused before anything is decoded. Otherwise the
/// result is the resized image, encoded, exactly where `input` decodes: its
/// bytes carry the format's signature and decode to an image of the reported
/// width and height. Where `input` does not decode the result is a decoding
/// error.
pub fn compress_image(input: &[u8], format: &str) -> (r: Result<Compressed, CompressError>)
    ensures
        format_named(format@) is None <==> r == Err::<Compressed, CompressError>(
            CompressError::UnsupportedFormat,
        ),
        format_named(format@) is Some && decoded_size(input@) is Some ==> r is Ok,
        format_named(format@) is Some ==> match r {
            Ok(c) => {
                &&& Some(c.format) == format_named(format@)
                &&& decoded_size(input@) == Some((c.source_width, c.source_height))
                &&& fits_square(c.source_width, c.source_height, MAX_SIDE, c.width, c.height)
                &&& has_signature(c.bytes@, c.format)
                &&& decoded_size(c.bytes@) == Some((c.width, c.height))
                &&& c.original_bytes == input@.len()
            },
            Err(e) => e is Decode && decoded_size(input@) is None,
        },
{
    let target = match parse_format(format) {
        Some(f) => f,
        None => {
            return Err(CompressError::UnsupportedFormat);
        },
    };
    let source = match decode(input) {
        Ok(raster) => raster,
        Err(e) => {
            return Err(CompressError::Decode(error_text(&e)));
        },
    };
    let scaled = resize_to_fit(&source, MAX_SIDE);
    assemble(
        encode(&scaled, target),
        target,
        source.width(),
        source.height(),
        scaled.width(),
        scaled.height(),
        input.len() as u64,
    )
}

} // verus!
