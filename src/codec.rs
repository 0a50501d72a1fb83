//! The calls into the `image` crate: decoding, resampling and encoding.
use vstd::prelude::*;

use crate::format::OutputFormat;
use image::{DynamicImage, ImageError};

verus! {

#[verifier::external_type_specification]
#[verifier::external_body]
pub struct ExDynamicImage(DynamicImage);

#[verifier::external_type_specification]
#[verifier::external_body]
pub struct ExImageError(ImageError);

/// A decoded image together with its dimensions in pixels.
///
/// Values are made only by the functions of this module, which read the
/// dimensions from the decoded image itself.
pub struct Raster {
    image: DynamicImage,
    width: u32,
    height: u32,
}

impl Raster {
    pub closed spec fn spec_width(&self) -> u32 {
        self.width
    }

    pub closed spec fn spec_height(&self) -> u32 {
        self.height
    }

    /// Width in pixels.
    pub fn width(&self) -> (r: u32)
        ensures
            r == self.spec_width(),
    {
        self.width
    }

    /// Height in pixels.
    pub fn height(&self) -> (r: u32)
        ensures
            r == self.spec_height(),
    {
        self.height
    }
}

/// `nw` by `nh` is what fitting a `w` by `h` image into a `side` by `side`
/// square with its aspect ratio kept gives: the longer side becomes `side`,
/// the shorter one is within one pixel of its exact scaled length, and
/// neither is below one pixel.
pub open spec fn fits_square(w: u32, h: u32, side: u32, nw: u32, nh: u32) -> bool {
    &&& 1 <= nw <= side
    &&& 1 <= nh <= side
    &&& (1 <= h <= w ==> nw == side && -(w as int) <= nh * w - side * h <= w)
    &&& (1 <= w <= h ==> nh == side && -(h as int) <= nw * h - side * w <= h)
}

/// The width and height of the image that `bytes` hold, where they decode.
pub uninterp spec fn decoded_size(bytes: Seq<u8>) -> Option<(u32, u32)>;

/// `b` begins with the signature of the format `f`: `FF D8` for JPEG, the
/// eight-byte PNG signature, or `RIFF`, four length bytes and `WEBP`.
pub open spec fn has_signature(b: Seq<u8>, f: OutputFormat) -> bool {
    match f {
        OutputFormat::Jpeg => b.len() >= 2 && b[0] == 0xFF && b[1] == 0xD8,
        OutputFormat::Png => b.len() >= 8 && b.subrange(0, 8) == seq![
            137u8,
            80u8,
            78u8,
            71u8,
            13u8,
            10u8,
            26u8,
            10u8,
        ],
        OutputFormat::WebP => b.len() >= 12 && b.subrange(0, 4) == seq![82u8, 73u8, 70u8, 70u8]
            && b.subrange(8, 12) == seq![87u8, 69u8, 66u8, 80u8],
    }
}

/// Relies on `image::load_from_memory`, which guesses the encoding from the
/// leading bytes and decodes the whole image; its outcome depends on the
/// bytes alone. `width` and `height` read the dimensions of what it returned.
#[verifier::external_body]
pub(crate) fn decode(bytes: &[u8]) -> (r: Result<Raster, ImageError>)
    ensures
        r is Ok <==> decoded_size(bytes@) is Some,
        r matches Ok(x) ==> decoded_size(bytes@) == Some((x.spec_width(), x.spec_height())),
{
    match image::load_from_memory(bytes) {
        Ok(image) => Ok(Raster { width: image.width(), height: image.height(), image }),
        Err(e) => Err(e),
    }
}

/// Relies on `DynamicImage::resize` with the Lanczos3 filter and a square
/// bound: it scales by the smaller of `side / width` and `side / height`,
/// rounds each product to the nearest integer and raises a zero to one (an
/// image already `side` by `side` is copied as it is). In double precision the
/// longer side then comes out as `side` exactly and the shorter one within one
/// pixel of its exact value; `side` is kept small enough for that.
#[verifier::external_body]
pub(crate) fn resize_to_fit(r: &Raster, side: u32) -> (s: Raster)
    requires
        1 <= side <= 0xFFFF,
    ensures
        fits_square(r.spec_width(), r.spec_height(), side, s.spec_width(), s.spec_height()),
{
    let image = r.image.resize(side, side, image::imageops::FilterType::Lanczos3);
    Raster { width: image.width(), height: image.height(), image }
}

/// Relies on `DynamicImage::write_to`, with the encoder of the chosen format
/// at its default settings, into an in-memory buffer. It first converts the
/// pixels to a colour type that the encoder takes, and each encoder refuses
/// only sizes far outside 1 to 400 pixels a side (JPEG past 65535, WebP past
/// 16384, PNG at zero). The JPEG writer starts with its start-of-image marker,
/// the PNG writer with its signature, and the WebP writer with the RIFF header.
/// Each writes the image's size into its header (the JPEG frame header, the
/// PNG IHDR chunk, the WebP VP8L header), so at these small sizes, well within
/// the decoder's default limits, the bytes decode back to an image of the same
/// width and height.
#[verifier::external_body]
pub(crate) fn encode(r: &Raster, format: OutputFormat) -> (out: Result<Vec<u8>, ImageError>)
    ensures
        1 <= r.spec_width() <= 400 && 1 <= r.spec_height() <= 400 ==> out is Ok,
        out matches Ok(b) ==> has_signature(b@, format),
        1 <= r.spec_width() <= 400 && 1 <= r.spec_height() <= 400 && out is Ok
            ==> decoded_size(out->Ok_0@) == Some((r.spec_width(), r.spec_height())),
{
    let target = match format {
        OutputFormat::Jpeg => image::ImageFormat::Jpeg,
        OutputFormat::Png => image::ImageFormat::Png,
        OutputFormat::WebP => image::ImageFormat::WebP,
    };
    let mut buf = std::io::Cursor::new(Vec::new());
    match r.image.write_to(&mut buf, target) {
        Ok(()) => Ok(buf.into_inner()),
        Err(e) => Err(e),
    }
}

/// Relies on the `Display` impl of `ImageError` for a readable reason.
#[verifier::external_body]
pub(crate) fn error_text(e: &ImageError) -> String {
    format!("{}", e)
}

} // verus!
