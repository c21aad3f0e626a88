//! The codec: from the content of an image file to pixels, and from pixels to
//! a JPEG stream. Both are the work of the `image` crate; what is decided
//! here is what goes in and what becomes of what comes out.
//!
//! Neither function isolates an abnormal termination of the codec: a caller
//! that must survive one runs the function behind a boundary of its own and
//! reports `EncodeFault::Crashed` or `DecodeFault::Undecodable` in its place.

use crate::action::{DecodeFault, EncodeFault};
use crate::pixels::{buffer_len, RGB_CHANNELS};
use crate::raster::{ProcessableImage, Raster};
use crate::snapshot::DecodedFile;
use vstd::prelude::*;

verus! {

/// The quality at which every image is encoded. It is not configurable.
pub const JPEG_QUALITY: u8 = 80;

/// The byte stream that the `image` crate's JPEG encoder writes for the
/// `width` by `height` RGB buffer `rgb` at `quality`, or `None` where it
/// refuses the image. The encoder works from its arguments alone, with fixed
/// tables and without state, so that equal arguments give equal streams.
pub uninterp spec fn jpeg_stream(rgb: Seq<u8>, width: u32, height: u32, quality: u8) -> Option<
    Seq<u8>,
>;

/// Calls `image::codecs::jpeg::JpegEncoder::new_with_quality` on an empty
/// vector and `JpegEncoder::encode` with the colour type `Rgb8`. The
/// encoder panics on a buffer whose length is not `width * height * 3`,
/// which the precondition rules out. Claimed of it: what it writes, or that
/// it returns an error, depends on the four arguments alone.
#[verifier::external_body]
fn encode_jpeg(rgb: &[u8], width: u32, height: u32, quality: u8) -> (stream: Option<Vec<u8>>)
    requires
        rgb@.len() == buffer_len(width, height, RGB_CHANNELS),
    ensures
        match stream {
            Some(bytes) => jpeg_stream(rgb@, width, height, quality) == Some(bytes@),
            None => jpeg_stream(rgb@, width, height, quality) is None,
        },
{
    let mut stream: Vec<u8> = Vec::new();
    let encoded = image::codecs::jpeg::JpegEncoder::new_with_quality(&mut stream, quality)
        .encode(rgb, width, height, image::ExtendedColorType::Rgb8);
    match encoded {
        Ok(()) => Some(stream),
        Err(_) => None,
    }
}

/// Calls `image::load_from_memory` on the content of a file and, where that
/// succeeds, `DynamicImage::to_rgb8` for the pixels with their dimensions.
/// Nothing is claimed of what comes back: the caller checks it.
#[verifier::external_body]
fn decode_pixels(content: &[u8]) -> (pixels: Option<(u32, u32, Vec<u8>)>) {
    match image::load_from_memory(content) {
        Ok(picture) => {
            let rgb = picture.to_rgb8();
            let (width, height): (u32, u32) = rgb.dimensions();
            Some((width, height, rgb.into_raw()))
        },
        Err(_) => None,
    }
}

/// What the compressor returns for `image`: the encoder's stream at the
/// fixed quality, or a refusal.
pub open spec fn compressed(image: Raster) -> Result<Seq<u8>, EncodeFault> {
    match jpeg_stream(image.bytes, image.width, image.height, JPEG_QUALITY) {
        Some(bytes) => Ok(bytes),
        None => Err(EncodeFault::Rejected),
    }
}

/// The compressor's report as contracts see it.
pub open spec fn stream_view(outcome: Result<Vec<u8>, EncodeFault>) -> Result<
    Seq<u8>,
    EncodeFault,
> {
    match outcome {
        Ok(bytes) => Ok(bytes@),
        Err(fault) => Err(fault),
    }
}

/// Encodes `image` as JPEG at the fixed quality. The whole stream is
/// returned in memory; where the encoder refuses the image, nothing is.
pub fn compress(image: &ProcessableImage) -> (outcome: Result<Vec<u8>, EncodeFault>)
    ensures
        stream_view(outcome) == compressed(image@),
{
    match encode_jpeg(image.rgb_bytes(), image.width(), image.height(), JPEG_QUALITY) {
        Some(bytes) => Ok(bytes),
        None => Err(EncodeFault::Rejected),
    }
}

/// Decodes the content of an image file of `file_size` bytes on disk. What
/// the decoder makes of the content is passed on as it is, with the file's
/// size; a content that it cannot read as an image is `Undecodable`.
pub fn decode(content: &[u8], file_size: u64) -> (outcome: Result<DecodedFile, DecodeFault>)
    ensures
        match outcome {
            Ok(decoded) => decoded.file_size == file_size,
            Err(fault) => fault == DecodeFault::Undecodable,
        },
{
    match decode_pixels(content) {
        Some((width, height, rgb)) => Ok(DecodedFile { width, height, rgb, file_size }),
        None => Err(DecodeFault::Undecodable),
    }
}

} // verus!
