//! The two image types of the pipeline: the raw RGBA image that the
//! clipboard holds, and the RGB image that is handed to the compressor.

use crate::pixels::{
    buffer_len, has_buffer_len, lemma_rgb_of_rgba, rgb_of_rgba, strip_alpha, RGBA_CHANNELS,
    RGB_CHANNELS,
};
use vstd::prelude::*;

verus! {

/// A pixel buffer as contracts see it: its dimensions and its bytes.
pub struct Raster {
    pub width: u32,
    pub height: u32,
    pub bytes: Seq<u8>,
}

impl Raster {
    /// Four bytes for every pixel.
    pub open spec fn is_rgba(self) -> bool {
        self.bytes.len() == buffer_len(self.width, self.height, RGBA_CHANNELS)
    }

    /// Three bytes for every pixel.
    pub open spec fn is_rgb(self) -> bool {
        self.bytes.len() == buffer_len(self.width, self.height, RGB_CHANNELS)
    }

    /// The same picture without its alpha channel.
    pub open spec fn without_alpha(self) -> Raster {
        Raster { width: self.width, height: self.height, bytes: rgb_of_rgba(self.bytes) }
    }
}

/// Why a pixel buffer was turned down.
#[derive(Debug, PartialEq, Eq)]
pub enum ImageError {
    /// The buffer does not hold width x height pixels of the expected stride.
    LengthMismatch,
}

/// A raw clipboard image: `width * height` pixels of four bytes each.
#[derive(Debug, PartialEq, Eq)]
pub struct RawImage {
    width: u32,
    height: u32,
    bytes: Vec<u8>,
}

impl View for RawImage {
    type V = Raster;

    closed spec fn view(&self) -> Raster {
        Raster { width: self.width, height: self.height, bytes: self.bytes@ }
    }
}

impl RawImage {
    #[verifier::type_invariant]
    spec fn well_formed(self) -> bool {
        self@.is_rgba()
    }

    /// Accepts a buffer of exactly `width * height * 4` bytes. Any other
    /// length is refused, since its pixels could only be guessed at.
    pub fn new(width: u32, height: u32, bytes: Vec<u8>) -> (made: Result<RawImage, ImageError>)
        ensures
            match made {
                Ok(image) => image@ == (Raster { width, height, bytes: bytes@ }) && image@.is_rgba(),
                Err(e) => e == ImageError::LengthMismatch && bytes@.len() != buffer_len(
                    width,
                    height,
                    RGBA_CHANNELS,
                ),
            },
    {
        if has_buffer_len(bytes.len(), width, height, RGBA_CHANNELS) {
            Ok(RawImage { width, height, bytes })
        } else {
            Err(ImageError::LengthMismatch)
        }
    }

    /// The width in pixels.
    pub fn width(&self) -> (w: u32)
        ensures
            w == self@.width,
    {
        self.width
    }

    /// The height in pixels.
    pub fn height(&self) -> (h: u32)
        ensures
            h == self@.height,
    {
        self.height
    }

    /// The pixels, row by row, four bytes each.
    pub fn bytes(&self) -> (b: &[u8])
        ensures
            b@ == self@.bytes,
            self@.is_rgba(),
    {
        proof {
            use_type_invariant(self);
        }
        self.bytes.as_slice()
    }

    /// The same picture for the compressor: the alpha byte of every pixel is
    /// dropped, the other three are kept in place.
    pub fn to_rgb(&self) -> (image: ProcessableImage)
        ensures
            image@ == self@.without_alpha(),
            image@.is_rgb(),
    {
        proof {
            use_type_invariant(self);
            lemma_rgb_of_rgba(self.bytes@, self.width, self.height);
        }
        ProcessableImage {
            width: self.width,
            height: self.height,
            rgb: strip_alpha(self.bytes.as_slice()),
        }
    }
}

impl Clone for RawImage {
    fn clone(&self) -> (copy: Self)
        ensures
            copy@ == self@,
    {
        proof {
            use_type_invariant(self);
        }
        RawImage { width: self.width, height: self.height, bytes: self.bytes.clone() }
    }
}

/// An image that is ready for compression: `width * height` pixels of three
/// bytes each.
#[derive(Debug, PartialEq, Eq)]
pub struct ProcessableImage {
    width: u32,
    height: u32,
    rgb: Vec<u8>,
}

impl View for ProcessableImage {
    type V = Raster;

    closed spec fn view(&self) -> Raster {
        Raster { width: self.width, height: self.height, bytes: self.rgb@ }
    }
}

impl ProcessableImage {
    #[verifier::type_invariant]
    spec fn well_formed(self) -> bool {
        self@.is_rgb()
    }

    /// Accepts a buffer of exactly `width * height * 3` bytes.
    pub fn new(width: u32, height: u32, rgb: Vec<u8>) -> (made: Result<
        ProcessableImage,
        ImageError,
    >)
        ensures
            match made {
                Ok(image) => image@ == (Raster { width, height, bytes: rgb@ }) && image@.is_rgb(),
                Err(e) => e == ImageError::LengthMismatch && rgb@.len() != buffer_len(
                    width,
                    height,
                    RGB_CHANNELS,
                ),
            },
    {
        if has_buffer_len(rgb.len(), width, height, RGB_CHANNELS) {
            Ok(ProcessableImage { width, height, rgb })
        } else {
            Err(ImageError::LengthMismatch)
        }
    }

    /// The width in pixels.
    pub fn width(&self) -> (w: u32)
        ensures
            w == self@.width,
    {
        self.width
    }

    /// The height in pixels.
    pub fn height(&self) -> (h: u32)
        ensures
            h == self@.height,
    {
        self.height
    }

    /// The pixels, row by row, three bytes each.
    pub fn rgb_bytes(&self) -> (b: &[u8])
        ensures
            b@ == self@.bytes,
            self@.is_rgb(),
    {
        proof {
            use_type_invariant(self);
        }
        self.rgb.as_slice()
    }
}

} // verus!
