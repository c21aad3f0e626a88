//! Pixel buffers: byte counts and the RGBA to RGB conversion.

use vstd::prelude::*;

verus! {

/// Bytes per pixel of a raw clipboard image (red, green, blue, alpha).
pub const RGBA_CHANNELS: u8 = 4;

/// Bytes per pixel of an image that is ready for compression (red, green, blue).
pub const RGB_CHANNELS: u8 = 3;

/// The number of bytes in a tightly packed `width` by `height` buffer with
/// `channels` bytes per pixel.
pub open spec fn buffer_len(width: u32, height: u32, channels: u8) -> nat {
    (width as nat) * (height as nat) * (channels as nat)
}

/// What is left of an RGBA buffer when the fourth byte of every pixel is
/// dropped: byte `c` of pixel `p` of the result is byte `c` of pixel `p` of
/// the input, for `c` in 0..3. Bytes after the last whole pixel are ignored.
pub open spec fn rgb_of_rgba(rgba: Seq<u8>) -> Seq<u8> {
    Seq::new(((rgba.len() / 4) * 3) as nat, |i: int| rgba[(i / 3) * 4 + i % 3])
}

/// Whether `len` bytes are exactly a `width` by `height` buffer with
/// `channels` bytes per pixel.
pub fn has_buffer_len(len: usize, width: u32, height: u32, channels: u8) -> (fits: bool)
    ensures
        fits == (len as nat == buffer_len(width, height, channels)),
{
    assert((width as nat) * (height as nat) <= 0xffff_ffff * 0xffff_ffff) by (nonlinear_arith)
        requires
            width <= 0xffff_ffff,
            height <= 0xffff_ffff,
    ;
    let pixels: u64 = (width as u64) * (height as u64);
    assert((pixels as nat) * (channels as nat) <= 0xffff_ffff_ffff_ffff * 0xff)
        by (nonlinear_arith)
        requires
            pixels <= 0xffff_ffff_ffff_ffff,
            channels <= 0xff,
    ;
    let expected: u128 = (pixels as u128) * (channels as u128);
    len as u128 == expected
}

/// Drops the alpha byte of every pixel of an RGBA buffer.
pub fn strip_alpha(rgba: &[u8]) -> (rgb: Vec<u8>)
    ensures
        rgb@ == rgb_of_rgba(rgba@),
{
    let pixels: usize = rgba.len() / 4;
    let mut rgb: Vec<u8> = Vec::with_capacity(pixels * 3);
    let mut p: usize = 0;
    while p < pixels
        invariant
            rgba@.len() <= usize::MAX,
            pixels == rgba@.len() / 4,
            p <= pixels,
            rgb@.len() == p * 3,
            forall|i: int| 0 <= i < rgb@.len() ==> rgb@[i] == rgba@[(i / 3) * 4 + i % 3],
        decreases pixels - p,
    {
        let base: usize = p * 4;
        rgb.push(rgba[base]);
        rgb.push(rgba[base + 1]);
        rgb.push(rgba[base + 2]);
        p = p + 1;
    }
    rgb
}

/// Dropping every fourth byte keeps three of every four: the result of
/// [`rgb_of_rgba`] on a `width` by `height` RGBA buffer is a `width` by
/// `height` RGB buffer, and each of its pixels has the red, green and blue
/// bytes of the same pixel of the input.
pub proof fn lemma_rgb_of_rgba(rgba: Seq<u8>, width: u32, height: u32)
    requires
        rgba.len() == buffer_len(width, height, RGBA_CHANNELS),
    ensures
        rgb_of_rgba(rgba).len() == buffer_len(width, height, RGB_CHANNELS),
        forall|p: int, c: int|
            0 <= p < (width as nat) * (height as nat) && 0 <= c < 3 ==> #[trigger] rgb_of_rgba(
                rgba,
            )[3 * p + c] == rgba[4 * p + c],
{
    let n = (width as nat) * (height as nat);
    assert(rgba.len() == n * 4) by (nonlinear_arith)
        requires
            rgba.len() == (width as nat) * (height as nat) * 4,
            n == (width as nat) * (height as nat),
    ;
    assert(rgba.len() / 4 == n);
    assert(buffer_len(width, height, RGB_CHANNELS) == n * 3) by (nonlinear_arith)
        requires
            buffer_len(width, height, RGB_CHANNELS) == (width as nat) * (height as nat) * 3,
            n == (width as nat) * (height as nat),
    ;
    assert forall|p: int, c: int| 0 <= p < n && 0 <= c < 3 implies #[trigger] rgb_of_rgba(rgba)[3
        * p + c] == rgba[4 * p + c] by {
        let i = 3 * p + c;
        assert(i / 3 == p && i % 3 == c);
    }
}

} // verus!
