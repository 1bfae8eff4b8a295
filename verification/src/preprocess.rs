//! Fixed-threshold binarization of a grayscale image buffer.
//!
//! The image is a flat buffer of single-byte luminance samples. Every
//! sample strictly above the midpoint of the 0-255 range becomes white
//! (255); every other sample becomes black (0).

use vstd::prelude::*;

verus! {

/// The binarization threshold: samples strictly above it become white.
pub const THRESHOLD: u8 = 128;

/// What one luminance sample becomes: white for values strictly above the
/// threshold, black otherwise.
pub open spec fn binarize_spec(v: u8) -> u8 {
    if v > THRESHOLD {
        255
    } else {
        0
    }
}

/// Holds when every sample of a buffer is pure black or pure white.
pub open spec fn is_binary(s: Seq<u8>) -> bool {
    forall|i: int| 0 <= i < s.len() ==> s[i] == 0 || s[i] == 255
}

/// Binarize one luminance sample.
pub fn binarize(v: u8) -> (r: u8)
    ensures
        r == binarize_spec(v),
        v > 128 ==> r == 255,
        v <= 128 ==> r == 0,
{
    if v > THRESHOLD {
        255
    } else {
        0
    }
}

/// Binarize a whole luminance buffer in place.
pub fn binarize_pixels(pixels: &mut Vec<u8>)
    ensures
        final(pixels)@.len() == old(pixels)@.len(),
        forall|i: int| 0 <= i < final(pixels)@.len() ==> final(pixels)@[i] == binarize_spec(
            old(pixels)@[i],
        ),
        is_binary(final(pixels)@),
{
    let n = pixels.len();
    let mut i: usize = 0;
    while i < n
        invariant
            n == pixels@.len() == old(pixels)@.len(),
            i <= n,
            forall|j: int| 0 <= j < i ==> pixels@[j] == binarize_spec(old(pixels)@[j]),
            forall|j: int| i <= j < n ==> pixels@[j] == old(pixels)@[j],
        decreases n - i,
    {
        let v = pixels[i];
        pixels.set(i, binarize(v));
        i = i + 1;
    }
}

} // verus!
