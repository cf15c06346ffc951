//! The frame codec: from a decoded snapshot to an encoder-ready frame.
//!
//! A snapshot arrives as lossy-compressed still-image bytes and is
//! decompressed by the surrounding program into a red-green-blue pixel
//! grid, handed in here as plain values. (The image decoders can abort the
//! process on hostile bytes instead of returning an error, so that call
//! cannot keep this library's no-panic guarantee and runs outside, behind
//! a panic guard.) An explicit, verified per-channel step then converts
//! the grid to the four-channel layout the terminal encoder expects,
//! copying red, green and blue in that order and adding an opaque alpha.
//! A swapped-channel conversion silently produces colour-inverted frames,
//! so the channel order is pinned pixel-exactly by contract rather than
//! assumed. The resulting frame carries the size invariant the encoder
//! demands.

use vstd::prelude::*;
use crate::error::AppError;

verus! {

/// A decoded pixel grid, three 8-bit channels per pixel, row-major.
#[derive(Debug)]
pub struct RgbImage {
    pub data: Vec<u8>,
    pub width: u32,
    pub height: u32,
}

impl RgbImage {
    /// The backing storage holds exactly three channels per pixel.
    pub open spec fn well_formed(self) -> bool {
        self.data@.len() == 3 * self.width * self.height
    }
}

/// A normalized pixel grid, four 8-bit channels per pixel, row-major: the
/// layout handed to the terminal-graphics encoder.
#[derive(Debug)]
pub struct RgbaImage {
    pub data: Vec<u8>,
    pub width: u32,
    pub height: u32,
}

impl RgbaImage {
    /// The backing storage holds exactly four channels per pixel.
    pub open spec fn well_formed(self) -> bool {
        self.data@.len() == 4 * self.width * self.height
    }

    /// A frame with no pixels cannot be encoded.
    pub open spec fn is_empty(self) -> bool {
        self.width == 0 || self.height == 0
    }
}

/// Pixel `i` of `rgba` is the normalization of pixel `i` of `rgb`: the
/// decoded red, green and blue channels in that order, then an opaque alpha
/// of 255. Keeping the order is the point — a rotated or swapped channel
/// here is exactly the colour-inversion class of bug this step guards
/// against.
pub open spec fn pixel_normalized(rgba: Seq<u8>, rgb: Seq<u8>, i: int) -> bool {
    &&& rgba[4 * i] == rgb[3 * i]
    &&& rgba[4 * i + 1] == rgb[3 * i + 1]
    &&& rgba[4 * i + 2] == rgb[3 * i + 2]
    &&& rgba[4 * i + 3] == 255
}

/// The normalized counterpart of a decoded pixel string: every one of the
/// `pixels` pixels is remapped as `pixel_normalized` says.
pub open spec fn is_normalized_of(rgba: Seq<u8>, rgb: Seq<u8>, pixels: int) -> bool {
    &&& rgba.len() == 4 * pixels
    &&& forall|i: int| 0 <= i < pixels ==> #[trigger] pixel_normalized(rgba, rgb, i)
}

/// Converts the decoded grid to the four-channel encoder layout, copying
/// the red, green and blue channels of every pixel in that order and adding
/// an opaque alpha of 255 — an explicit per-channel step, so a decoded
/// colour can never come out rotated or swapped.
pub fn normalize_channels(src: &RgbImage) -> (dst: RgbaImage)
    requires
        src.well_formed(),
    ensures
        dst.well_formed(),
        dst.width == src.width,
        dst.height == src.height,
        is_normalized_of(dst.data@, src.data@, src.width * src.height),
{
    let pixel_count = src.data.len() / 3;
    proof {
        let w = src.width as int;
        let h = src.height as int;
        assert(3 * w * h == 3 * (w * h) && (3 * (w * h)) / 3 == w * h && 4 * (w * h) == 4 * w
            * h) by (nonlinear_arith);
    }
    let mut data: Vec<u8> = Vec::new();
    let mut i: usize = 0;
    while i < pixel_count
        invariant
            src.data@.len() == 3 * pixel_count,
            src.data@.len() <= usize::MAX,
            pixel_count == src.width * src.height,
            i <= pixel_count,
            data@.len() == 4 * i,
            forall|j: int| 0 <= j < i ==> #[trigger] pixel_normalized(data@, src.data@, j),
        decreases pixel_count - i,
    {
        let base = 3 * i;
        let red = src.data[base];
        let green = src.data[base + 1];
        let blue = src.data[base + 2];
        let ghost prev = data@;
        data.push(red);
        data.push(green);
        data.push(blue);
        data.push(255);
        proof {
            assert forall|j: int| 0 <= j <= i implies #[trigger] pixel_normalized(
                data@,
                src.data@,
                j,
            ) by {
                if j < i {
                    assert(pixel_normalized(prev, src.data@, j));
                    assert(data@[4 * j] == prev[4 * j]);
                    assert(data@[4 * j + 1] == prev[4 * j + 1]);
                    assert(data@[4 * j + 2] == prev[4 * j + 2]);
                    assert(data@[4 * j + 3] == prev[4 * j + 3]);
                } else {
                    assert(data@[4 * j] == red);
                    assert(data@[4 * j + 1] == green);
                    assert(data@[4 * j + 2] == blue);
                    assert(data@[4 * j + 3] == 255);
                }
            }
        }
        i = i + 1;
    }
    RgbaImage { data, width: src.width, height: src.height }
}

/// The encoder rejects a frame with no pixels; everything else about the
/// frame it accepts is the encoder's own affair. Succeeds exactly on
/// non-empty frames and fails with the encode error otherwise.
pub fn ensure_encodable(frame: &RgbaImage) -> (r: Result<(), AppError>)
    ensures
        r is Ok <==> !frame.is_empty(),
        r is Err ==> r->Err_0 == AppError::Encode,
{
    if frame.width == 0 || frame.height == 0 {
        Err(AppError::Encode)
    } else {
        Ok(())
    }
}

/// Normalizes one decoded snapshot for the encoder: the compute half of a
/// render. A grid with no pixels cannot be encoded and is an encode
/// failure; anything else yields the normalized frame. The outcome is a
/// function of the decoded grid alone, so two calls on the same snapshot
/// produce the same frame.
pub fn process_decoded(img: &RgbImage) -> (r: Result<RgbaImage, AppError>)
    requires
        img.well_formed(),
    ensures
        r is Ok <==> img.width != 0 && img.height != 0,
        match r {
            Ok(frame) => {
                &&& frame.well_formed()
                &&& !frame.is_empty()
                &&& frame.width == img.width
                &&& frame.height == img.height
                &&& is_normalized_of(frame.data@, img.data@, img.width * img.height)
            },
            Err(e) => e == AppError::Encode,
        },
{
    let frame = normalize_channels(img);
    match ensure_encodable(&frame) {
        Ok(_) => Ok(frame),
        Err(e) => Err(e),
    }
}

} // verus!
