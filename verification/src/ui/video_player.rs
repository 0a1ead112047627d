//! Frames on their way to the screen.

use image::{ImageBuffer, Rgba};
use vstd::prelude::*;
use crate::types::time::FRAME_DIVISOR;

verus! {

/// The highest frame number that the player shows.
pub const MAX_FRAME: usize = 1_000_000;

/// The farthest that the player seeks into a medium: one hour.
pub const MAX_SEEK: u64 = 3_600_000_000_000;

/// The frame number that the player shows for a request of `frame`.
pub open spec fn shown_frame(frame: int) -> int {
    if frame > MAX_FRAME {
        MAX_FRAME as int
    } else {
        frame
    }
}

/// The position in the medium at which frame `frame` starts at `frame_rate`
/// frames per thousand seconds, rounded down, and at most `MAX_SEEK`. At a
/// frame rate of zero no frame but the first ever starts.
pub open spec fn frame_seek_position(frame: int, frame_rate: int) -> int {
    if frame <= 0 {
        0
    } else if frame_rate <= 0 {
        MAX_SEEK as int
    } else if (frame * FRAME_DIVISOR) / frame_rate > MAX_SEEK {
        MAX_SEEK as int
    } else {
        (frame * FRAME_DIVISOR) / frame_rate
    }
}

/// Brings a frame number within what the player shows.
pub fn clamp_frame(frame: usize) -> (r: usize)
    ensures
        r == shown_frame(frame as int),
{
    if frame > MAX_FRAME {
        MAX_FRAME
    } else {
        frame
    }
}

/// Computes the position in the medium to seek to for a frame number.
pub fn seek_position_of_frame(frame: usize, frame_rate: u32) -> (r: u64)
    ensures
        r == frame_seek_position(frame as int, frame_rate as int),
        r <= MAX_SEEK,
{
    if frame == 0 {
        0
    } else if frame_rate == 0 {
        MAX_SEEK
    } else {
        let position: u128 = (frame as u128 * FRAME_DIVISOR as u128) / (frame_rate as u128);
        if position > MAX_SEEK as u128 {
            MAX_SEEK
        } else {
            position as u64
        }
    }
}

/// The longest side, in pixels, of a frame that is put on the screen.
pub const MAX_SIDE: i32 = 8192;

/// A decoded frame of `width` by `height` pixels in a buffer of `len` bytes
/// can be put on the screen: both sides are positive and at most
/// `MAX_SIDE`, and the buffer holds four bytes for every pixel.
pub open spec fn displayable(width: int, height: int, len: nat) -> bool {
    &&& 0 < width <= MAX_SIDE
    &&& 0 < height <= MAX_SIDE
    &&& 4 * width * height <= len
}

/// A frame that can be put on the screen: RGBA pixels, four bytes each, row
/// by row.
#[derive(Debug)]
pub struct DisplayFrame {
    pub width: u32,
    pub height: u32,
    pub pixels: Vec<u8>,
}

/// Calls `ImageBuffer::<Rgba<u8>, Vec<u8>>::from_raw` of the crate `image`,
/// and `into_raw` on the image that it gives. `from_raw` takes the buffer
/// where it holds at least four samples for each of `width` times `height`
/// pixels, and gives `None` otherwise; the buffer itself is kept as it is.
#[verifier::external_body]
fn rgba_container(width: u32, height: u32, pixels: Vec<u8>) -> (r: Option<Vec<u8>>)
    ensures
        r is Some <==> 4 * width * height <= pixels@.len(),
        r matches Some(kept) ==> kept@ == pixels@,
{
    match ImageBuffer::<Rgba<u8>, Vec<u8>>::from_raw(width, height, pixels) {
        Some(image) => Some(image.into_raw()),
        None => None,
    }
}

/// Calls `bytemuck::cast_slice` from bytes to bytes, which hands the same
/// bytes back.
#[verifier::external_body]
fn cast_bytes(raw: &[u8]) -> (r: &[u8])
    ensures
        r@ == raw@,
{
    bytemuck::cast_slice(raw)
}

/// Takes a decoded frame for display, or refuses it: `None` where a side is
/// not positive or longer than `MAX_SIDE`, or where the buffer holds fewer
/// than four bytes for every pixel.
pub fn display_frame(width: i32, height: i32, data: Vec<u8>) -> (r: Option<DisplayFrame>)
    ensures
        r is Some <==> displayable(width as int, height as int, data@.len()),
        r matches Some(frame) ==> frame.width == width && frame.height == height && frame.pixels@
            == data@,
{
    // Validate dimensions
    if width <= 0 || height <= 0 || width > MAX_SIDE || height > MAX_SIDE {
        return None;
    }
    let width = width as u32;
    let height = height as u32;
    match rgba_container(width, height, data) {
        Some(pixels) => Some(DisplayFrame { width, height, pixels }),
        None => None,
    }
}

impl DisplayFrame {
    /// The bytes of the frame, as the screen takes them.
    pub fn rgba(&self) -> (r: &[u8])
        ensures
            r@ == self.pixels@,
    {
        cast_bytes(self.pixels.as_slice())
    }

    /// Whether the buffer holds four bytes for every pixel, and no more.
    pub fn fills_exactly(&self) -> (r: bool)
        ensures
            r == (self.pixels@.len() == 4 * self.width * self.height),
    {
        assert(4 * self.width * self.height <= 4 * 0xffff_ffff * 0xffff_ffff) by (nonlinear_arith)
            requires
                0 <= self.width <= 0xffff_ffff,
                0 <= self.height <= 0xffff_ffff,
        ;
        let needed: u128 = 4 * (self.width as u128) * (self.height as u128);
        self.pixels.len() as u128 == needed
    }
}

} // verus!
