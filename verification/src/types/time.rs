//! Units of time and of rate.
//!
//! Instants and durations are signed 64-bit counts of nanoseconds. Rates are
//! fixed-point: a frame rate counts frames per thousand seconds, a playback
//! rate or a volume counts thousandths of the nominal value.

use vstd::prelude::*;

verus! {

/// Nanoseconds in one second.
pub const NANOS_PER_SECOND: i64 = 1_000_000_000;

/// The value that stands for "nominal" in a quantity counted in thousandths
/// (a playback rate of 1.0, a volume of 1.0), and the number of frame-rate
/// units in one frame per second.
pub const UNITS_PER_ONE: u32 = 1_000;

/// Nanoseconds times frame-rate units in one frame: the divisor that turns an
/// instant multiplied by a frame rate into a frame number.
pub const FRAME_DIVISOR: u64 = 1_000_000_000_000;

/// The nearest value to `x` that a stored instant can hold.
pub open spec fn clamp_time(x: int) -> int {
    if x > i64::MAX {
        i64::MAX as int
    } else if x < i64::MIN {
        i64::MIN as int
    } else {
        x
    }
}

/// Brings a wide intermediate result back into the range of an instant.
pub fn saturate(x: i128) -> (r: i64)
    ensures
        r == clamp_time(x as int),
{
    if x > i64::MAX as i128 {
        i64::MAX
    } else if x < i64::MIN as i128 {
        i64::MIN
    } else {
        x as i64
    }
}

/// The number of the frame that is on screen at instant `time` when
/// `frame_rate` frames are shown per thousand seconds: the whole frames that
/// have elapsed since instant zero. Instants before zero belong to frame 0.
pub open spec fn frame_number_at(time: int, frame_rate: int) -> int {
    if time <= 0 {
        0
    } else {
        (time * frame_rate) / (FRAME_DIVISOR as int)
    }
}

/// Computes the frame number of an instant.
pub fn frame_number(time: i64, frame_rate: u32) -> (r: u64)
    ensures
        r == frame_number_at(time as int, frame_rate as int),
{
    if time <= 0 {
        0
    } else {
        assert(0 <= time * frame_rate <= 100_000_000_000_000_000_000_000_000_000int)
            by (nonlinear_arith)
            requires
                0 < time <= 10_000_000_000_000_000_000int,
                0 <= frame_rate <= 10_000_000_000int,
        ;
        let product: u128 = (time as u128) * (frame_rate as u128);
        let frames: u128 = product / (FRAME_DIVISOR as u128);
        frames as u64
    }
}

} // verus!
