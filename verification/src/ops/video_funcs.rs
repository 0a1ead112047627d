//! The arithmetic of operations on media files: where a decoder or an
//! encoder is told to seek.
//!
//! Media frameworks count positions in unsigned nanoseconds from the start
//! of the medium.

use vstd::prelude::*;
use crate::types::time::NANOS_PER_SECOND;

verus! {

/// The position in a medium that an instant stands for: the instant itself,
/// or the start of the medium for an instant before it.
pub open spec fn media_position(time: int) -> int {
    if time < 0 {
        0
    } else {
        time
    }
}

/// The length of the stretch from `start` to `end`; none where `end` does
/// not lie after `start`.
pub open spec fn stretch(start: int, end: int) -> int {
    if end <= start {
        0
    } else {
        end - start
    }
}

/// Where a trim from `start` to `end` stops: as long after the position of
/// `start` as `end` lies after `start`.
pub open spec fn trim_stop(start: int, end: int) -> int {
    media_position(start) + stretch(start, end)
}

/// Computes the position in a medium to seek to for an instant.
pub fn seek_position(time: i64) -> (r: u64)
    ensures
        r == media_position(time as int),
{
    if time < 0 {
        0
    } else {
        time as u64
    }
}

/// Computes where a trim from `start` to `end` begins in the medium and
/// where it stops. Gives `None` where the stop cannot be counted in 64 bits.
pub fn trim_window(start: i64, end: i64) -> (r: Option<(u64, u64)>)
    ensures
        r is Some <==> trim_stop(start as int, end as int) <= u64::MAX,
        r matches Some((from, to)) ==> from == media_position(start as int) && to == trim_stop(
            start as int,
            end as int,
        ),
        r matches Some((from, to)) ==> from <= to,
{
    let from: u64 = seek_position(start);
    let length: u64 = if end <= start {
        0
    } else {
        (end as i128 - start as i128) as u64
    };
    match from.checked_add(length) {
        Some(to) => Some((from, to)),
        None => None,
    }
}

/// Turns a length counted in whole seconds into nanoseconds. Gives `None`
/// where an instant cannot hold it.
pub fn whole_seconds_to_nanos(seconds: u64) -> (r: Option<i64>)
    ensures
        r is Some <==> seconds * NANOS_PER_SECOND <= i64::MAX,
        r matches Some(nanos) ==> nanos == seconds * NANOS_PER_SECOND,
{
    // The most whole seconds that an instant can hold
    let most: u64 = 9_223_372_036;
    if seconds <= most {
        Some(seconds as i64 * NANOS_PER_SECOND)
    } else {
        None
    }
}

/// Whether an instant lies within a medium of the given length, where the
/// length is known.
pub fn timestamp_is_valid(time: i64, duration: Option<i64>) -> (r: bool)
    ensures
        r == (duration matches Some(length) && 0 <= time <= length),
{
    match duration {
        Some(length) => time >= 0 && time <= length,
        None => false,
    }
}

} // verus!
