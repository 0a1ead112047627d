//! The state of playback: where the playhead is and how it moves.

use vstd::prelude::*;

verus! {

/// The playhead with the settings that govern its motion. `volume` and
/// `playback_rate` count thousandths: 1000 is full volume and normal speed.
/// A negative rate plays backwards. This state lives for a session only.
#[derive(Debug, Clone, Copy, PartialEq, Eq, Structural)]
pub struct PlaybackState {
    pub playhead: i64,
    pub is_playing: bool,
    pub loop_start: Option<i64>,
    pub loop_end: Option<i64>,
    pub volume: u32,
    pub playback_rate: i32,
}

impl PlaybackState {
    /// The state at rest: playhead at instant zero, paused, no loop, full
    /// volume, normal speed.
    pub open spec fn initial() -> PlaybackState {
        PlaybackState {
            playhead: 0,
            is_playing: false,
            loop_start: None,
            loop_end: None,
            volume: 1000,
            playback_rate: 1000,
        }
    }

    pub fn new() -> (r: Self)
        ensures
            r == Self::initial(),
    {
        PlaybackState {
            playhead: 0,
            is_playing: false,
            loop_start: None,
            loop_end: None,
            volume: 1000,
            playback_rate: 1000,
        }
    }
}

impl Default for PlaybackState {
    fn default() -> (r: Self)
        ensures
            r == Self::initial(),
    {
        Self::new()
    }
}

} // verus!
