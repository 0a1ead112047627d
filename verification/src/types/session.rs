//! An editing session: a project and the state that lives only while it is
//! open.

use vstd::prelude::*;
use crate::types::project::Project;

verus! {

/// Where the playhead is within a session, and whether it moves.
#[derive(Debug, Clone, Copy, PartialEq, Eq, Structural)]
pub struct PlaybackState {
    pub playhead: i64,
    pub is_playing: bool,
    pub loop_start: Option<i64>,
    pub loop_end: Option<i64>,
}

impl PlaybackState {
    pub fn new() -> (r: Self)
        ensures
            r == (PlaybackState {
                playhead: 0,
                is_playing: false,
                loop_start: None,
                loop_end: None,
            }),
    {
        PlaybackState { playhead: 0, is_playing: false, loop_start: None, loop_end: None }
    }
}

/// A project that is open, with the playback state of the session. Only the
/// project outlives the session.
#[derive(Debug)]
pub struct ProjectSession {
    pub project: Project,
    pub playback_state: PlaybackState,
}

impl ProjectSession {
    pub fn new(project: Project) -> (r: Self)
        ensures
            r.project == project,
            r.playback_state == (PlaybackState {
                playhead: 0,
                is_playing: false,
                loop_start: None,
                loop_end: None,
            }),
    {
        ProjectSession { project, playback_state: PlaybackState::new() }
    }
}

} // verus!
