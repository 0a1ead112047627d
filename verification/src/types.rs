//! The data model: clips, tracks, the timeline and the state around it.

pub mod media;
pub mod media_library;
pub mod playback_state;
pub mod project;
pub mod search;
pub mod session;
pub mod time;
pub mod timeline;
pub mod track;
