//! Rendering of timeline frames and playback.

pub mod time_player_bridge;
pub mod timeline_renderer;
