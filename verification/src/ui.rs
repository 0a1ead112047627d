//! What the presentation layer needs computed before it draws, and after a
//! gesture ends.

pub mod timeline_widget;
pub mod video_player;
