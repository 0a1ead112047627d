//! Operations on clips and on media files.

pub mod clip_ops;
pub mod video_funcs;
