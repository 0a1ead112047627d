//! A non-linear editing timeline: tracks of time-positioned clips, interval
//! queries, the split operation, a frame cache with its renderer, and the
//! playback bridge that moves a playhead against a clock.
//!
//! Every instant and every length of time is a whole number of nanoseconds,
//! so that cuts and comparisons are exact.

pub mod ops;
pub mod renderer;
pub mod types;
pub mod ui;
