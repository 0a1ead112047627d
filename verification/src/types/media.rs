//! Clips: placed, time-bounded references to a slice of a media asset.

use vstd::prelude::*;

verus! {

/// What a clip is, whatever its kind: an identifier, the asset it plays, the
/// range of the asset that it consumes, its place on the timeline, and the
/// format description `M` of its kind.
pub struct ClipView<M> {
    pub id: Seq<char>,
    pub asset_path: Seq<char>,
    pub in_point: int,
    pub out_point: int,
    pub start_time: int,
    pub duration: int,
    pub metadata: M,
}

impl<M> ClipView<M> {
    /// The instant at which the clip ends on the timeline. The clip occupies
    /// the half-open interval from `start_time` to this instant.
    pub open spec fn end_time(self) -> int {
        self.start_time + self.duration
    }

    /// The invariant of a clip: it consumes a non-empty range of its asset,
    /// starts at or after instant zero, and lasts for a positive time.
    pub open spec fn well_formed(self) -> bool {
        &&& self.in_point < self.out_point
        &&& self.start_time >= 0
        &&& self.duration > 0
    }

    /// The clip plays its source at its natural speed: it lasts exactly as
    /// long as the range of the asset that it consumes.
    pub open spec fn plays_at_source_speed(self) -> bool {
        self.duration == self.out_point - self.in_point
    }

    /// The clip keeps its invariant, plays at source speed, and consumes a
    /// range of its asset that instants can hold: what every clip is that
    /// was built as a clip and cut, but never retimed.
    pub open spec fn sound(self) -> bool {
        &&& self.well_formed()
        &&& self.plays_at_source_speed()
        &&& i64::MIN <= self.in_point
        &&& self.out_point <= i64::MAX
    }

    /// `time` lies in the clip's half-open interval.
    pub open spec fn is_active_at(self, time: int) -> bool {
        self.start_time <= time < self.end_time()
    }

    /// The clip's half-open interval meets the half-open range from `start`
    /// to `end`.
    pub open spec fn overlaps(self, start: int, end: int) -> bool {
        self.end_time() > start && self.start_time < end
    }

    /// `time` lies strictly between the clip's start and its end.
    pub open spec fn strictly_contains(self, time: int) -> bool {
        self.start_time < time < self.end_time()
    }
}

/// Why a clip was refused at construction.
#[derive(Debug, Clone, Copy, PartialEq, Eq, Structural)]
pub enum MalformedClip {
    /// `out_point` does not lie after `in_point`.
    EmptySourceRange,
    /// `start_time` lies before instant zero.
    NegativeStartTime,
    /// `duration` is zero or negative.
    NonPositiveDuration,
}

/// The first rule of a clip's invariant that the given timing breaks, if any.
pub open spec fn timing_fault(in_point: int, out_point: int, start_time: int, duration: int)
    -> Option<MalformedClip> {
    if out_point <= in_point {
        Some(MalformedClip::EmptySourceRange)
    } else if start_time < 0 {
        Some(MalformedClip::NegativeStartTime)
    } else if duration <= 0 {
        Some(MalformedClip::NonPositiveDuration)
    } else {
        None
    }
}

/// Checks a clip's timing against the invariant of clips.
pub fn check_timing(in_point: i64, out_point: i64, start_time: i64, duration: i64) -> (r: Result<
    (),
    MalformedClip,
>)
    ensures
        r is Ok <==> timing_fault(in_point as int, out_point as int, start_time as int, duration as int)
            is None,
        r matches Err(e) ==> timing_fault(
            in_point as int,
            out_point as int,
            start_time as int,
            duration as int,
        ) == Some(e),
{
    if out_point <= in_point {
        Err(MalformedClip::EmptySourceRange)
    } else if start_time < 0 {
        Err(MalformedClip::NegativeStartTime)
    } else if duration <= 0 {
        Err(MalformedClip::NonPositiveDuration)
    } else {
        Ok(())
    }
}

/// Read access to what every kind of clip has.
pub trait Clip {
    /// The model of the kind's format description.
    type MetadataView;

    /// The clip as a mathematical value.
    spec fn model(&self) -> ClipView<Self::MetadataView>;

    fn id(&self) -> (r: &str)
        ensures
            r@ == self.model().id,
    ;

    fn asset_path(&self) -> (r: &str)
        ensures
            r@ == self.model().asset_path,
    ;

    fn in_point(&self) -> (r: i64)
        ensures
            r == self.model().in_point,
    ;

    fn out_point(&self) -> (r: i64)
        ensures
            r == self.model().out_point,
    ;

    fn start_time(&self) -> (r: i64)
        ensures
            r == self.model().start_time,
    ;

    fn duration(&self) -> (r: i64)
        ensures
            r == self.model().duration,
    ;
}

/// The format of a video asset. `frame_rate` counts frames per thousand
/// seconds.
#[derive(Debug, PartialEq)]
pub struct VideoMetadata {
    pub resolution: (u32, u32),
    pub frame_rate: u32,
    pub codec: String,
}

pub struct VideoMetadataView {
    pub resolution: (u32, u32),
    pub frame_rate: u32,
    pub codec: Seq<char>,
}

impl View for VideoMetadata {
    type V = VideoMetadataView;

    open spec fn view(&self) -> VideoMetadataView {
        VideoMetadataView {
            resolution: self.resolution,
            frame_rate: self.frame_rate,
            codec: self.codec@,
        }
    }
}

impl Clone for VideoMetadata {
    fn clone(&self) -> (r: Self)
        ensures
            r == *self,
    {
        VideoMetadata {
            resolution: self.resolution,
            frame_rate: self.frame_rate,
            codec: self.codec.clone(),
        }
    }
}

/// A video clip placed on a track.
#[derive(Debug, PartialEq)]
pub struct VideoClip {
    pub id: String,
    pub asset_path: String,
    pub in_point: i64,
    pub out_point: i64,
    pub start_time: i64,
    pub duration: i64,
    pub metadata: VideoMetadata,
}

impl View for VideoClip {
    type V = ClipView<VideoMetadataView>;

    open spec fn view(&self) -> ClipView<VideoMetadataView> {
        ClipView {
            id: self.id@,
            asset_path: self.asset_path@,
            in_point: self.in_point as int,
            out_point: self.out_point as int,
            start_time: self.start_time as int,
            duration: self.duration as int,
            metadata: self.metadata@,
        }
    }
}

impl Clone for VideoClip {
    fn clone(&self) -> (r: Self)
        ensures
            r == *self,
    {
        VideoClip {
            id: self.id.clone(),
            asset_path: self.asset_path.clone(),
            in_point: self.in_point,
            out_point: self.out_point,
            start_time: self.start_time,
            duration: self.duration,
            metadata: self.metadata.clone(),
        }
    }
}

impl VideoClip {
    /// Builds a clip, or says which rule of the invariant its timing breaks.
    pub fn new(
        id: String,
        asset_path: String,
        in_point: i64,
        out_point: i64,
        start_time: i64,
        duration: i64,
        metadata: VideoMetadata,
    ) -> (r: Result<VideoClip, MalformedClip>)
        ensures
            r is Ok <==> timing_fault(
                in_point as int,
                out_point as int,
                start_time as int,
                duration as int,
            ) is None,
            r matches Err(e) ==> timing_fault(
                in_point as int,
                out_point as int,
                start_time as int,
                duration as int,
            ) == Some(e),
            r matches Ok(clip) ==> clip@.well_formed() && clip == (VideoClip {
                id,
                asset_path,
                in_point,
                out_point,
                start_time,
                duration,
                metadata,
            }),
    {
        match check_timing(in_point, out_point, start_time, duration) {
            Ok(()) => Ok(
                VideoClip { id, asset_path, in_point, out_point, start_time, duration, metadata },
            ),
            Err(e) => Err(e),
        }
    }

    /// Whether `time` lies in the clip's half-open interval.
    pub fn is_active_at(&self, time: i64) -> (r: bool)
        ensures
            r == self@.is_active_at(time as int),
    {
        time >= self.start_time && (time as i128) < self.start_time as i128 + self.duration as i128
    }

    /// Whether the clip's half-open interval meets the half-open range from
    /// `start` to `end`.
    pub fn overlaps(&self, start: i64, end: i64) -> (r: bool)
        ensures
            r == self@.overlaps(start as int, end as int),
    {
        self.start_time as i128 + self.duration as i128 > start as i128 && self.start_time < end
    }
}

impl Clip for VideoClip {
    type MetadataView = VideoMetadataView;

    open spec fn model(&self) -> ClipView<VideoMetadataView> {
        self@
    }

    fn id(&self) -> (r: &str) {
        self.id.as_str()
    }

    fn asset_path(&self) -> (r: &str) {
        self.asset_path.as_str()
    }

    fn in_point(&self) -> (r: i64) {
        self.in_point
    }

    fn out_point(&self) -> (r: i64) {
        self.out_point
    }

    fn start_time(&self) -> (r: i64) {
        self.start_time
    }

    fn duration(&self) -> (r: i64) {
        self.duration
    }
}

/// The format of an audio asset.
#[derive(Debug, PartialEq)]
pub struct AudioMetadata {
    pub sample_rate: u32,
    pub channels: u32,
    pub codec: String,
    pub bitrate: u32,
}

pub struct AudioMetadataView {
    pub sample_rate: u32,
    pub channels: u32,
    pub codec: Seq<char>,
    pub bitrate: u32,
}

impl View for AudioMetadata {
    type V = AudioMetadataView;

    open spec fn view(&self) -> AudioMetadataView {
        AudioMetadataView {
            sample_rate: self.sample_rate,
            channels: self.channels,
            codec: self.codec@,
            bitrate: self.bitrate,
        }
    }
}

impl Clone for AudioMetadata {
    fn clone(&self) -> (r: Self)
        ensures
            r == *self,
    {
        AudioMetadata {
            sample_rate: self.sample_rate,
            channels: self.channels,
            codec: self.codec.clone(),
            bitrate: self.bitrate,
        }
    }
}

/// An audio clip placed on a track.
#[derive(Debug, PartialEq)]
pub struct AudioClip {
    pub id: String,
    pub asset_path: String,
    pub in_point: i64,
    pub out_point: i64,
    pub start_time: i64,
    pub duration: i64,
    pub metadata: AudioMetadata,
}

impl View for AudioClip {
    type V = ClipView<AudioMetadataView>;

    open spec fn view(&self) -> ClipView<AudioMetadataView> {
        ClipView {
            id: self.id@,
            asset_path: self.asset_path@,
            in_point: self.in_point as int,
            out_point: self.out_point as int,
            start_time: self.start_time as int,
            duration: self.duration as int,
            metadata: self.metadata@,
        }
    }
}

impl Clone for AudioClip {
    fn clone(&self) -> (r: Self)
        ensures
            r == *self,
    {
        AudioClip {
            id: self.id.clone(),
            asset_path: self.asset_path.clone(),
            in_point: self.in_point,
            out_point: self.out_point,
            start_time: self.start_time,
            duration: self.duration,
            metadata: self.metadata.clone(),
        }
    }
}

impl AudioClip {
    /// Builds a clip, or says which rule of the invariant its timing breaks.
    pub fn new(
        id: String,
        asset_path: String,
        in_point: i64,
        out_point: i64,
        start_time: i64,
        duration: i64,
        metadata: AudioMetadata,
    ) -> (r: Result<AudioClip, MalformedClip>)
        ensures
            r is Ok <==> timing_fault(
                in_point as int,
                out_point as int,
                start_time as int,
                duration as int,
            ) is None,
            r matches Err(e) ==> timing_fault(
                in_point as int,
                out_point as int,
                start_time as int,
                duration as int,
            ) == Some(e),
            r matches Ok(clip) ==> clip@.well_formed() && clip == (AudioClip {
                id,
                asset_path,
                in_point,
                out_point,
                start_time,
                duration,
                metadata,
            }),
    {
        match check_timing(in_point, out_point, start_time, duration) {
            Ok(()) => Ok(
                AudioClip { id, asset_path, in_point, out_point, start_time, duration, metadata },
            ),
            Err(e) => Err(e),
        }
    }

    /// Whether `time` lies in the clip's half-open interval.
    pub fn is_active_at(&self, time: i64) -> (r: bool)
        ensures
            r == self@.is_active_at(time as int),
    {
        time >= self.start_time && (time as i128) < self.start_time as i128 + self.duration as i128
    }

    /// Whether the clip's half-open interval meets the half-open range from
    /// `start` to `end`.
    pub fn overlaps(&self, start: i64, end: i64) -> (r: bool)
        ensures
            r == self@.overlaps(start as int, end as int),
    {
        self.start_time as i128 + self.duration as i128 > start as i128 && self.start_time < end
    }
}

impl Clip for AudioClip {
    type MetadataView = AudioMetadataView;

    open spec fn model(&self) -> ClipView<AudioMetadataView> {
        self@
    }

    fn id(&self) -> (r: &str) {
        self.id.as_str()
    }

    fn asset_path(&self) -> (r: &str) {
        self.asset_path.as_str()
    }

    fn in_point(&self) -> (r: i64) {
        self.in_point
    }

    fn out_point(&self) -> (r: i64) {
        self.out_point
    }

    fn start_time(&self) -> (r: i64) {
        self.start_time
    }

    fn duration(&self) -> (r: i64) {
        self.duration
    }
}

} // verus!
