//! Tracks: ordered lanes of clips of one kind.

use vstd::prelude::*;
use crate::types::media::{
    AudioClip,
    AudioMetadataView,
    ClipView,
    VideoClip,
    VideoMetadataView,
};
use crate::ops::clip_ops::{left_half, right_half};
use crate::types::search::first_where;
use crate::types::timeline::{cut_by, ActiveClipView};

verus! {

/// What a track is, whatever its kind: an identifier, a display name, its
/// clips in their order, and whether it is muted. The clips need be neither
/// sorted by time nor free of overlap.
pub struct LaneView<M> {
    pub id: Seq<char>,
    pub name: Seq<char>,
    pub clips: Seq<ClipView<M>>,
    pub muted: bool,
}

impl<M> LaneView<M> {
    /// The lane with its clip at index `j` replaced, in place, by the two
    /// halves of that clip cut at `playhead`.
    pub open spec fn split_at(self, j: int, playhead: int) -> LaneView<M> {
        LaneView {
            clips: self.clips.take(j) + seq![
                left_half(self.clips[j], playhead),
                right_half(self.clips[j], playhead),
            ] + self.clips.skip(j + 1),
            ..self
        }
    }
}

/// A track as a mathematical value.
pub enum TrackView {
    Video(LaneView<VideoMetadataView>),
    Audio(LaneView<AudioMetadataView>),
}

impl TrackView {
    pub open spec fn id(self) -> Seq<char> {
        match self {
            TrackView::Video(lane) => lane.id,
            TrackView::Audio(lane) => lane.id,
        }
    }

    /// The track's clips in their order, each tagged with the track's kind.
    pub open spec fn clips(self) -> Seq<ActiveClipView> {
        match self {
            TrackView::Video(lane) => lane.clips.map_values(
                |c: ClipView<VideoMetadataView>| ActiveClipView::Video(c),
            ),
            TrackView::Audio(lane) => lane.clips.map_values(
                |c: ClipView<AudioMetadataView>| ActiveClipView::Audio(c),
            ),
        }
    }

    /// The index of the first clip of the track whose open interval holds
    /// `playhead`.
    pub open spec fn first_cut(self, playhead: int) -> Option<int> {
        first_where(self.clips(), cut_by(playhead))
    }

    /// The track with its clip at index `j` replaced, in place, by the two
    /// halves of that clip cut at `playhead`.
    pub open spec fn split_at(self, j: int, playhead: int) -> TrackView {
        match self {
            TrackView::Video(lane) => TrackView::Video(lane.split_at(j, playhead)),
            TrackView::Audio(lane) => TrackView::Audio(lane.split_at(j, playhead)),
        }
    }

    /// The track's video clips in their order; none for an audio track.
    pub open spec fn video_clips(self) -> Seq<ClipView<VideoMetadataView>> {
        match self {
            TrackView::Video(lane) => lane.clips,
            TrackView::Audio(_) => Seq::empty(),
        }
    }
}

/// The models of a run of video clips.
pub open spec fn video_clip_views(clips: Seq<VideoClip>) -> Seq<ClipView<VideoMetadataView>> {
    clips.map_values(|c: VideoClip| c@)
}

/// The models of a run of audio clips.
pub open spec fn audio_clip_views(clips: Seq<AudioClip>) -> Seq<ClipView<AudioMetadataView>> {
    clips.map_values(|c: AudioClip| c@)
}

/// A lane of video clips.
#[derive(Debug)]
pub struct VideoTrack {
    pub id: String,
    pub name: String,
    pub clips: Vec<VideoClip>,
    pub muted: bool,
}

impl View for VideoTrack {
    type V = LaneView<VideoMetadataView>;

    open spec fn view(&self) -> LaneView<VideoMetadataView> {
        LaneView {
            id: self.id@,
            name: self.name@,
            clips: video_clip_views(self.clips@),
            muted: self.muted,
        }
    }
}

impl Clone for VideoTrack {
    fn clone(&self) -> (r: Self)
        ensures
            r@ == self@,
    {
        let clips = self.clips.clone();
        VideoTrack { id: self.id.clone(), name: self.name.clone(), clips, muted: self.muted }
    }
}

/// A lane of audio clips.
#[derive(Debug)]
pub struct AudioTrack {
    pub id: String,
    pub name: String,
    pub clips: Vec<AudioClip>,
    pub muted: bool,
}

impl View for AudioTrack {
    type V = LaneView<AudioMetadataView>;

    open spec fn view(&self) -> LaneView<AudioMetadataView> {
        LaneView {
            id: self.id@,
            name: self.name@,
            clips: audio_clip_views(self.clips@),
            muted: self.muted,
        }
    }
}

impl Clone for AudioTrack {
    fn clone(&self) -> (r: Self)
        ensures
            r@ == self@,
    {
        let clips = self.clips.clone();
        AudioTrack { id: self.id.clone(), name: self.name.clone(), clips, muted: self.muted }
    }
}

/// A track of either kind. The kind is fixed per track, so a track cannot mix
/// video and audio clips.
#[derive(Debug)]
pub enum Track {
    Video(VideoTrack),
    Audio(AudioTrack),
}

impl View for Track {
    type V = TrackView;

    open spec fn view(&self) -> TrackView {
        match self {
            Track::Video(track) => TrackView::Video(track@),
            Track::Audio(track) => TrackView::Audio(track@),
        }
    }
}

impl Clone for Track {
    fn clone(&self) -> (r: Self)
        ensures
            r@ == self@,
    {
        match self {
            Track::Video(track) => Track::Video(track.clone()),
            Track::Audio(track) => Track::Audio(track.clone()),
        }
    }
}

impl Track {
    pub fn is_video(&self) -> (r: bool)
        ensures
            r == (self@ is Video),
    {
        match self {
            Track::Video(_) => true,
            Track::Audio(_) => false,
        }
    }

    pub fn id(&self) -> (r: &str)
        ensures
            r@ == self@.id(),
    {
        match self {
            Track::Video(track) => track.id.as_str(),
            Track::Audio(track) => track.id.as_str(),
        }
    }
}

} // verus!
