//! From gestures on the timeline to edit commands.
//!
//! The widget measures pointer travel in pixels and turns it into time. What
//! a finished gesture means for the timeline is decided here, on time alone.

use vstd::prelude::*;
use vstd::string::StringExecFns;
use crate::types::media::{
    AudioClip,
    AudioMetadata,
    AudioMetadataView,
    ClipView,
    VideoClip,
    VideoMetadata,
    VideoMetadataView,
};
use crate::types::time::{clamp_time, saturate};
use crate::types::timeline::{Timeline, TimelineView};
use crate::types::track::{
    audio_clip_views,
    video_clip_views,
    AudioTrack,
    LaneView,
    Track,
    TrackView,
    VideoTrack,
};

verus! {

/// The grid that times snap to: a tenth of a second.
pub const SNAP_INTERVAL: i64 = 100_000_000;

/// The shortest that a clip can be made by resizing: a tenth of a second.
pub const MIN_CLIP_DURATION: i64 = 100_000_000;

/// The multiple of the snap interval nearest to `time`; a time halfway
/// between two of them goes to the one farther from zero.
pub open spec fn snapped(time: int) -> int {
    if time >= 0 {
        ((time + SNAP_INTERVAL / 2) / (SNAP_INTERVAL as int)) * SNAP_INTERVAL
    } else {
        -(((-time + SNAP_INTERVAL / 2) / (SNAP_INTERVAL as int)) * SNAP_INTERVAL)
    }
}

/// `time` as it is used by a gesture: snapped to the grid where snapping is
/// on, and kept within what an instant can hold.
pub open spec fn snap(time: int, snap_enabled: bool) -> int {
    if snap_enabled {
        clamp_time(snapped(time))
    } else {
        clamp_time(time)
    }
}

/// A snapped time lies on the grid, within half a grid step of the time it
/// came from, and a time on the grid stays where it is.
pub proof fn lemma_snapped_is_nearest(time: int)
    ensures
        snapped(time) % (SNAP_INTERVAL as int) == 0,
        -(SNAP_INTERVAL / 2) <= snapped(time) - time <= SNAP_INTERVAL / 2,
        time % (SNAP_INTERVAL as int) == 0 ==> snapped(time) == time,
        snapped(-time) == -snapped(time),
{
}

/// Snaps `time` to the grid if snapping is on.
pub fn snap_time(time: i64, snap_enabled: bool) -> (r: i64)
    ensures
        r == snap(time as int, snap_enabled),
{
    if snap_enabled {
        let half: i128 = (SNAP_INTERVAL / 2) as i128;
        let unit: i128 = SNAP_INTERVAL as i128;
        if time >= 0 {
            let steps: i128 = (time as i128 + half) / unit;
            saturate(steps * unit)
        } else {
            let steps: i128 = (-(time as i128) + half) / unit;
            saturate(-(steps * unit))
        }
    } else {
        time
    }
}

/// A gesture in progress on the timeline, with what was so when it began.
#[derive(Debug)]
pub enum DragState {
    /// Dragging the playhead.
    Playhead,
    /// Dragging a clip.
    Clip { clip_id: String, track_idx: usize, original_start_time: i64 },
    /// Resizing a clip from its left edge.
    ResizeLeft {
        clip_id: String,
        track_idx: usize,
        original_start_time: i64,
        original_duration: i64,
    },
    /// Resizing a clip from its right edge.
    ResizeRight { clip_id: String, track_idx: usize, original_duration: i64 },
    /// Selecting several clips.
    Selection,
}

/// What the timeline widget reports to its owner, as a mathematical value.
#[allow(inconsistent_fields)]
pub enum TimelineEventView {
    PlayheadMoved(int),
    ClipMoved { clip_id: Seq<char>, track_idx: usize, new_start_time: int },
    ClipResized { clip_id: Seq<char>, track_idx: usize, new_start_time: int, new_duration: int },
    ClipSelected { clip_id: Seq<char>, track_idx: usize, multi_select: bool },
    ClipDoubleClicked { clip_id: Seq<char>, track_idx: usize },
    RightClicked { time: int, track_idx: Option<usize> },
}

/// What the timeline widget reports to its owner.
#[derive(Debug)]
#[allow(inconsistent_fields)]
pub enum TimelineEvent {
    /// The playhead was moved.
    PlayheadMoved(i64),
    /// A clip was moved.
    ClipMoved { clip_id: String, track_idx: usize, new_start_time: i64 },
    /// A clip was resized.
    ClipResized { clip_id: String, track_idx: usize, new_start_time: i64, new_duration: i64 },
    /// A clip was selected.
    ClipSelected { clip_id: String, track_idx: usize, multi_select: bool },
    /// A clip was double-clicked.
    ClipDoubleClicked { clip_id: String, track_idx: usize },
    /// The timeline was right-clicked.
    RightClicked { time: i64, track_idx: Option<usize> },
}

impl View for TimelineEvent {
    type V = TimelineEventView;

    open spec fn view(&self) -> TimelineEventView {
        match self {
            TimelineEvent::PlayheadMoved(time) => TimelineEventView::PlayheadMoved(*time as int),
            TimelineEvent::ClipMoved { clip_id, track_idx, new_start_time } => {
                TimelineEventView::ClipMoved {
                    clip_id: clip_id@,
                    track_idx: *track_idx,
                    new_start_time: *new_start_time as int,
                }
            },
            TimelineEvent::ClipResized { clip_id, track_idx, new_start_time, new_duration } => {
                TimelineEventView::ClipResized {
                    clip_id: clip_id@,
                    track_idx: *track_idx,
                    new_start_time: *new_start_time as int,
                    new_duration: *new_duration as int,
                }
            },
            TimelineEvent::ClipSelected { clip_id, track_idx, multi_select } => {
                TimelineEventView::ClipSelected {
                    clip_id: clip_id@,
                    track_idx: *track_idx,
                    multi_select: *multi_select,
                }
            },
            TimelineEvent::ClipDoubleClicked { clip_id, track_idx } => {
                TimelineEventView::ClipDoubleClicked { clip_id: clip_id@, track_idx: *track_idx }
            },
            TimelineEvent::RightClicked { time, track_idx } => TimelineEventView::RightClicked {
                time: *time as int,
                track_idx: *track_idx,
            },
        }
    }
}

/// `time`, or instant zero where it lies before that.
pub open spec fn not_before_zero(time: int) -> int {
    if time < 0 {
        0
    } else {
        time
    }
}

/// `duration`, or the shortest duration of a clip where it is shorter.
pub open spec fn not_too_short(duration: int) -> int {
    if duration < MIN_CLIP_DURATION {
        MIN_CLIP_DURATION as int
    } else {
        duration
    }
}

/// Where a clip starts after it was dragged by `delta`: the snapped sum,
/// not before instant zero.
pub open spec fn moved_start_time(original_start_time: int, delta: int, snap_enabled: bool) -> int {
    not_before_zero(snap(clamp_time(original_start_time + delta), snap_enabled))
}

/// How long a clip lasts after its left edge was dragged to
/// `new_start_time`: what it gains at the start it loses in length, down to
/// the shortest duration. A length beyond what an instant can hold is
/// clamped.
pub open spec fn left_resized_duration(
    original_start_time: int,
    original_duration: int,
    new_start_time: int,
) -> int {
    not_too_short(clamp_time(original_duration - (new_start_time - original_start_time)))
}

/// How long a clip lasts after its right edge was dragged by `delta`: the
/// snapped sum, down to the shortest duration.
pub open spec fn right_resized_duration(original_duration: int, delta: int, snap_enabled: bool)
    -> int {
    not_too_short(snap(clamp_time(original_duration + delta), snap_enabled))
}

/// What the end of a gesture means. `moved` is the time that the pointer
/// travelled since the gesture began or, for a drag of the playhead, the
/// time under the pointer.
pub open spec fn release_event(drag: DragState, moved: int, snap_enabled: bool) -> Option<
    TimelineEventView,
> {
    match drag {
        DragState::Clip { clip_id, track_idx, original_start_time } => Some(
            TimelineEventView::ClipMoved {
                clip_id: clip_id@,
                track_idx,
                new_start_time: moved_start_time(original_start_time as int, moved, snap_enabled),
            },
        ),
        DragState::ResizeLeft { clip_id, track_idx, original_start_time, original_duration } => {
            let new_start_time = moved_start_time(original_start_time as int, moved, snap_enabled);
            Some(
                TimelineEventView::ClipResized {
                    clip_id: clip_id@,
                    track_idx,
                    new_start_time,
                    new_duration: left_resized_duration(
                        original_start_time as int,
                        original_duration as int,
                        new_start_time,
                    ),
                },
            )
        },
        DragState::ResizeRight { clip_id, track_idx, original_duration } => Some(
            TimelineEventView::ClipResized {
                clip_id: clip_id@,
                track_idx,
                new_start_time: 0,
                new_duration: right_resized_duration(original_duration as int, moved, snap_enabled),
            },
        ),
        DragState::Playhead => Some(
            TimelineEventView::PlayheadMoved(
                not_before_zero(snap(not_before_zero(moved), snap_enabled)),
            ),
        ),
        DragState::Selection => None,
    }
}

/// A gesture never puts a clip before instant zero nor makes it shorter
/// than the shortest duration, and never puts the playhead before instant
/// zero.
pub proof fn lemma_release_keeps_clips_valid(drag: DragState, moved: int, snap_enabled: bool)
    ensures
        match release_event(drag, moved, snap_enabled) {
            Some(TimelineEventView::ClipMoved { new_start_time, .. }) => 0 <= new_start_time
                <= i64::MAX,
            Some(TimelineEventView::ClipResized { new_start_time, new_duration, .. }) => 0
                <= new_start_time <= i64::MAX && MIN_CLIP_DURATION <= new_duration <= i64::MAX,
            Some(TimelineEventView::PlayheadMoved(time)) => 0 <= time <= i64::MAX,
            Some(_) => false,
            None => drag is Selection,
        },
{
}

fn at_least_zero(time: i64) -> (r: i64)
    ensures
        r == not_before_zero(time as int),
{
    if time < 0 {
        0
    } else {
        time
    }
}

fn at_least_shortest(duration: i64) -> (r: i64)
    ensures
        r == not_too_short(duration as int),
{
    if duration < MIN_CLIP_DURATION {
        MIN_CLIP_DURATION
    } else {
        duration
    }
}

/// Decides what the end of a gesture means for the timeline. `moved` is the
/// time that the pointer travelled since the gesture began or, for a drag of
/// the playhead, the time under the pointer. A selection ends without an
/// event.
pub fn drag_released(drag: &DragState, moved: i64, snap_enabled: bool) -> (r: Option<
    TimelineEvent,
>)
    ensures
        match r {
            Some(event) => release_event(*drag, moved as int, snap_enabled) == Some(event@),
            None => release_event(*drag, moved as int, snap_enabled) is None,
        },
{
    match drag {
        DragState::Clip { clip_id, track_idx, original_start_time } => {
            let new_start_time = at_least_zero(
                snap_time(saturate(*original_start_time as i128 + moved as i128), snap_enabled),
            );
            Some(
                TimelineEvent::ClipMoved {
                    clip_id: clip_id.clone(),
                    track_idx: *track_idx,
                    new_start_time,
                },
            )
        },
        DragState::ResizeLeft { clip_id, track_idx, original_start_time, original_duration } => {
            let new_start_time = at_least_zero(
                snap_time(saturate(*original_start_time as i128 + moved as i128), snap_enabled),
            );
            let new_duration = at_least_shortest(
                saturate(
                    *original_duration as i128 - (new_start_time as i128
                        - *original_start_time as i128),
                ),
            );
            Some(
                TimelineEvent::ClipResized {
                    clip_id: clip_id.clone(),
                    track_idx: *track_idx,
                    new_start_time,
                    new_duration,
                },
            )
        },
        DragState::ResizeRight { clip_id, track_idx, original_duration } => {
            let new_duration = at_least_shortest(
                snap_time(saturate(*original_duration as i128 + moved as i128), snap_enabled),
            );
            Some(
                TimelineEvent::ClipResized {
                    clip_id: clip_id.clone(),
                    track_idx: *track_idx,
                    new_start_time: 0,
                    new_duration,
                },
            )
        },
        DragState::Playhead => {
            let new_time = at_least_zero(moved);
            let snapped_time = at_least_zero(snap_time(new_time, snap_enabled));
            Some(TimelineEvent::PlayheadMoved(snapped_time))
        },
        DragState::Selection => None,
    }
}

/// The character of a decimal digit.
pub open spec fn digit(d: int) -> char {
    if d == 0 {
        '0'
    } else if d == 1 {
        '1'
    } else if d == 2 {
        '2'
    } else if d == 3 {
        '3'
    } else if d == 4 {
        '4'
    } else if d == 5 {
        '5'
    } else if d == 6 {
        '6'
    } else if d == 7 {
        '7'
    } else if d == 8 {
        '8'
    } else {
        '9'
    }
}

/// A number written in decimal digits, the most significant first.
pub open spec fn decimal(n: nat) -> Seq<char>
    decreases n,
{
    if n < 10 {
        seq![digit(n as int)]
    } else {
        decimal(n / 10).push(digit((n % 10) as int))
    }
}

fn digit_text(d: u128) -> (r: &'static str)
    requires
        d < 10,
    ensures
        r@ == seq![digit(d as int)],
{
    proof {
        reveal_strlit("0");
        reveal_strlit("1");
        reveal_strlit("2");
        reveal_strlit("3");
        reveal_strlit("4");
        reveal_strlit("5");
        reveal_strlit("6");
        reveal_strlit("7");
        reveal_strlit("8");
        reveal_strlit("9");
    }
    if d == 0 {
        "0"
    } else if d == 1 {
        "1"
    } else if d == 2 {
        "2"
    } else if d == 3 {
        "3"
    } else if d == 4 {
        "4"
    } else if d == 5 {
        "5"
    } else if d == 6 {
        "6"
    } else if d == 7 {
        "7"
    } else if d == 8 {
        "8"
    } else {
        "9"
    }
}

/// Writes a number in decimal digits.
pub fn decimal_text(n: u128) -> (r: String)
    ensures
        r@ == decimal(n as nat),
    decreases n,
{
    if n < 10 {
        String::from_str(digit_text(n))
    } else {
        decimal_text(n / 10).concat(digit_text(n % 10))
    }
}

/// The identifier of the track that the "add track" command makes as the
/// `number`-th track.
pub open spec fn added_track_id(number: nat) -> Seq<char> {
    "track"@ + decimal(number)
}

/// The identifier of the track that is made for a dropped medium as the
/// `number`-th track.
pub open spec fn dropped_track_id(number: nat) -> Seq<char> {
    "track_"@ + decimal(number)
}

/// The name of a new video track that is the `number`-th track.
pub open spec fn video_track_name(number: nat) -> Seq<char> {
    "Video Track "@ + decimal(number)
}

/// The name of a new audio track that is the `number`-th track.
pub open spec fn audio_track_name(number: nat) -> Seq<char> {
    "Audio Track "@ + decimal(number)
}

fn numbered(prefix: &str, number: u128) -> (r: String)
    ensures
        r@ == prefix@ + decimal(number as nat),
{
    let digits = decimal_text(number);
    String::from_str(prefix).concat(digits.as_str())
}

/// How long the clip of a dropped audio file lasts: five seconds.
pub const DROPPED_AUDIO_DURATION: i64 = 5_000_000_000;

/// The clip that a dropped video file becomes: the whole file, of the given
/// length, placed at `drop_time`, with the format left open.
pub open spec fn dropped_video_clip_view(
    id: Seq<char>,
    asset_path: Seq<char>,
    drop_time: int,
    duration: int,
) -> ClipView<VideoMetadataView> {
    ClipView {
        id,
        asset_path,
        in_point: 0,
        out_point: duration,
        start_time: drop_time,
        duration,
        metadata: VideoMetadataView {
            resolution: (1920u32, 1080u32),
            frame_rate: 30_000,
            codec: "unknown"@,
        },
    }
}

/// The clip that a dropped audio file becomes: its first five seconds,
/// placed at `drop_time`, with the format left open.
pub open spec fn dropped_audio_clip_view(id: Seq<char>, asset_path: Seq<char>, drop_time: int)
    -> ClipView<AudioMetadataView> {
    ClipView {
        id,
        asset_path,
        in_point: 0,
        out_point: DROPPED_AUDIO_DURATION as int,
        start_time: drop_time,
        duration: DROPPED_AUDIO_DURATION as int,
        metadata: AudioMetadataView {
            sample_rate: 44100,
            channels: 2,
            codec: "unknown"@,
            bitrate: 0,
        },
    }
}

/// Makes the clip of a dropped video file.
pub fn dropped_video_clip(id: String, asset_path: String, drop_time: i64, duration: i64) -> (r:
    VideoClip)
    ensures
        r@ == dropped_video_clip_view(id@, asset_path@, drop_time as int, duration as int),
{
    VideoClip {
        id,
        asset_path,
        in_point: 0,
        out_point: duration,
        start_time: drop_time,
        duration,
        metadata: VideoMetadata {
            resolution: (1920, 1080),
            frame_rate: 30_000,
            codec: String::from_str("unknown"),
        },
    }
}

/// Makes the clip of a dropped audio file.
pub fn dropped_audio_clip(id: String, asset_path: String, drop_time: i64) -> (r: AudioClip)
    ensures
        r@ == dropped_audio_clip_view(id@, asset_path@, drop_time as int),
{
    AudioClip {
        id,
        asset_path,
        in_point: 0,
        out_point: DROPPED_AUDIO_DURATION,
        start_time: drop_time,
        duration: DROPPED_AUDIO_DURATION,
        metadata: AudioMetadata {
            sample_rate: 44100,
            channels: 2,
            codec: String::from_str("unknown"),
            bitrate: 0,
        },
    }
}

/// The timeline after a video clip was dropped on the track at index
/// `track_idx`. Where that is a video track, the clip goes behind the clips
/// of that track. Otherwise a new video track is added behind the tracks,
/// and holds the clip if there is one.
pub open spec fn with_dropped_video(
    timeline: TimelineView,
    track_idx: int,
    clip: Option<ClipView<VideoMetadataView>>,
) -> TimelineView {
    if 0 <= track_idx < timeline.tracks.len() && timeline.tracks[track_idx] is Video
        && clip is Some {
        let lane = timeline.tracks[track_idx]->Video_0;
        TimelineView {
            tracks: timeline.tracks.update(
                track_idx,
                TrackView::Video(LaneView { clips: lane.clips.push(clip.unwrap()), ..lane }),
            ),
            ..timeline
        }
    } else {
        TimelineView {
            tracks: timeline.tracks.push(
                TrackView::Video(
                    LaneView {
                        id: dropped_track_id(timeline.tracks.len() + 1),
                        name: video_track_name(timeline.tracks.len() + 1),
                        clips: match clip {
                            Some(clip) => seq![clip],
                            None => Seq::empty(),
                        },
                        muted: false,
                    },
                ),
            ),
            ..timeline
        }
    }
}

/// The timeline after an audio clip was dropped on the track at index
/// `track_idx`. Where that is an audio track, the clip goes behind the clips
/// of that track. Otherwise a new audio track with the clip is added behind
/// the tracks.
pub open spec fn with_dropped_audio(
    timeline: TimelineView,
    track_idx: int,
    clip: ClipView<AudioMetadataView>,
) -> TimelineView {
    if 0 <= track_idx < timeline.tracks.len() && timeline.tracks[track_idx] is Audio {
        let lane = timeline.tracks[track_idx]->Audio_0;
        TimelineView {
            tracks: timeline.tracks.update(
                track_idx,
                TrackView::Audio(LaneView { clips: lane.clips.push(clip), ..lane }),
            ),
            ..timeline
        }
    } else {
        TimelineView {
            tracks: timeline.tracks.push(
                TrackView::Audio(
                    LaneView {
                        id: dropped_track_id(timeline.tracks.len() + 1),
                        name: audio_track_name(timeline.tracks.len() + 1),
                        clips: seq![clip],
                        muted: false,
                    },
                ),
            ),
            ..timeline
        }
    }
}

/// Whether the track at index `track_idx` is a video track.
pub fn is_video_track_at(timeline: &Timeline, track_idx: usize) -> (r: bool)
    ensures
        r == (track_idx < timeline@.tracks.len() && timeline@.tracks[track_idx as int] is Video),
{
    if track_idx < timeline.tracks.len() {
        timeline.tracks[track_idx].is_video()
    } else {
        false
    }
}

/// Adds an empty video track, numbered by its place, behind the tracks.
pub fn add_video_track(timeline: &mut Timeline)
    ensures
        final(timeline)@ == (TimelineView {
            tracks: old(timeline)@.tracks.push(
                TrackView::Video(
                    LaneView {
                        id: added_track_id(old(timeline)@.tracks.len() + 1),
                        name: video_track_name(old(timeline)@.tracks.len() + 1),
                        clips: Seq::empty(),
                        muted: false,
                    },
                ),
            ),
            ..old(timeline)@
        }),
{
    let number: u128 = timeline.tracks.len() as u128 + 1;
    let track = VideoTrack {
        id: numbered("track", number),
        name: numbered("Video Track ", number),
        clips: Vec::new(),
        muted: false,
    };
    assert(video_clip_views(track.clips@) =~= Seq::empty());
    timeline.add_track(Track::Video(track));
}

/// Puts a dropped video clip on the timeline: on the track at index
/// `track_idx` where that is a video track and there is a clip, and
/// otherwise on a new video track behind the tracks, which stays empty
/// where there is no clip.
pub fn drop_video_clip(timeline: &mut Timeline, track_idx: usize, clip: Option<VideoClip>)
    ensures
        final(timeline)@ == with_dropped_video(
            old(timeline)@,
            track_idx as int,
            match clip {
                Some(clip) => Some(clip@),
                None => None,
            },
        ),
{
    let ghost tracks = timeline@.tracks;
    let on_video_track = is_video_track_at(timeline, track_idx);
    match clip {
        Some(clip) => {
            if on_video_track {
                match &mut timeline.tracks[track_idx] {
                    Track::Video(video_track) => {
                        let ghost before = video_track.clips@;
                        video_track.clips.push(clip);
                        assert(video_clip_views(video_track.clips@) =~= video_clip_views(
                            before,
                        ).push(clip@));
                    },
                    Track::Audio(_) => {},
                }
                assert(timeline@.tracks =~= tracks.update(
                    track_idx as int,
                    TrackView::Video(
                        LaneView {
                            clips: (tracks[track_idx as int]->Video_0).clips.push(clip@),
                            ..tracks[track_idx as int]->Video_0
                        },
                    ),
                ));
            } else {
                let number: u128 = timeline.tracks.len() as u128 + 1;
                let mut clips: Vec<VideoClip> = Vec::new();
                clips.push(clip);
                assert(video_clip_views(clips@) =~= seq![clip@]);
                timeline.add_track(
                    Track::Video(
                        VideoTrack {
                            id: numbered("track_", number),
                            name: numbered("Video Track ", number),
                            clips,
                            muted: false,
                        },
                    ),
                );
            }
        },
        None => {
            let number: u128 = timeline.tracks.len() as u128 + 1;
            let clips: Vec<VideoClip> = Vec::new();
            assert(video_clip_views(clips@) =~= Seq::empty());
            timeline.add_track(
                Track::Video(
                    VideoTrack {
                        id: numbered("track_", number),
                        name: numbered("Video Track ", number),
                        clips,
                        muted: false,
                    },
                ),
            );
        },
    }
}

/// Puts a dropped audio clip on the timeline: on the track at index
/// `track_idx` where that is an audio track, and otherwise on a new audio
/// track behind the tracks.
pub fn drop_audio_clip(timeline: &mut Timeline, track_idx: usize, clip: AudioClip)
    ensures
        final(timeline)@ == with_dropped_audio(old(timeline)@, track_idx as int, clip@),
{
    let ghost tracks = timeline@.tracks;
    let on_audio_track = track_idx < timeline.tracks.len() && !timeline.tracks[track_idx].is_video();
    if on_audio_track {
        match &mut timeline.tracks[track_idx] {
            Track::Audio(audio_track) => {
                let ghost before = audio_track.clips@;
                audio_track.clips.push(clip);
                assert(audio_clip_views(audio_track.clips@) =~= audio_clip_views(before).push(
                    clip@,
                ));
            },
            Track::Video(_) => {},
        }
        assert(timeline@.tracks =~= tracks.update(
            track_idx as int,
            TrackView::Audio(
                LaneView {
                    clips: (tracks[track_idx as int]->Audio_0).clips.push(clip@),
                    ..tracks[track_idx as int]->Audio_0
                },
            ),
        ));
    } else {
        let number: u128 = timeline.tracks.len() as u128 + 1;
        let mut clips: Vec<AudioClip> = Vec::new();
        clips.push(clip);
        assert(audio_clip_views(clips@) =~= seq![clip@]);
        timeline.add_track(
            Track::Audio(
                AudioTrack {
                    id: numbered("track_", number),
                    name: numbered("Audio Track ", number),
                    clips,
                    muted: false,
                },
            ),
        );
    }
}

/// The address of a local file as a URI.
pub open spec fn file_uri(path: Seq<char>) -> Seq<char> {
    "file://"@ + path
}

/// Turns the absolute path of a file into a URI.
pub fn path_to_file_uri(path: &str) -> (r: String)
    ensures
        r@ == file_uri(path@),
{
    String::from_str("file://").concat(path)
}

} // verus!
