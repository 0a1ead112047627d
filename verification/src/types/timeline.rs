//! The timeline: tracks of clips, interval queries over them, and the split
//! at the playhead.

use vstd::prelude::*;
use vstd::string::StringExecFns;
use crate::ops::clip_ops::{
    cut_clip_at,
    left_half,
    lemma_cut_keeps_invariant,
    right_half,
    ClipSplit,
};
use crate::types::media::{
    AudioClip,
    AudioMetadataView,
    Clip,
    ClipView,
    VideoClip,
    VideoMetadataView,
};
use crate::types::search::{
    first_where,
    lemma_first_where_extends,
    lemma_first_where_is_least,
    lemma_filter_membership,
    lemma_least_is_first_where,
};
use crate::types::track::{audio_clip_views, video_clip_views, Track, TrackView};

verus! {

/// A clip of either kind as a mathematical value.
pub enum ActiveClipView {
    Video(ClipView<VideoMetadataView>),
    Audio(ClipView<AudioMetadataView>),
}

impl ActiveClipView {
    pub open spec fn start_time(self) -> int {
        match self {
            ActiveClipView::Video(c) => c.start_time,
            ActiveClipView::Audio(c) => c.start_time,
        }
    }

    pub open spec fn end_time(self) -> int {
        match self {
            ActiveClipView::Video(c) => c.end_time(),
            ActiveClipView::Audio(c) => c.end_time(),
        }
    }

    /// `time` lies in the clip's half-open interval.
    pub open spec fn is_active_at(self, time: int) -> bool {
        self.start_time() <= time < self.end_time()
    }

    /// The clip's half-open interval meets the half-open range from `start`
    /// to `end`.
    pub open spec fn overlaps(self, start: int, end: int) -> bool {
        self.end_time() > start && self.start_time() < end
    }

    /// `time` lies strictly between the clip's start and its end.
    pub open spec fn strictly_contains(self, time: int) -> bool {
        self.start_time() < time < self.end_time()
    }

    /// The clip keeps its invariant, plays at source speed, and consumes a
    /// range of its asset that instants can hold.
    pub open spec fn sound(self) -> bool {
        match self {
            ActiveClipView::Video(c) => c.sound(),
            ActiveClipView::Audio(c) => c.sound(),
        }
    }
}

/// A copy of a clip of either kind, as the queries of a timeline hand it
/// out. It does not refer into the timeline, so it stays valid whatever
/// happens to the timeline afterwards.
#[derive(Debug)]
pub enum ActiveClip {
    Video(VideoClip),
    Audio(AudioClip),
}

impl View for ActiveClip {
    type V = ActiveClipView;

    open spec fn view(&self) -> ActiveClipView {
        match self {
            ActiveClip::Video(c) => ActiveClipView::Video(c@),
            ActiveClip::Audio(c) => ActiveClipView::Audio(c@),
        }
    }
}

impl Clone for ActiveClip {
    fn clone(&self) -> (r: Self)
        ensures
            r == *self,
    {
        match self {
            ActiveClip::Video(c) => ActiveClip::Video(c.clone()),
            ActiveClip::Audio(c) => ActiveClip::Audio(c.clone()),
        }
    }
}

/// The models of a run of clip copies.
pub open spec fn active_clip_views(clips: Seq<ActiveClip>) -> Seq<ActiveClipView> {
    clips.map_values(|c: ActiveClip| c@)
}

/// The models of a run of tracks.
pub open spec fn track_views(tracks: Seq<Track>) -> Seq<TrackView> {
    tracks.map_values(|t: Track| t@)
}

/// A timeline as a mathematical value.
pub struct TimelineView {
    pub tracks: Seq<TrackView>,
    pub duration: int,
    pub frame_rate: u32,
    pub resolution: (u32, u32),
}

/// Tracks of clips with the global length, frame rate (in frames per
/// thousand seconds) and resolution of the composition.
#[derive(Debug)]
pub struct Timeline {
    pub tracks: Vec<Track>,
    pub duration: i64,
    pub frame_rate: u32,
    pub resolution: (u32, u32),
}

impl View for Timeline {
    type V = TimelineView;

    open spec fn view(&self) -> TimelineView {
        TimelineView {
            tracks: track_views(self.tracks@),
            duration: self.duration as int,
            frame_rate: self.frame_rate,
            resolution: self.resolution,
        }
    }
}

impl Clone for Timeline {
    fn clone(&self) -> (r: Self)
        ensures
            r@ == self@,
    {
        let tracks = self.tracks.clone();
        assert(track_views(tracks@) =~= track_views(self.tracks@));
        Timeline {
            tracks,
            duration: self.duration,
            frame_rate: self.frame_rate,
            resolution: self.resolution,
        }
    }
}

/// All clips of a run of tracks: track order first, then clip order.
pub open spec fn clips_of(tracks: Seq<TrackView>) -> Seq<ActiveClipView> {
    tracks.map_values(|t: TrackView| t.clips()).flatten()
}

/// All video clips of a run of tracks: track order first, then clip order.
pub open spec fn video_clips_of(tracks: Seq<TrackView>) -> Seq<ClipView<VideoMetadataView>> {
    tracks.map_values(|t: TrackView| t.video_clips()).flatten()
}

/// The test "is active at `time`" on clips of either kind.
pub open spec fn active_at(time: int) -> spec_fn(ActiveClipView) -> bool {
    |c: ActiveClipView| c.is_active_at(time)
}

/// The test "is active at `time`" on video clips.
pub open spec fn video_active_at(time: int) -> spec_fn(ClipView<VideoMetadataView>) -> bool {
    |c: ClipView<VideoMetadataView>| c.is_active_at(time)
}

/// The test "overlaps the range from `start` to `end`" on clips of either
/// kind.
pub open spec fn overlapping(start: int, end: int) -> spec_fn(ActiveClipView) -> bool {
    |c: ActiveClipView| c.overlaps(start, end)
}

/// The test "can be cut at `playhead`" on clips of either kind.
pub open spec fn cut_by(playhead: int) -> spec_fn(ActiveClipView) -> bool {
    |c: ActiveClipView| c.strictly_contains(playhead)
}

/// The test "is named `track_id` and has a clip that can be cut at
/// `playhead`" on tracks.
pub open spec fn splittable(track_id: Seq<char>, playhead: int) -> spec_fn(TrackView) -> bool {
    |t: TrackView| t.id() == track_id && t.first_cut(playhead) is Some
}

/// The test "is named `track_id`" on tracks.
pub open spec fn named(track_id: Seq<char>) -> spec_fn(TrackView) -> bool {
    |t: TrackView| t.id() == track_id
}

/// The index of the first of `tracks` whose identifier is `track_id`.
pub open spec fn first_track_named(tracks: Seq<TrackView>, track_id: Seq<char>) -> Option<int> {
    first_where(tracks, named(track_id))
}

impl TimelineView {
    /// Every clip of the timeline: track order first, then clip order.
    pub open spec fn all_clips(self) -> Seq<ActiveClipView> {
        clips_of(self.tracks)
    }

    /// The clips whose half-open interval holds `time`, in the order of
    /// `all_clips`.
    pub open spec fn active_clips_at(self, time: int) -> Seq<ActiveClipView> {
        self.all_clips().filter(active_at(time))
    }

    /// The video clips whose half-open interval holds `time`: track order
    /// first, then clip order.
    pub open spec fn active_video_clips_at(self, time: int) -> Seq<ClipView<VideoMetadataView>> {
        video_clips_of(self.tracks).filter(video_active_at(time))
    }

    /// The clips whose half-open interval meets the half-open range from
    /// `start` to `end`, in the order of `all_clips`.
    pub open spec fn clips_in_range(self, start: int, end: int) -> Seq<ActiveClipView> {
        self.all_clips().filter(overlapping(start, end))
    }

    /// Where a split at `playhead` on the tracks named `track_id` takes
    /// place: the index of the first such track that has a clip whose open
    /// interval holds the playhead, and the index of the first such clip on
    /// it.
    pub open spec fn split_target(self, track_id: Seq<char>, playhead: int) -> Option<(int, int)> {
        match first_where(self.tracks, splittable(track_id, playhead)) {
            Some(i) => Some((i, self.tracks[i].first_cut(playhead).unwrap())),
            None => None,
        }
    }

    /// The timeline after a split at `playhead` on the tracks named
    /// `track_id`: the clip at the split target gives way, in place, to its
    /// two halves; where there is no target, nothing changes.
    pub open spec fn split_clip_at_playhead(self, track_id: Seq<char>, playhead: int)
        -> TimelineView {
        match self.split_target(track_id, playhead) {
            Some((i, j)) => TimelineView {
                tracks: self.tracks.update(i, self.tracks[i].split_at(j, playhead)),
                ..self
            },
            None => self,
        }
    }

    /// The clips of the first track named `track_id`, if there is one.
    pub open spec fn clips_on_track(self, track_id: Seq<char>) -> Option<Seq<ActiveClipView>> {
        match first_track_named(self.tracks, track_id) {
            Some(i) => Some(self.tracks[i].clips()),
            None => None,
        }
    }
}

/// One more track adds its clips behind those of the tracks before it.
pub proof fn lemma_clips_of_next(tracks: Seq<TrackView>, i: int)
    requires
        0 <= i < tracks.len(),
    ensures
        clips_of(tracks.take(i + 1)) == clips_of(tracks.take(i)) + tracks[i].clips(),
        video_clips_of(tracks.take(i + 1)) == video_clips_of(tracks.take(i))
            + tracks[i].video_clips(),
{
    let all = |t: TrackView| t.clips();
    let video = |t: TrackView| t.video_clips();
    assert(tracks.take(i + 1).map_values(all) =~= tracks.take(i).map_values(all).push(
        tracks[i].clips(),
    ));
    tracks.take(i).map_values(all).lemma_flatten_push(tracks[i].clips());
    assert(tracks.take(i + 1).map_values(video) =~= tracks.take(i).map_values(video).push(
        tracks[i].video_clips(),
    ));
    tracks.take(i).map_values(video).lemma_flatten_push(tracks[i].video_clips());
}

/// A clip is among the clips of a run of tracks exactly if it is a clip of
/// one of the tracks.
pub proof fn lemma_clips_of_membership(tracks: Seq<TrackView>, clip: ActiveClipView)
    ensures
        clips_of(tracks).contains(clip) <==> exists|i: int, j: int|
            0 <= i < tracks.len() && 0 <= j < tracks[i].clips().len()
                && #[trigger] tracks[i].clips()[j] == clip,
    decreases tracks.len(),
{
    if tracks.len() == 0 {
        assert(tracks.map_values(|t: TrackView| t.clips()) =~= Seq::empty());
        assert(clips_of(tracks) =~= Seq::empty());
    } else {
        let n = tracks.len() - 1;
        let head = tracks.take(n);
        assert(tracks.take(n + 1) =~= tracks);
        lemma_clips_of_next(tracks, n);
        lemma_clips_of_membership(head, clip);
        if clips_of(tracks).contains(clip) {
            let k = choose|k: int| 0 <= k < clips_of(tracks).len() && clips_of(tracks)[k] == clip;
            if k < clips_of(head).len() {
                assert(clips_of(head)[k] == clip);
                assert(clips_of(head).contains(clip));
                let (i, j) = choose|i: int, j: int|
                    0 <= i < head.len() && 0 <= j < head[i].clips().len()
                        && #[trigger] head[i].clips()[j] == clip;
                assert(tracks[i].clips()[j] == clip);
            } else {
                assert(tracks[n].clips()[k - clips_of(head).len()] == clip);
            }
        }
        if exists|i: int, j: int|
            0 <= i < tracks.len() && 0 <= j < tracks[i].clips().len()
                && #[trigger] tracks[i].clips()[j] == clip {
            let (i, j) = choose|i: int, j: int|
                0 <= i < tracks.len() && 0 <= j < tracks[i].clips().len()
                    && #[trigger] tracks[i].clips()[j] == clip;
            if i < n {
                assert(head[i].clips()[j] == clip);
                assert(clips_of(head).contains(clip));
                let k = choose|k: int| 0 <= k < clips_of(head).len() && clips_of(head)[k] == clip;
                assert(clips_of(tracks)[k] == clip);
            } else {
                assert(clips_of(tracks)[clips_of(head).len() + j] == clip);
            }
        }
    }
}

impl TimelineView {
    /// The active clips at `time` are the clips of the timeline whose
    /// half-open interval holds `time`, and no others.
    pub proof fn lemma_active_clips_at_membership(self, time: int, clip: ActiveClipView)
        ensures
            self.active_clips_at(time).contains(clip) <==> self.all_clips().contains(clip)
                && clip.start_time() <= time < clip.end_time(),
    {
        lemma_filter_membership(self.all_clips(), active_at(time), clip);
    }

    /// Intervals are half-open: a clip that lasts for a positive time is
    /// active at the instant it starts, and is not active at the instant it
    /// ends.
    pub proof fn lemma_intervals_are_half_open(self, i: int, j: int)
        requires
            0 <= i < self.tracks.len(),
            0 <= j < self.tracks[i].clips().len(),
            self.tracks[i].clips()[j].start_time() < self.tracks[i].clips()[j].end_time(),
        ensures
            self.active_clips_at(self.tracks[i].clips()[j].start_time()).contains(
                self.tracks[i].clips()[j],
            ),
            !self.active_clips_at(self.tracks[i].clips()[j].end_time()).contains(
                self.tracks[i].clips()[j],
            ),
    {
        let clip = self.tracks[i].clips()[j];
        lemma_clips_of_membership(self.tracks, clip);
    }

    /// The clips in a range are the clips of the timeline that end after the
    /// range starts and start before it ends, and no others. So a clip that
    /// ends where the range starts, or starts where the range ends, is not
    /// in it.
    pub proof fn lemma_clips_in_range_membership(self, start: int, end: int, clip: ActiveClipView)
        ensures
            self.clips_in_range(start, end).contains(clip) <==> self.all_clips().contains(clip)
                && clip.end_time() > start && clip.start_time() < end,
            clip.end_time() == start ==> !self.clips_in_range(start, end).contains(clip),
            clip.start_time() == end ==> !self.clips_in_range(start, end).contains(clip),
    {
        lemma_filter_membership(self.all_clips(), overlapping(start, end), clip);
    }

    /// A range that ends at or before its start holds only clips that span
    /// it from before its end to after its start; where the timeline has no
    /// such clip, it holds none.
    pub proof fn lemma_inverted_range(self, start: int, end: int)
        requires
            end <= start,
        ensures
            forall|clip: ActiveClipView| #[trigger]
                self.clips_in_range(start, end).contains(clip) ==> clip.start_time() < end
                    && start < clip.end_time(),
            (forall|k: int|
                0 <= k < self.all_clips().len() ==> !((#[trigger] self.all_clips()[k]).start_time()
                    < end && start < self.all_clips()[k].end_time()))
                ==> self.clips_in_range(start, end).len() == 0,
    {
        assert forall|clip: ActiveClipView| #[trigger]
            self.clips_in_range(start, end).contains(clip) implies clip.start_time() < end && start
            < clip.end_time() by {
            self.lemma_clips_in_range_membership(start, end, clip);
        }
        if forall|k: int|
            0 <= k < self.all_clips().len() ==> !((#[trigger] self.all_clips()[k]).start_time()
                < end && start < self.all_clips()[k].end_time()) {
            let found = self.clips_in_range(start, end);
            if found.len() > 0 {
                let clip = found[0];
                assert(found.contains(clip));
                self.lemma_clips_in_range_membership(start, end, clip);
                let k = choose|k: int|
                    0 <= k < self.all_clips().len() && self.all_clips()[k] == clip;
                assert(self.all_clips()[k].start_time() < end);
            }
        }
    }

    /// Every clip of the timeline is sound.
    pub open spec fn clips_are_sound(self) -> bool {
        forall|i: int, j: int|
            0 <= i < self.tracks.len() && 0 <= j < self.tracks[i].clips().len() ==> (
            #[trigger] self.tracks[i].clips()[j]).sound()
    }

    /// A split leaves the clips of the timeline sound: its two halves are,
    /// and no other clip changes.
    pub proof fn lemma_split_keeps_clips_sound(self, track_id: Seq<char>, playhead: int)
        requires
            self.clips_are_sound(),
        ensures
            self.split_clip_at_playhead(track_id, playhead).clips_are_sound(),
    {
        self.lemma_split_target(track_id, playhead);
        let after = self.split_clip_at_playhead(track_id, playhead);
        if let Some((i, j)) = self.split_target(track_id, playhead) {
            assert forall|a: int, b: int|
                0 <= a < after.tracks.len() && 0 <= b < after.tracks[a].clips().len() implies (
            #[trigger] after.tracks[a].clips()[b]).sound() by {
                if a != i {
                    assert(after.tracks[a] == self.tracks[a]);
                    assert(self.tracks[a].clips()[b].sound());
                } else {
                    assert(self.tracks[i].clips()[j].sound());
                    match self.tracks[i] {
                        TrackView::Video(lane) => {
                            lemma_cut_keeps_invariant(lane.clips[j], playhead);
                            if b < j {
                                assert(after.tracks[a].clips()[b] == self.tracks[i].clips()[b]);
                            } else if b > j + 1 {
                                assert(after.tracks[a].clips()[b] == self.tracks[i].clips()[b - 1]);
                            }
                        },
                        TrackView::Audio(lane) => {
                            lemma_cut_keeps_invariant(lane.clips[j], playhead);
                            if b < j {
                                assert(after.tracks[a].clips()[b] == self.tracks[i].clips()[b]);
                            } else if b > j + 1 {
                                assert(after.tracks[a].clips()[b] == self.tracks[i].clips()[b - 1]);
                            }
                        },
                    }
                }
            }
        }
    }

    /// The split target is the first clip, in track order and then clip
    /// order, that lies on a track named `track_id` and whose open interval
    /// holds `playhead`. There is none exactly where no clip on a track of
    /// that name holds the playhead strictly inside its interval, as at
    /// either boundary of a clip and outside it.
    pub proof fn lemma_split_target(self, track_id: Seq<char>, playhead: int)
        ensures
            match self.split_target(track_id, playhead) {
                Some((i, j)) => {
                    &&& 0 <= i < self.tracks.len()
                    &&& self.tracks[i].id() == track_id
                    &&& 0 <= j < self.tracks[i].clips().len()
                    &&& self.tracks[i].clips()[j].strictly_contains(playhead)
                    &&& forall|k: int|
                        0 <= k < j ==> !(#[trigger] self.tracks[i].clips()[k]).strictly_contains(
                            playhead,
                        )
                    &&& forall|h: int, k: int|
                        0 <= h < i && self.tracks[h].id() == track_id && 0 <= k
                            < self.tracks[h].clips().len() ==> !(#[trigger] self.tracks[h].clips()[k]).strictly_contains(
                        playhead)
                },
                None => forall|h: int, k: int|
                    0 <= h < self.tracks.len() && self.tracks[h].id() == track_id && 0 <= k
                        < self.tracks[h].clips().len() ==> !(#[trigger] self.tracks[h].clips()[k]).strictly_contains(
                    playhead),
            },
            self.split_target(track_id, playhead) is None ==> self.split_clip_at_playhead(
                track_id,
                playhead,
            ) == self,
    {
        let test = splittable(track_id, playhead);
        lemma_first_where_is_least(self.tracks, test);
        let bound = match first_where(self.tracks, test) {
            Some(i) => i,
            None => self.tracks.len() as int,
        };
        assert forall|h: int, k: int|
            0 <= h < bound && self.tracks[h].id() == track_id && 0 <= k
                < self.tracks[h].clips().len() implies !(#[trigger] self.tracks[h].clips()[k]).strictly_contains(
        playhead) by {
            lemma_first_where_is_least(self.tracks[h].clips(), cut_by(playhead));
        }
        if let Some(i) = first_where(self.tracks, test) {
            lemma_first_where_is_least(self.tracks[i].clips(), cut_by(playhead));
        }
    }
}

/// Filtering one element more either appends it or changes nothing.
pub proof fn lemma_filter_next<A>(s: Seq<A>, j: int, keep: spec_fn(A) -> bool)
    requires
        0 <= j < s.len(),
    ensures
        s.take(j + 1).filter(keep) == if keep(s[j]) {
            s.take(j).filter(keep).push(s[j])
        } else {
            s.take(j).filter(keep)
        },
{
    assert(s.take(j + 1) =~= s.take(j).push(s[j]));
    s.take(j).lemma_filter_push(s[j], keep);
}

/// Looks for the first of `clips` that can be cut at `playhead`, and cuts it.
fn find_cut<T>(clips: &Vec<T>, playhead: i64) -> (r: Option<(usize, T, T)>) where
    T: Clip + Clone + ClipSplit,

    ensures
        match r {
            Some((j, left, right)) => {
                &&& j < clips.len()
                &&& clips[j as int].model().strictly_contains(playhead as int)
                &&& forall|k: int|
                    0 <= k < j ==> !(#[trigger] clips[k]).model().strictly_contains(playhead as int)
                &&& left.model() == left_half(clips[j as int].model(), playhead as int)
                &&& right.model() == right_half(clips[j as int].model(), playhead as int)
            },
            None => forall|k: int|
                0 <= k < clips.len() ==> !(#[trigger] clips[k]).model().strictly_contains(
                    playhead as int,
                ),
        },
{
    let mut j: usize = 0;
    while j < clips.len()
        invariant
            j <= clips.len(),
            forall|k: int|
                0 <= k < j ==> !(#[trigger] clips[k]).model().strictly_contains(playhead as int),
        decreases clips.len() - j,
    {
        if let Some((left, right)) = cut_clip_at(&clips[j], playhead) {
            return Some((j, left, right));
        }
        j += 1;
    }
    None
}

/// Puts `left` and `right`, in this order, in the place of the clip at index
/// `j`.
fn replace_with_halves<T>(clips: &mut Vec<T>, j: usize, left: T, right: T)
    requires
        j < old(clips).len(),
    ensures
        final(clips)@ == old(clips)@.take(j as int) + seq![left, right] + old(clips)@.skip(j + 1),
{
    clips.remove(j);
    clips.insert(j, right);
    clips.insert(j, left);
}

impl Timeline {
    /// Splits the first clip whose open interval holds `playhead` on the
    /// tracks named `track_id`: its two halves take its place, in order.
    /// Returns whether a split took place. At most one clip is split per call.
    pub fn split_clip_at_playhead(&mut self, track_id: &str, playhead: i64) -> (split: bool)
        ensures
            final(self)@ == old(self)@.split_clip_at_playhead(track_id@, playhead as int),
            split == old(self)@.split_target(track_id@, playhead as int) is Some,
            !split ==> final(self)@ == old(self)@,
            split <==> exists|i: int, j: int|
                0 <= i < old(self)@.tracks.len() && old(self)@.tracks[i].id() == track_id@ && 0 <= j
                    < old(self)@.tracks[i].clips().len() && (
                #[trigger] old(self)@.tracks[i].clips()[j]).strictly_contains(playhead as int),
    {
        let wanted = String::from_str(track_id);
        let ghost tracks = self@.tracks;
        let ghost test = splittable(track_id@, playhead as int);
        proof {
            self@.lemma_split_target(track_id@, playhead as int);
        }
        let mut i: usize = 0;
        while i < self.tracks.len()
            invariant
                i <= self.tracks.len(),
                self.tracks@ == old(self).tracks@,
                self.duration == old(self).duration,
                self.frame_rate == old(self).frame_rate,
                self.resolution == old(self).resolution,
                tracks == self@.tracks,
                wanted@ == track_id@,
                test == splittable(track_id@, playhead as int),
                first_where(tracks.take(i as int), test) is None,
            decreases self.tracks.len() - i,
        {
            proof {
                assert(tracks.take(i + 1).drop_last() =~= tracks.take(i as int));
                lemma_first_where_is_least(tracks[i as int].clips(), cut_by(playhead as int));
            }
            let ghost lane = tracks[i as int].clips();
            let ghost mut at: int = 0;
            let mut split = false;
            match &mut self.tracks[i] {
                Track::Video(video_track) => {
                    if video_track.id == wanted {
                        if let Some((j, left, right)) = find_cut(&video_track.clips, playhead) {
                            proof {
                                at = j as int;
                                assert forall|k: int| 0 <= k < j implies !cut_by(playhead as int)(
                                    #[trigger] lane[k],
                                ) by {
                                    assert(lane[k] == ActiveClipView::Video(
                                        video_track.clips[k].model(),
                                    ));
                                }
                                assert(lane[at] == ActiveClipView::Video(
                                    video_track.clips[at].model(),
                                ));
                                lemma_least_is_first_where(lane, cut_by(playhead as int), at);
                            }
                            let ghost clips_before = video_track.clips@;
                            replace_with_halves(&mut video_track.clips, j, left, right);
                            proof {
                                assert(video_clip_views(video_track.clips@) =~= video_clip_views(
                                    clips_before,
                                ).take(at) + seq![
                                    left_half(clips_before[at]@, playhead as int),
                                    right_half(clips_before[at]@, playhead as int),
                                ] + video_clip_views(clips_before).skip(at + 1));
                            }
                            split = true;
                        }
                    }
                },
                Track::Audio(audio_track) => {
                    if audio_track.id == wanted {
                        if let Some((j, left, right)) = find_cut(&audio_track.clips, playhead) {
                            proof {
                                at = j as int;
                                assert forall|k: int| 0 <= k < j implies !cut_by(playhead as int)(
                                    #[trigger] lane[k],
                                ) by {
                                    assert(lane[k] == ActiveClipView::Audio(
                                        audio_track.clips[k].model(),
                                    ));
                                }
                                assert(lane[at] == ActiveClipView::Audio(
                                    audio_track.clips[at].model(),
                                ));
                                lemma_least_is_first_where(lane, cut_by(playhead as int), at);
                            }
                            let ghost clips_before = audio_track.clips@;
                            replace_with_halves(&mut audio_track.clips, j, left, right);
                            proof {
                                assert(audio_clip_views(audio_track.clips@) =~= audio_clip_views(
                                    clips_before,
                                ).take(at) + seq![
                                    left_half(clips_before[at]@, playhead as int),
                                    right_half(clips_before[at]@, playhead as int),
                                ] + audio_clip_views(clips_before).skip(at + 1));
                            }
                            split = true;
                        }
                    }
                },
            }
            if split {
                proof {
                    assert(test(tracks[i as int]));
                    lemma_first_where_extends(tracks, test, i + 1);
                    assert(self@.tracks =~= tracks.update(
                        i as int,
                        tracks[i as int].split_at(at, playhead as int),
                    ));
                }
                return true;
            }
            assert(self.tracks@ =~= old(self).tracks@);
            i += 1;
        }
        proof {
            assert(tracks.take(i as int) =~= tracks);
        }
        false
    }

    /// An empty timeline: no track, no length, 30 frames per second, 1920
    /// by 1080.
    pub fn new() -> (r: Self)
        ensures
            r@ == (TimelineView {
                tracks: Seq::empty(),
                duration: 0,
                frame_rate: 30_000,
                resolution: (1920u32, 1080u32),
            }),
    {
        let r = Timeline {
            tracks: Vec::new(),
            duration: 0,
            frame_rate: 30_000,
            resolution: (1920, 1080),
        };
        assert(track_views(r.tracks@) =~= Seq::empty());
        r
    }

    /// Adds a track behind the tracks that are there.
    pub fn add_track(&mut self, track: Track)
        ensures
            final(self)@ == (TimelineView {
                tracks: old(self)@.tracks.push(track@),
                ..old(self)@
            }),
    {
        let ghost before = self.tracks@;
        self.tracks.push(track);
        assert(track_views(self.tracks@) =~= track_views(before).push(track@));
    }

    /// Takes the first track named `track_id` off the timeline and returns
    /// it; the tracks behind it move up. Where no track has that name,
    /// nothing changes.
    pub fn remove_track(&mut self, track_id: &str) -> (removed: Option<Track>)
        ensures
            match first_track_named(old(self)@.tracks, track_id@) {
                Some(i) => removed matches Some(track) && track@ == old(self)@.tracks[i]
                    && final(self)@ == (TimelineView {
                    tracks: old(self)@.tracks.remove(i),
                    ..old(self)@
                }),
                None => removed is None && final(self)@ == old(self)@,
            },
    {
        let wanted = String::from_str(track_id);
        let ghost tracks = self@.tracks;
        let mut i: usize = 0;
        while i < self.tracks.len()
            invariant
                i <= self.tracks.len(),
                *self == *old(self),
                tracks == self@.tracks,
                wanted@ == track_id@,
                first_where(tracks.take(i as int), named(track_id@)) is None,
            decreases self.tracks.len() - i,
        {
            proof {
                assert(tracks.take(i + 1).drop_last() =~= tracks.take(i as int));
            }
            let found = match &self.tracks[i] {
                Track::Video(video_track) => video_track.id == wanted,
                Track::Audio(audio_track) => audio_track.id == wanted,
            };
            if found {
                proof {
                    lemma_first_where_extends(tracks, named(track_id@), i + 1);
                }
                let track = self.tracks.remove(i);
                assert(track_views(self.tracks@) =~= tracks.remove(i as int));
                return Some(track);
            }
            i += 1;
        }
        proof {
            assert(tracks.take(i as int) =~= tracks);
        }
        None
    }

    /// Copies of all clips, of either kind, that are active at `time`.
    pub fn active_clips_at(&self, time: i64) -> (result: Vec<ActiveClip>)
        ensures
            active_clip_views(result@) == self@.active_clips_at(time as int),
            forall|clip: ActiveClipView| #[trigger]
                active_clip_views(result@).contains(clip) <==> self@.all_clips().contains(clip)
                    && clip.start_time() <= time < clip.end_time(),
    {
        let mut result: Vec<ActiveClip> = Vec::new();
        let ghost keep = active_at(time as int);
        let ghost tracks = self@.tracks;
        let mut i: usize = 0;
        while i < self.tracks.len()
            invariant
                i <= self.tracks.len(),
                tracks == self@.tracks,
                keep == active_at(time as int),
                active_clip_views(result@) == clips_of(tracks.take(i as int)).filter(keep),
            decreases self.tracks.len() - i,
        {
            let ghost before = clips_of(tracks.take(i as int)).filter(keep);
            let ghost lane = tracks[i as int].clips();
            match &self.tracks[i] {
                Track::Video(video_track) => {
                    let mut j: usize = 0;
                    while j < video_track.clips.len()
                        invariant
                            j <= video_track.clips.len(),
                            i < self.tracks.len(),
                            self.tracks@[i as int] == Track::Video(*video_track),
                            tracks == self@.tracks,
                            lane == tracks[i as int].clips(),
                            keep == active_at(time as int),
                            active_clip_views(result@) == before + lane.take(j as int).filter(
                                keep,
                            ),
                        decreases video_track.clips.len() - j,
                    {
                        let clip = &video_track.clips[j];
                        proof {
                            lemma_filter_next(lane, j as int, keep);
                        }
                        if clip.is_active_at(time) {
                            let ghost old_result = result@;
                            result.push(ActiveClip::Video(clip.clone()));
                            assert(active_clip_views(result@) =~= active_clip_views(
                                old_result,
                            ).push(lane[j as int]));
                        }
                        j += 1;
                    }
                    assert(lane.take(j as int) =~= lane);
                },
                Track::Audio(audio_track) => {
                    let mut j: usize = 0;
                    while j < audio_track.clips.len()
                        invariant
                            j <= audio_track.clips.len(),
                            i < self.tracks.len(),
                            self.tracks@[i as int] == Track::Audio(*audio_track),
                            tracks == self@.tracks,
                            lane == tracks[i as int].clips(),
                            keep == active_at(time as int),
                            active_clip_views(result@) == before + lane.take(j as int).filter(
                                keep,
                            ),
                        decreases audio_track.clips.len() - j,
                    {
                        let clip = &audio_track.clips[j];
                        proof {
                            lemma_filter_next(lane, j as int, keep);
                        }
                        if clip.is_active_at(time) {
                            let ghost old_result = result@;
                            result.push(ActiveClip::Audio(clip.clone()));
                            assert(active_clip_views(result@) =~= active_clip_views(
                                old_result,
                            ).push(lane[j as int]));
                        }
                        j += 1;
                    }
                    assert(lane.take(j as int) =~= lane);
                },
            }
            proof {
                lemma_clips_of_next(tracks, i as int);
            }
            i += 1;
        }
        assert(tracks.take(i as int) =~= tracks);
        proof {
            let found = active_clip_views(result@);
            assert forall|clip: ActiveClipView| #[trigger]
                found.contains(clip) <==> self@.all_clips().contains(clip) && clip.start_time()
                    <= time < clip.end_time() by {
                self@.lemma_active_clips_at_membership(time as int, clip);
            }
        }
        result
    }
    /// Copies of all clips, of either kind, whose interval meets the range
    /// from `start` to `end`. A clip that only touches the range at one of its
    /// bounds does not meet it.
    pub fn clips_in_range(&self, start: i64, end: i64) -> (result: Vec<ActiveClip>)
        ensures
            active_clip_views(result@) == self@.clips_in_range(start as int, end as int),
            forall|clip: ActiveClipView| #[trigger]
                active_clip_views(result@).contains(clip) <==> self@.all_clips().contains(clip)
                    && clip.end_time() > start && clip.start_time() < end,
    {
        let mut result: Vec<ActiveClip> = Vec::new();
        let ghost keep = overlapping(start as int, end as int);
        let ghost tracks = self@.tracks;
        let mut i: usize = 0;
        while i < self.tracks.len()
            invariant
                i <= self.tracks.len(),
                tracks == self@.tracks,
                keep == overlapping(start as int, end as int),
                active_clip_views(result@) == clips_of(tracks.take(i as int)).filter(keep),
            decreases self.tracks.len() - i,
        {
            let ghost before = clips_of(tracks.take(i as int)).filter(keep);
            let ghost lane = tracks[i as int].clips();
            match &self.tracks[i] {
                Track::Video(video_track) => {
                    let mut j: usize = 0;
                    while j < video_track.clips.len()
                        invariant
                            j <= video_track.clips.len(),
                            i < self.tracks.len(),
                            self.tracks@[i as int] == Track::Video(*video_track),
                            tracks == self@.tracks,
                            lane == tracks[i as int].clips(),
                            keep == overlapping(start as int, end as int),
                            active_clip_views(result@) == before + lane.take(j as int).filter(
                                keep,
                            ),
                        decreases video_track.clips.len() - j,
                    {
                        let clip = &video_track.clips[j];
                        proof {
                            lemma_filter_next(lane, j as int, keep);
                        }
                        if clip.overlaps(start, end) {
                            let ghost old_result = result@;
                            result.push(ActiveClip::Video(clip.clone()));
                            assert(active_clip_views(result@) =~= active_clip_views(
                                old_result,
                            ).push(lane[j as int]));
                        }
                        j += 1;
                    }
                    assert(lane.take(j as int) =~= lane);
                },
                Track::Audio(audio_track) => {
                    let mut j: usize = 0;
                    while j < audio_track.clips.len()
                        invariant
                            j <= audio_track.clips.len(),
                            i < self.tracks.len(),
                            self.tracks@[i as int] == Track::Audio(*audio_track),
                            tracks == self@.tracks,
                            lane == tracks[i as int].clips(),
                            keep == overlapping(start as int, end as int),
                            active_clip_views(result@) == before + lane.take(j as int).filter(
                                keep,
                            ),
                        decreases audio_track.clips.len() - j,
                    {
                        let clip = &audio_track.clips[j];
                        proof {
                            lemma_filter_next(lane, j as int, keep);
                        }
                        if clip.overlaps(start, end) {
                            let ghost old_result = result@;
                            result.push(ActiveClip::Audio(clip.clone()));
                            assert(active_clip_views(result@) =~= active_clip_views(
                                old_result,
                            ).push(lane[j as int]));
                        }
                        j += 1;
                    }
                    assert(lane.take(j as int) =~= lane);
                },
            }
            proof {
                lemma_clips_of_next(tracks, i as int);
            }
            i += 1;
        }
        assert(tracks.take(i as int) =~= tracks);
        proof {
            let found = active_clip_views(result@);
            assert forall|clip: ActiveClipView| #[trigger]
                found.contains(clip) <==> self@.all_clips().contains(clip) && clip.end_time()
                    > start && clip.start_time() < end by {
                self@.lemma_clips_in_range_membership(start as int, end as int, clip);
            }
        }
        result
    }

    /// All video clips that are active at `time`.
    pub fn active_video_clips_at(&self, time: i64) -> (result: Vec<&VideoClip>)
        ensures
            result@.map_values(|c: &VideoClip| c@) == self@.active_video_clips_at(time as int),
    {
        let mut result: Vec<&VideoClip> = Vec::new();
        let ghost keep = video_active_at(time as int);
        let ghost tracks = self@.tracks;
        let ghost model = |c: &VideoClip| c@;
        let mut i: usize = 0;
        while i < self.tracks.len()
            invariant
                i <= self.tracks.len(),
                tracks == self@.tracks,
                keep == video_active_at(time as int),
                model == |c: &VideoClip| c@,
                result@.map_values(model) == video_clips_of(tracks.take(i as int)).filter(keep),
            decreases self.tracks.len() - i,
        {
            let ghost before = video_clips_of(tracks.take(i as int)).filter(keep);
            let ghost lane = tracks[i as int].video_clips();
            match &self.tracks[i] {
                Track::Video(video_track) => {
                    let mut j: usize = 0;
                    while j < video_track.clips.len()
                        invariant
                            j <= video_track.clips.len(),
                            i < self.tracks.len(),
                            self.tracks@[i as int] == Track::Video(*video_track),
                            tracks == self@.tracks,
                            lane == tracks[i as int].video_clips(),
                            keep == video_active_at(time as int),
                            model == |c: &VideoClip| c@,
                            result@.map_values(model) == before + lane.take(j as int).filter(
                                keep,
                            ),
                        decreases video_track.clips.len() - j,
                    {
                        let clip = &video_track.clips[j];
                        proof {
                            lemma_filter_next(lane, j as int, keep);
                        }
                        if clip.is_active_at(time) {
                            let ghost old_result = result@;
                            result.push(clip);
                            assert(result@.map_values(model) =~= old_result.map_values(
                                model,
                            ).push(lane[j as int]));
                        }
                        j += 1;
                    }
                    assert(lane.take(j as int) =~= lane);
                },
                Track::Audio(_) => {
                },
            }
            proof {
                lemma_clips_of_next(tracks, i as int);
            }
            i += 1;
        }
        assert(tracks.take(i as int) =~= tracks);
        result
    }

    /// Copies of all clips of the first track named `track_id`, or `None`
    /// where no track has that name.
    pub fn clips_on_track(&self, track_id: &str) -> (result: Option<Vec<ActiveClip>>)
        ensures
            result is Some <==> self@.clips_on_track(track_id@) is Some,
            result matches Some(clips) ==> self@.clips_on_track(track_id@) == Some(
                active_clip_views(clips@),
            ),
            result is None <==> forall|i: int|
                0 <= i < self@.tracks.len() ==> (#[trigger] self@.tracks[i]).id() != track_id@,
    {
        let wanted = String::from_str(track_id);
        let ghost tracks = self@.tracks;
        let mut i: usize = 0;
        while i < self.tracks.len()
            invariant
                i <= self.tracks.len(),
                tracks == self@.tracks,
                wanted@ == track_id@,
                first_track_named(tracks.take(i as int), track_id@) is None,
                forall|k: int| 0 <= k < i ==> (#[trigger] tracks[k]).id() != track_id@,
            decreases self.tracks.len() - i,
        {
            proof {
                assert(tracks.take(i + 1).drop_last() =~= tracks.take(i as int));
            }
            match &self.tracks[i] {
                Track::Video(video_track) => {
                    if video_track.id == wanted {
                        let ghost lane = tracks[i as int].clips();
                        proof {
                            lemma_first_where_extends(tracks, named(track_id@), i + 1);
                        }
                        let mut clips: Vec<ActiveClip> = Vec::new();
                        let mut j: usize = 0;
                        while j < video_track.clips.len()
                            invariant
                                j <= video_track.clips.len(),
                                i < self.tracks.len(),
                                self.tracks@[i as int] == Track::Video(*video_track),
                                tracks == self@.tracks,
                                lane == tracks[i as int].clips(),
                                active_clip_views(clips@) == lane.take(j as int),
                            decreases video_track.clips.len() - j,
                        {
                            let ghost old_clips = clips@;
                            clips.push(ActiveClip::Video(video_track.clips[j].clone()));
                            assert(active_clip_views(clips@) =~= active_clip_views(old_clips).push(
                                lane[j as int],
                            ));
                            j += 1;
                        }
                        return Some(clips);
                    }
                },
                Track::Audio(audio_track) => {
                    if audio_track.id == wanted {
                        let ghost lane = tracks[i as int].clips();
                        proof {
                            lemma_first_where_extends(tracks, named(track_id@), i + 1);
                        }
                        let mut clips: Vec<ActiveClip> = Vec::new();
                        let mut j: usize = 0;
                        while j < audio_track.clips.len()
                            invariant
                                j <= audio_track.clips.len(),
                                i < self.tracks.len(),
                                self.tracks@[i as int] == Track::Audio(*audio_track),
                                tracks == self@.tracks,
                                lane == tracks[i as int].clips(),
                                active_clip_views(clips@) == lane.take(j as int),
                            decreases audio_track.clips.len() - j,
                        {
                            let ghost old_clips = clips@;
                            clips.push(ActiveClip::Audio(audio_track.clips[j].clone()));
                            assert(active_clip_views(clips@) =~= active_clip_views(old_clips).push(
                                lane[j as int],
                            ));
                            j += 1;
                        }
                        return Some(clips);
                    }
                },
            }
            i += 1;
        }
        proof {
            assert(tracks.take(i as int) =~= tracks);
        }
        None
    }
}

} // verus!
