//! Cutting one clip into two at an instant.

use vstd::prelude::*;
use vstd::string::StringExecFns;
use crate::types::media::{AudioClip, Clip, ClipView, VideoClip};
use crate::types::time::{clamp_time, saturate};

verus! {

/// The position in the asset that plays at instant `playhead` of the
/// timeline, for a clip that plays its source at its natural speed. A
/// position beyond what an instant can hold is clamped.
pub open spec fn source_position<M>(clip: ClipView<M>, playhead: int) -> int {
    clamp_time(clip.in_point + (playhead - clip.start_time))
}

/// The part of `clip` that plays before `playhead`.
pub open spec fn left_half<M>(clip: ClipView<M>, playhead: int) -> ClipView<M> {
    ClipView {
        id: clip.id + "_left"@,
        in_point: clip.in_point,
        out_point: source_position(clip, playhead),
        start_time: clip.start_time,
        duration: playhead - clip.start_time,
        ..clip
    }
}

/// The part of `clip` that plays from `playhead` on.
pub open spec fn right_half<M>(clip: ClipView<M>, playhead: int) -> ClipView<M> {
    ClipView {
        id: clip.id + "_right"@,
        in_point: source_position(clip, playhead),
        out_point: clip.out_point,
        start_time: playhead,
        duration: clip.end_time() - playhead,
        ..clip
    }
}

/// The two halves of `clip` cut at `playhead`. There is a cut only where the
/// playhead lies strictly inside the clip's interval: at either boundary one
/// half would be empty.
pub open spec fn cut<M>(clip: ClipView<M>, playhead: int) -> Option<(ClipView<M>, ClipView<M>)> {
    if clip.strictly_contains(playhead) {
        Some((left_half(clip, playhead), right_half(clip, playhead)))
    } else {
        None
    }
}

/// A cut loses no time and leaves no gap in the source: the halves last
/// together as long as the clip did, and the right half takes up the asset
/// where the left half leaves it.
pub proof fn lemma_cut_is_seamless<M>(clip: ClipView<M>, playhead: int)
    requires
        clip.strictly_contains(playhead),
    ensures
        cut(clip, playhead) matches Some((left, right)) && {
            &&& left.duration + right.duration == clip.duration
            &&& left.out_point == right.in_point
            &&& left.end_time() == right.start_time
            &&& left.start_time == clip.start_time
            &&& right.end_time() == clip.end_time()
            &&& left.metadata == clip.metadata
            &&& right.metadata == clip.metadata
            &&& left.asset_path == clip.asset_path
            &&& right.asset_path == clip.asset_path
        },
{
}

/// At either boundary of a clip, and outside it, there is no cut.
pub proof fn lemma_no_cut_outside<M>(clip: ClipView<M>, playhead: int)
    requires
        playhead <= clip.start_time || playhead >= clip.end_time(),
    ensures
        cut(clip, playhead) is None,
{
}

/// Cutting a sound clip gives two sound clips, and the cut lies in the
/// asset exactly as far behind the clip's in-point as the playhead lies
/// behind the clip's start.
pub proof fn lemma_cut_keeps_invariant<M>(clip: ClipView<M>, playhead: int)
    requires
        clip.sound(),
        clip.strictly_contains(playhead),
    ensures
        cut(clip, playhead) matches Some((left, right)) && {
            &&& left.sound()
            &&& right.sound()
            &&& left.out_point == clip.in_point + (playhead - clip.start_time)
        },
{
}

/// Write access to the identifier and the timing of a clip, and a way to
/// duplicate it: what a cut needs besides reading.
pub trait ClipSplit: Clip {
    fn set_id(&mut self, id: String)
        ensures
            final(self).model() == (ClipView { id: id@, ..old(self).model() }),
    ;

    fn set_in_point(&mut self, in_point: i64)
        ensures
            final(self).model() == (ClipView { in_point: in_point as int, ..old(self).model() }),
    ;

    fn set_out_point(&mut self, out_point: i64)
        ensures
            final(self).model() == (ClipView { out_point: out_point as int, ..old(self).model() }),
    ;

    fn set_start_time(&mut self, start_time: i64)
        ensures
            final(self).model() == (ClipView {
                start_time: start_time as int,
                ..old(self).model()
            }),
    ;

    fn set_duration(&mut self, duration: i64)
        ensures
            final(self).model() == (ClipView { duration: duration as int, ..old(self).model() }),
    ;

    /// Two copies of the clip.
    fn split(&self) -> (r: (Self, Self)) where Self: Sized
        ensures
            r.0.model() == self.model(),
            r.1.model() == self.model(),
    ;
}

/// Cuts `clip` at `playhead` into the part before it and the part from it
/// on. Returns `None` where the playhead does not lie strictly inside the
/// clip's interval.
pub fn cut_clip_at<T>(clip: &T, playhead: i64) -> (r: Option<(T, T)>) where
    T: Clip + Clone + ClipSplit,

    ensures
        r is Some <==> clip.model().strictly_contains(playhead as int),
        match r {
            Some((left, right)) => cut(clip.model(), playhead as int) == Some(
                (left.model(), right.model()),
            ),
            None => cut(clip.model(), playhead as int) is None,
        },
        r matches Some((left, right)) ==> {
            &&& left.model().duration + right.model().duration == clip.model().duration
            &&& left.model().out_point == right.model().in_point
        },
{
    let clip_start = clip.start_time();
    let clip_end: i128 = clip.start_time() as i128 + clip.duration() as i128;

    if playhead <= clip_start || playhead as i128 >= clip_end {
        return None;
    }
    let elapsed: i64 = playhead - clip_start;
    let position: i64 = saturate(clip.in_point() as i128 + elapsed as i128);
    let remaining: i64 = (clip_end - playhead as i128) as i64;

    let (mut left, mut right) = clip.split();

    // Left part: from the original start to the playhead
    left.set_id(String::from_str(clip.id()).concat("_left"));
    left.set_in_point(clip.in_point());
    left.set_out_point(position);
    left.set_start_time(clip_start);
    left.set_duration(elapsed);

    // Right part: from the playhead to the original end
    right.set_id(String::from_str(clip.id()).concat("_right"));
    right.set_in_point(position);
    right.set_out_point(clip.out_point());
    right.set_start_time(playhead);
    right.set_duration(remaining);

    Some((left, right))
}

impl ClipSplit for VideoClip {
    fn set_id(&mut self, id: String) {
        self.id = id;
    }

    fn set_in_point(&mut self, in_point: i64) {
        self.in_point = in_point;
    }

    fn set_out_point(&mut self, out_point: i64) {
        self.out_point = out_point;
    }

    fn set_start_time(&mut self, start_time: i64) {
        self.start_time = start_time;
    }

    fn set_duration(&mut self, duration: i64) {
        self.duration = duration;
    }

    fn split(&self) -> (r: (Self, Self)) {
        (self.clone(), self.clone())
    }
}

impl ClipSplit for AudioClip {
    fn set_id(&mut self, id: String) {
        self.id = id;
    }

    fn set_in_point(&mut self, in_point: i64) {
        self.in_point = in_point;
    }

    fn set_out_point(&mut self, out_point: i64) {
        self.out_point = out_point;
    }

    fn set_start_time(&mut self, start_time: i64) {
        self.start_time = start_time;
    }

    fn set_duration(&mut self, duration: i64) {
        self.duration = duration;
    }

    fn split(&self) -> (r: (Self, Self)) {
        (self.clone(), self.clone())
    }
}

} // verus!
