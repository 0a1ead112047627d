//! The playback bridge: it moves the playhead against a clock and keeps the
//! frame at the playhead at hand.
//!
//! The bridge reads no clock and decodes nothing itself. Its caller hands it
//! the reading of a monotonic clock, in nanoseconds, with each call that
//! needs one, has the decode requests that come back carried out, and hands
//! the outcome to `frame_decoded`.

use vstd::prelude::*;
use crate::renderer::timeline_renderer::{
    DecodeRequest,
    DecodeRequestView,
    RenderStep,
    RenderStepView,
    RendererView,
    TimelineRenderer,
    VideoFrame,
    VideoFrameView,
};
use crate::types::playback_state::PlaybackState;
use crate::types::time::NANOS_PER_SECOND;
use crate::types::timeline::{Timeline, TimelineView};

verus! {

/// The time that passed on the clock between two of its readings. A clock
/// that seems to have run backwards counts as one that stood still.
pub open spec fn elapsed_between(earlier: u64, later: u64) -> int {
    if later >= earlier {
        later - earlier
    } else {
        0
    }
}

/// The timeline time that passes in `elapsed` of clock time at a playback
/// rate of `rate` thousandths, rounded towards zero.
pub open spec fn scaled(elapsed: int, rate: int) -> int {
    if rate >= 0 {
        (elapsed * rate) / 1000
    } else {
        -((elapsed * (-rate)) / 1000)
    }
}

/// The last instant that the playhead may reach on a timeline of length
/// `duration`: the end of the timeline, or one second where the timeline is
/// shorter than that.
pub open spec fn max_time(duration: int) -> int {
    if duration > NANOS_PER_SECOND {
        duration
    } else {
        NANOS_PER_SECOND as int
    }
}

/// The instant nearest to `time` that the playhead may take on a timeline of
/// length `duration`.
pub open spec fn clamp_playhead(time: int, duration: int) -> int {
    if time < 0 {
        0
    } else if time > max_time(duration) {
        max_time(duration)
    } else {
        time
    }
}

/// Where the playhead stands after `elapsed` of clock time: moved on at the
/// playback rate if playing, and kept within the bounds of the timeline.
pub open spec fn advanced_playhead(state: PlaybackState, elapsed: int, duration: int) -> int {
    clamp_playhead(
        if state.is_playing {
            state.playhead + scaled(elapsed, state.playback_rate as int)
        } else {
            state.playhead as int
        },
        duration,
    )
}

/// The models of a run of frames.
pub open spec fn frame_seq_views(frames: Seq<VideoFrame>) -> Seq<VideoFrameView> {
    frames.map_values(|f: VideoFrame| f@)
}

/// A bridge as a mathematical value.
pub struct BridgeView {
    pub renderer: RendererView,
    pub playback_state: PlaybackState,
    pub last_update: u64,
    pub video_buffer: Seq<VideoFrameView>,
    pub pending: Option<i64>,
}

impl BridgeView {
    /// The frame most recently rendered, if any.
    pub open spec fn current_frame(self) -> Option<VideoFrameView> {
        if self.video_buffer.len() > 0 {
            Some(self.video_buffer.last())
        } else {
            None
        }
    }

    /// The bridge with the playhead at `playhead`.
    pub open spec fn with_playhead(self, playhead: i64) -> BridgeView {
        BridgeView { playback_state: PlaybackState { playhead, ..self.playback_state }, ..self }
    }

    /// The request that rendering at the playhead hands out, if the frame
    /// needs the decoder.
    pub open spec fn request(self, timeline: TimelineView) -> Option<DecodeRequestView> {
        match self.renderer.render_frame(timeline, self.playback_state.playhead as int) {
            RenderStepView::Ready(_) => None,
            RenderStepView::NeedsDecode(request) => Some(request),
        }
    }

    /// The bridge after rendering at the playhead. A frame that is ready
    /// replaces the frame at hand. A frame that needs the decoder is awaited:
    /// the frame at hand stays until it is delivered.
    pub open spec fn rendered(self, timeline: TimelineView) -> BridgeView {
        let time = self.playback_state.playhead;
        match self.renderer.render_frame(timeline, time as int) {
            RenderStepView::Ready(frame) => BridgeView {
                renderer: self.renderer.after_render(timeline, time as int),
                video_buffer: seq![frame],
                pending: None,
                ..self
            },
            RenderStepView::NeedsDecode(_) => BridgeView { pending: Some(time), ..self },
        }
    }

    /// The bridge after a tick of the clock at reading `now`.
    pub open spec fn update(self, timeline: TimelineView, now: u64) -> BridgeView {
        (BridgeView {
            last_update: now,
            ..self.with_playhead(
                advanced_playhead(
                    self.playback_state,
                    elapsed_between(self.last_update, now),
                    timeline.duration,
                ) as i64,
            )
        }).rendered(timeline)
    }

    /// The bridge after a seek to `time`.
    pub open spec fn seek(self, timeline: TimelineView, time: int) -> BridgeView {
        self.with_playhead(clamp_playhead(time, timeline.duration) as i64).rendered(timeline)
    }

    /// The bridge after the decoder delivered `decoded` for the frame that
    /// is awaited; unchanged where none is.
    pub open spec fn frame_decoded(self, decoded: Option<Seq<u8>>) -> BridgeView {
        match self.pending {
            Some(time) => BridgeView {
                renderer: self.renderer.after_complete(time as int, decoded),
                video_buffer: seq![self.renderer.complete_frame(time as int, decoded)],
                pending: None,
                ..self
            },
            None => self,
        }
    }
}

/// The bounds of the playhead hold whatever the clock and the rate: an
/// instant brought within the bounds lies between instant zero and the last
/// instant of the timeline, and an instant within them is left as it is.
pub proof fn lemma_clamp_playhead_bounds(time: int, duration: int)
    ensures
        0 <= clamp_playhead(time, duration) <= max_time(duration),
        max_time(duration) >= NANOS_PER_SECOND,
        max_time(duration) >= duration,
        0 <= time <= max_time(duration) ==> clamp_playhead(time, duration) == time,
{
}

/// At normal speed the playhead moves as the clock does, and at rest it
/// does not move.
pub proof fn lemma_scaled_at_normal_speed(elapsed: int)
    ensures
        scaled(elapsed, 1000) == elapsed,
        scaled(elapsed, 0) == 0,
        scaled(0, 1000) == 0,
{
}

/// Drives playback of a timeline: owns the renderer and the playback state,
/// remembers the clock reading of the last tick, and keeps the frame most
/// recently rendered in a buffer of one slot.
pub struct TimelinePlayerBridge {
    pub renderer: TimelineRenderer,
    pub playback_state: PlaybackState,
    /// The reading of the clock at the last tick or at the last `play`.
    pub last_update: u64,
    pub video_buffer: Vec<VideoFrame>,
    /// The instant of the frame whose decoding is awaited, if one is.
    pub pending: Option<i64>,
}

impl View for TimelinePlayerBridge {
    type V = BridgeView;

    open spec fn view(&self) -> BridgeView {
        BridgeView {
            renderer: self.renderer@,
            playback_state: self.playback_state,
            last_update: self.last_update,
            video_buffer: frame_seq_views(self.video_buffer@),
            pending: self.pending,
        }
    }
}

/// Brings `time` within the bounds of the playhead on a timeline of length
/// `duration`.
pub fn clamp_to_timeline(time: i128, duration: i64) -> (r: i64)
    ensures
        r == clamp_playhead(time as int, duration as int),
        0 <= r,
{
    let max_time: i64 = if duration > NANOS_PER_SECOND {
        duration
    } else {
        NANOS_PER_SECOND
    };
    if time < 0 {
        0
    } else if time > max_time as i128 {
        max_time
    } else {
        time as i64
    }
}

/// Computes the timeline time that passes in `elapsed` of clock time at a
/// playback rate of `rate` thousandths.
pub fn scale_elapsed(elapsed: u64, rate: i32) -> (r: i128)
    ensures
        r == scaled(elapsed as int, rate as int),
{
    if rate >= 0 {
        assert(0 <= elapsed * rate <= 0xffff_ffff_ffff_ffff * 0x8000_0000) by (nonlinear_arith)
            requires
                0 <= elapsed <= 0xffff_ffff_ffff_ffff,
                0 <= rate <= 0x8000_0000,
        ;
        let product: u128 = (elapsed as u128) * (rate as u128);
        (product / 1000) as i128
    } else {
        let speed: u128 = (-(rate as i64)) as u128;
        assert(0 <= elapsed * speed <= 0xffff_ffff_ffff_ffff * 0x8000_0000) by (nonlinear_arith)
            requires
                0 <= elapsed <= 0xffff_ffff_ffff_ffff,
                0 <= speed <= 0x8000_0000,
        ;
        let product: u128 = (elapsed as u128) * speed;
        -((product / 1000) as i128)
    }
}

impl TimelinePlayerBridge {
    /// A bridge over `renderer` in the given playback state, with nothing
    /// rendered yet. `now` is the reading of the clock.
    pub fn new(renderer: TimelineRenderer, playback_state: PlaybackState, now: u64) -> (r: Self)
        ensures
            r@ == (BridgeView {
                renderer: renderer@,
                playback_state,
                last_update: now,
                video_buffer: Seq::empty(),
                pending: None,
            }),
    {
        let r = TimelinePlayerBridge {
            renderer,
            playback_state,
            last_update: now,
            video_buffer: Vec::new(),
            pending: None,
        };
        assert(frame_seq_views(r.video_buffer@) =~= Seq::empty());
        r
    }

    /// Renders the frame at the playhead as far as that goes without the
    /// decoder.
    fn render(&mut self, timeline: &Timeline) -> (request: Option<DecodeRequest>)
        ensures
            final(self)@ == old(self)@.rendered(timeline@),
            match request {
                Some(request) => old(self)@.request(timeline@) == Some(request@),
                None => old(self)@.request(timeline@) is None,
            },
    {
        let time = self.playback_state.playhead;
        match self.renderer.render_frame(timeline, time) {
            RenderStep::Ready(frame) => {
                self.video_buffer.clear();
                self.video_buffer.push(frame);
                self.pending = None;
                assert(frame_seq_views(self.video_buffer@) =~= seq![frame@]);
                None
            },
            RenderStep::NeedsDecode(request) => {
                self.pending = Some(time);
                Some(request)
            },
        }
    }

    /// A tick of the clock at reading `now`. If playing, the playhead moves
    /// on by the time that passed since the last tick, at the playback rate;
    /// it is kept within the bounds of the timeline. Then the frame at the
    /// playhead is rendered. Returns the decode request where that frame
    /// needs the decoder.
    pub fn update(&mut self, timeline: &Timeline, now: u64) -> (request: Option<DecodeRequest>)
        ensures
            final(self)@ == old(self)@.update(timeline@, now),
            match request {
                Some(request) => final(self)@.pending is Some && old(self)@.with_playhead(
                    final(self)@.playback_state.playhead,
                ).request(timeline@) == Some(request@),
                None => final(self)@.pending is None,
            },
            0 <= final(self)@.playback_state.playhead <= max_time(timeline@.duration),
            final(self)@.playback_state.is_playing == old(self)@.playback_state.is_playing,
            final(self)@.last_update == now,
    {
        let mut position: i128 = self.playback_state.playhead as i128;
        if self.playback_state.is_playing {
            let elapsed: u64 = if now >= self.last_update {
                now - self.last_update
            } else {
                0
            };
            let moved = scale_elapsed(elapsed, self.playback_state.playback_rate);
            assert(-0x8000_0000_0000_0000_0000_0000 <= moved <= 0x8000_0000_0000_0000_0000_0000)
                by (nonlinear_arith)
                requires
                    moved == scaled(elapsed as int, self.playback_state.playback_rate as int),
                    0 <= elapsed <= 0xffff_ffff_ffff_ffff,
                    -0x8000_0000 <= self.playback_state.playback_rate <= 0x8000_0000,
            ;
            position = position + moved;
        }
        self.last_update = now;

        // Keep the playhead within the timeline
        self.playback_state.playhead = clamp_to_timeline(position, timeline.duration);

        // Render the frame at the playhead
        self.render(timeline)
    }

    /// Moves the playhead to `time`, brought within the bounds of the
    /// timeline, and renders the frame there. The clock plays no part: no
    /// time passes by a seek. Returns the decode request where the frame
    /// needs the decoder.
    pub fn seek(&mut self, timeline: &Timeline, time: i64) -> (request: Option<DecodeRequest>)
        ensures
            final(self)@ == old(self)@.seek(timeline@, time as int),
            match request {
                Some(request) => final(self)@.pending is Some && old(self)@.with_playhead(
                    final(self)@.playback_state.playhead,
                ).request(timeline@) == Some(request@),
                None => final(self)@.pending is None,
            },
            final(self)@.playback_state.playhead == clamp_playhead(
                time as int,
                timeline@.duration,
            ),
            final(self)@.playback_state.is_playing == old(self)@.playback_state.is_playing,
            final(self)@.last_update == old(self)@.last_update,
    {
        self.playback_state.playhead = clamp_to_timeline(time as i128, timeline.duration);
        self.render(timeline)
    }

    /// Starts playback. Time counts from `now`, the reading of the clock,
    /// so that the time spent paused does not move the playhead.
    pub fn play(&mut self, now: u64)
        ensures
            final(self)@ == (BridgeView {
                playback_state: PlaybackState { is_playing: true, ..old(self)@.playback_state },
                last_update: now,
                ..old(self)@
            }),
    {
        self.playback_state.is_playing = true;
        self.last_update = now;
    }

    /// Stops playback.
    pub fn pause(&mut self)
        ensures
            final(self)@ == (BridgeView {
                playback_state: PlaybackState { is_playing: false, ..old(self)@.playback_state },
                ..old(self)@
            }),
    {
        self.playback_state.is_playing = false;
    }

    /// Takes what the decoder delivered for the request handed out last:
    /// the frame that was awaited is completed, cached, and replaces the
    /// frame at hand. Returns whether a frame was awaited; where none was,
    /// nothing changes.
    pub fn frame_decoded(&mut self, decoded: Option<Vec<u8>>) -> (awaited: bool)
        ensures
            final(self)@ == old(self)@.frame_decoded(
                match decoded {
                    Some(pixels) => Some(pixels@),
                    None => None,
                },
            ),
            awaited == old(self)@.pending is Some,
            final(self)@.pending is None,
    {
        match self.pending {
            Some(time) => {
                let frame = self.renderer.complete_frame(time, decoded);
                self.video_buffer.clear();
                self.video_buffer.push(frame);
                self.pending = None;
                assert(frame_seq_views(self.video_buffer@) =~= seq![frame@]);
                true
            },
            None => false,
        }
    }

    /// The frame most recently rendered, or `None` if none ever was.
    pub fn current_frame(&self) -> (r: Option<&VideoFrame>)
        ensures
            match r {
                Some(frame) => self@.current_frame() == Some(frame@),
                None => self@.current_frame() is None,
            },
    {
        let n = self.video_buffer.len();
        if n > 0 {
            Some(&self.video_buffer[n - 1])
        } else {
            None
        }
    }
}

} // verus!
