//! The renderer of timeline frames and its frame cache.
//!
//! Decoding media is the work of a decoder outside this library. The
//! renderer decides which clip and which position in its asset a frame comes
//! from, hands that out as a request, and takes what the decoder made of it.
//! It never fails: where there is nothing to show, or the decoder could not
//! deliver, the frame is blank.

use std::collections::HashMap;
use vstd::prelude::*;
use crate::ops::clip_ops::source_position;
use crate::types::media::{ClipView, VideoMetadataView};
use crate::types::search::{first_where, lemma_first_where_is_least, lemma_least_is_first_where};
use crate::types::time::{frame_number, frame_number_at, saturate};
use crate::types::timeline::{active_clip_views, ActiveClip, ActiveClipView, Timeline, TimelineView};

verus! {

/// A rendered frame as a mathematical value.
pub struct VideoFrameView {
    pub data: Seq<u8>,
    pub width: u32,
    pub height: u32,
    pub timestamp: int,
    pub frame_number: u64,
}

/// A rendered frame: RGBA pixels, four bytes each, row by row.
#[derive(Debug)]
pub struct VideoFrame {
    pub data: Vec<u8>,
    pub width: u32,
    pub height: u32,
    pub timestamp: i64,
    pub frame_number: u64,
}

impl View for VideoFrame {
    type V = VideoFrameView;

    open spec fn view(&self) -> VideoFrameView {
        VideoFrameView {
            data: self.data@,
            width: self.width,
            height: self.height,
            timestamp: self.timestamp as int,
            frame_number: self.frame_number,
        }
    }
}

impl Clone for VideoFrame {
    fn clone(&self) -> (r: Self)
        ensures
            r@ == self@,
    {
        VideoFrame {
            data: self.data.clone(),
            width: self.width,
            height: self.height,
            timestamp: self.timestamp,
            frame_number: self.frame_number,
        }
    }
}

/// What the decoder is asked for, as a mathematical value.
pub struct DecodeRequestView {
    pub asset_path: Seq<char>,
    pub local_time: int,
    pub width: u32,
    pub height: u32,
}

/// What the decoder is asked for: the frame of the asset at `asset_path`
/// that plays at `local_time` of the asset, scaled to `width` by `height`.
#[derive(Debug)]
pub struct DecodeRequest {
    pub asset_path: String,
    pub local_time: i64,
    pub width: u32,
    pub height: u32,
}

impl View for DecodeRequest {
    type V = DecodeRequestView;

    open spec fn view(&self) -> DecodeRequestView {
        DecodeRequestView {
            asset_path: self.asset_path@,
            local_time: self.local_time as int,
            width: self.width,
            height: self.height,
        }
    }
}

/// How far a render request got, as a mathematical value.
pub enum RenderStepView {
    Ready(VideoFrameView),
    NeedsDecode(DecodeRequestView),
}

/// How far a render request got without the decoder.
#[derive(Debug)]
pub enum RenderStep {
    /// The frame is there: it was in the cache, or it is blank because no
    /// video clip is active.
    Ready(VideoFrame),
    /// The frame comes from a clip. The caller has the request decoded and
    /// hands the outcome to `complete_frame`.
    NeedsDecode(DecodeRequest),
}

impl View for RenderStep {
    type V = RenderStepView;

    open spec fn view(&self) -> RenderStepView {
        match self {
            RenderStep::Ready(frame) => RenderStepView::Ready(frame@),
            RenderStep::NeedsDecode(request) => RenderStepView::NeedsDecode(request@),
        }
    }
}

/// The number of bytes of a frame of `width` by `height` pixels.
pub open spec fn buffer_len(width: u32, height: u32) -> nat {
    (width * height * 4) as nat
}

/// The pixels of a blank frame: every byte zero.
pub open spec fn blank_pixels(width: u32, height: u32) -> Seq<u8> {
    Seq::new(buffer_len(width, height), |i: int| 0u8)
}

/// The pixels of a frame, given what the decoder delivered: its pixels where
/// it delivered a buffer of the right length, a blank frame otherwise.
pub open spec fn composed_pixels(decoded: Option<Seq<u8>>, width: u32, height: u32) -> Seq<u8> {
    match decoded {
        Some(pixels) => if pixels.len() == buffer_len(width, height) {
            pixels
        } else {
            blank_pixels(width, height)
        },
        None => blank_pixels(width, height),
    }
}

/// The test "is a video clip" on clips of either kind.
pub open spec fn is_video() -> spec_fn(ActiveClipView) -> bool {
    |c: ActiveClipView| c is Video
}

/// The clip that a frame at `time` comes from: the first video clip among
/// the active clips. With several video tracks active at once, the clip on
/// the track with the lowest index wins; tracks are not layered.
pub open spec fn selected_clip(timeline: TimelineView, time: int) -> Option<
    ClipView<VideoMetadataView>,
> {
    let active = timeline.active_clips_at(time);
    match first_where(active, is_video()) {
        Some(k) => Some(active[k]->Video_0),
        None => None,
    }
}

/// A renderer as a mathematical value: its cache, as a map from frame number
/// to frame, and its settings.
pub struct RendererView {
    pub cache: Map<u64, VideoFrameView>,
    pub width: u32,
    pub height: u32,
    pub frame_rate: u32,
}

impl RendererView {
    /// The key under which the frame at `time` is cached.
    pub open spec fn frame_key(self, time: int) -> u64 {
        frame_number_at(time, self.frame_rate as int) as u64
    }

    /// The frame at `time` with the given pixels.
    pub open spec fn frame(self, time: int, data: Seq<u8>) -> VideoFrameView {
        VideoFrameView {
            data,
            width: self.width,
            height: self.height,
            timestamp: time,
            frame_number: self.frame_key(time),
        }
    }

    /// The request for the frame of `clip` that plays at `time`.
    pub open spec fn request(self, clip: ClipView<VideoMetadataView>, time: int)
        -> DecodeRequestView {
        DecodeRequestView {
            asset_path: clip.asset_path,
            local_time: source_position(clip, time),
            width: self.width,
            height: self.height,
        }
    }

    /// How far a render request for `time` gets without the decoder.
    pub open spec fn render_frame(self, timeline: TimelineView, time: int) -> RenderStepView {
        if self.cache.contains_key(self.frame_key(time)) {
            RenderStepView::Ready(self.cache[self.frame_key(time)])
        } else {
            match selected_clip(timeline, time) {
                Some(clip) => RenderStepView::NeedsDecode(self.request(clip, time)),
                None => RenderStepView::Ready(
                    self.frame(time, blank_pixels(self.width, self.height)),
                ),
            }
        }
    }

    /// The renderer after a render request for `time`: a blank frame made
    /// for want of an active video clip is cached; otherwise nothing
    /// changes.
    pub open spec fn after_render(self, timeline: TimelineView, time: int) -> RendererView {
        if !self.cache.contains_key(self.frame_key(time)) && selected_clip(timeline, time)
            is None {
            RendererView {
                cache: self.cache.insert(
                    self.frame_key(time),
                    self.frame(time, blank_pixels(self.width, self.height)),
                ),
                ..self
            }
        } else {
            self
        }
    }

    /// The frame at `time`, given what the decoder delivered.
    pub open spec fn complete_frame(self, time: int, decoded: Option<Seq<u8>>) -> VideoFrameView {
        self.frame(time, composed_pixels(decoded, self.width, self.height))
    }

    /// The renderer after the frame at `time` was completed: the frame is
    /// cached.
    pub open spec fn after_complete(self, time: int, decoded: Option<Seq<u8>>) -> RendererView {
        RendererView {
            cache: self.cache.insert(self.frame_key(time), self.complete_frame(time, decoded)),
            ..self
        }
    }

    /// The renderer after its cache was cleared.
    pub open spec fn cleared(self) -> RendererView {
        RendererView { cache: Map::empty(), ..self }
    }
}

impl RendererView {
    /// Every frame that the renderer makes has the length of its size,
    /// whatever the decoder delivered.
    pub proof fn lemma_frames_have_full_length(self, time: int, decoded: Option<Seq<u8>>)
        ensures
            self.complete_frame(time, decoded).data.len() == buffer_len(self.width, self.height),
            self.frame(time, blank_pixels(self.width, self.height)).data.len() == buffer_len(
                self.width,
                self.height,
            ),
    {
    }

    /// A render request that got a frame without the decoder gets the same
    /// frame again, without the decoder and without a change to the cache,
    /// for every instant of the same frame number, whatever has become of
    /// the timeline.
    pub proof fn lemma_rendered_frame_is_stable(
        self,
        timeline: TimelineView,
        time: int,
        later_timeline: TimelineView,
        later_time: int,
    )
        requires
            self.frame_key(later_time) == self.frame_key(time),
            self.render_frame(timeline, time) is Ready,
        ensures
            self.after_render(timeline, time).render_frame(later_timeline, later_time)
                == self.render_frame(timeline, time),
            self.after_render(timeline, time).after_render(later_timeline, later_time)
                == self.after_render(timeline, time),
    {
    }

    /// Once a frame was completed with what the decoder delivered, a render
    /// request for an instant of the same frame number gets that frame from
    /// the cache: no decoding is asked for, and the cache does not change.
    pub proof fn lemma_completed_frame_is_stable(
        self,
        time: int,
        decoded: Option<Seq<u8>>,
        later_timeline: TimelineView,
        later_time: int,
    )
        requires
            self.frame_key(later_time) == self.frame_key(time),
        ensures
            self.after_complete(time, decoded).render_frame(later_timeline, later_time)
                == RenderStepView::Ready(self.complete_frame(time, decoded)),
            self.after_complete(time, decoded).after_render(later_timeline, later_time)
                == self.after_complete(time, decoded),
    {
    }

    /// After the cache was cleared, no frame comes from what was cached
    /// before: a render request goes by the timeline as it is now. It asks
    /// for the frame of the clip now selected, or gives a blank frame where
    /// none is.
    pub proof fn lemma_no_stale_frame_after_clear(self, timeline: TimelineView, time: int)
        ensures
            match selected_clip(timeline, time) {
                Some(clip) => self.cleared().render_frame(timeline, time)
                    == RenderStepView::NeedsDecode(self.request(clip, time)),
                None => self.cleared().render_frame(timeline, time) == RenderStepView::Ready(
                    self.frame(time, blank_pixels(self.width, self.height)),
                ),
            },
            self.cleared().render_frame(timeline, time) == (RendererView {
                cache: Map::empty(),
                ..self
            }).render_frame(timeline, time),
    {
    }
}

/// The clip selected at `time` is a video clip of the timeline that is
/// active at `time`, and no video clip before it, in track order and then
/// clip order, is active; none is selected exactly where no video clip is
/// active.
pub proof fn lemma_selected_clip(timeline: TimelineView, time: int)
    ensures
        match selected_clip(timeline, time) {
            Some(clip) => {
                &&& timeline.all_clips().contains(ActiveClipView::Video(clip))
                &&& clip.is_active_at(time)
            },
            None => forall|k: int|
                0 <= k < timeline.all_clips().len() ==> !((#[trigger] timeline.all_clips()[k])
                    is Video && timeline.all_clips()[k].is_active_at(time)),
        },
{
    let active = timeline.active_clips_at(time);
    lemma_first_where_is_least(active, is_video());
    match first_where(active, is_video()) {
        Some(k) => {
            assert(active.contains(active[k]));
            timeline.lemma_active_clips_at_membership(time, active[k]);
        },
        None => {
            assert forall|k: int| 0 <= k < timeline.all_clips().len() implies !((
            #[trigger] timeline.all_clips()[k]) is Video && timeline.all_clips()[k].is_active_at(
                time,
            )) by {
                let clip = timeline.all_clips()[k];
                if clip is Video && clip.is_active_at(time) {
                    assert(timeline.all_clips().contains(clip));
                    timeline.lemma_active_clips_at_membership(time, clip);
                    let h = choose|h: int| 0 <= h < active.len() && active[h] == clip;
                    assert(is_video()(active[h]));
                }
            }
        },
    }
}

/// The models of the frames of a cache.
pub open spec fn frame_views(cache: Map<u64, VideoFrame>) -> Map<u64, VideoFrameView> {
    cache.map_values(|f: VideoFrame| f@)
}

/// The size of the frames that a renderer makes. Its pixel buffer has a
/// length that the machine can address.
pub struct FrameSize {
    width: u32,
    height: u32,
}

impl FrameSize {
    #[verifier::type_invariant]
    spec fn addressable(self) -> bool {
        self.width * self.height * 4 <= usize::MAX
    }

    pub closed spec fn spec_width(self) -> u32 {
        self.width
    }

    pub closed spec fn spec_height(self) -> u32 {
        self.height
    }

    pub fn new(width: u32, height: u32) -> (r: Self)
        requires
            width * height * 4 <= usize::MAX,
        ensures
            r.spec_width() == width,
            r.spec_height() == height,
    {
        FrameSize { width, height }
    }

    pub fn width(&self) -> (r: u32)
        ensures
            r == self.spec_width(),
    {
        self.width
    }

    pub fn height(&self) -> (r: u32)
        ensures
            r == self.spec_height(),
    {
        self.height
    }

    /// The number of bytes of a frame of this size.
    pub fn buffer_len(&self) -> (r: usize)
        ensures
            r == buffer_len(self.spec_width(), self.spec_height()),
    {
        proof {
            use_type_invariant(self);
        }
        (self.width as usize) * (self.height as usize) * 4
    }

    /// The pixels of a blank frame of this size.
    pub fn blank_pixels(&self) -> (r: Vec<u8>)
        ensures
            r@ == blank_pixels(self.spec_width(), self.spec_height()),
    {
        let pixels = vec![0u8; self.buffer_len()];
        pixels
    }
}

/// Renders the frames of a timeline and keeps them, by frame number, in a
/// cache of its own. The cache knows nothing of the timeline: whoever
/// changes the arrangement of clips clears it.
pub struct TimelineRenderer {
    size: FrameSize,
    frame_rate: u32,
    frame_cache: HashMap<u64, VideoFrame>,
}

impl View for TimelineRenderer {
    type V = RendererView;

    closed spec fn view(&self) -> RendererView {
        RendererView {
            cache: frame_views(self.frame_cache@),
            width: self.size.spec_width(),
            height: self.size.spec_height(),
            frame_rate: self.frame_rate,
        }
    }
}

impl TimelineRenderer {
    /// A renderer of frames of `width` by `height` pixels at `frame_rate`
    /// frames per thousand seconds, with an empty cache.
    pub fn new(width: u32, height: u32, frame_rate: u32) -> (r: Self)
        requires
            width * height * 4 <= usize::MAX,
        ensures
            r@ == (RendererView { cache: Map::empty(), width, height, frame_rate }),
    {
        let r = TimelineRenderer {
            size: FrameSize::new(width, height),
            frame_rate,
            frame_cache: HashMap::new(),
        };
        assert(frame_views(r.frame_cache@) =~= Map::empty());
        r
    }

    pub fn width(&self) -> (r: u32)
        ensures
            r == self@.width,
    {
        self.size.width()
    }

    pub fn height(&self) -> (r: u32)
        ensures
            r == self@.height,
    {
        self.size.height()
    }

    pub fn frame_rate(&self) -> (r: u32)
        ensures
            r == self@.frame_rate,
    {
        self.frame_rate
    }

    /// The cached frame of number `frame_number`, if there is one.
    pub fn cached_frame(&self, frame_number: u64) -> (r: Option<&VideoFrame>)
        ensures
            r is Some <==> self@.cache.contains_key(frame_number),
            r matches Some(frame) ==> frame@ == self@.cache[frame_number],
    {
        self.frame_cache.get(&frame_number)
    }

    /// Starts to render the frame at `time`. A frame that is in the cache
    /// comes from there. Otherwise the first active video clip of `timeline`
    /// decides: where there is one, the request for its frame is handed out
    /// and the cache stays as it is; where there is none, the frame is blank,
    /// and is cached.
    pub fn render_frame(&mut self, timeline: &Timeline, time: i64) -> (step: RenderStep)
        ensures
            step@ == old(self)@.render_frame(timeline@, time as int),
            final(self)@ == old(self)@.after_render(timeline@, time as int),
    {
        let frame_number = frame_number(time, self.frame_rate);

        // 1. Check the cache first
        if let Some(frame) = self.frame_cache.get(&frame_number) {
            return RenderStep::Ready(frame.clone());
        }

        // 2. Find the clips that are active at this time
        let active_clips = timeline.active_clips_at(time);
        let ghost active = timeline@.active_clips_at(time as int);

        // 3. The first active video clip is the source of the frame
        let mut k: usize = 0;
        while k < active_clips.len()
            invariant
                k <= active_clips.len(),
                self@ == old(self)@,
                frame_number == self@.frame_key(time as int),
                !self@.cache.contains_key(frame_number),
                active == timeline@.active_clips_at(time as int),
                active == active_clip_views(active_clips@),
                forall|h: int| 0 <= h < k ==> !is_video()(#[trigger] active[h]),
            decreases active_clips.len() - k,
        {
            if let ActiveClip::Video(clip) = &active_clips[k] {
                proof {
                    lemma_least_is_first_where(active, is_video(), k as int);
                }
                // The position in the source that plays at this time
                let local_time = saturate(
                    time as i128 - clip.start_time as i128 + clip.in_point as i128,
                );
                return RenderStep::NeedsDecode(
                    DecodeRequest {
                        asset_path: clip.asset_path.clone(),
                        local_time,
                        width: self.size.width(),
                        height: self.size.height(),
                    },
                );
            }
            k += 1;
        }
        proof {
            lemma_first_where_is_least(active, is_video());
        }

        let output = VideoFrame {
            data: self.size.blank_pixels(),
            width: self.size.width(),
            height: self.size.height(),
            timestamp: time,
            frame_number,
        };

        // 4. Store it in the cache
        let ghost cache_before = self.frame_cache@;
        self.frame_cache.insert(frame_number, output.clone());
        assert(frame_views(self.frame_cache@) =~= frame_views(cache_before).insert(
            frame_number,
            output@,
        ));
        RenderStep::Ready(output)
    }

    /// Completes the frame at `time` with what the decoder delivered, and
    /// caches it. A delivery of `None`, or of a buffer whose length is not
    /// that of a frame, gives a blank frame.
    pub fn complete_frame(&mut self, time: i64, decoded: Option<Vec<u8>>) -> (frame: VideoFrame)
        ensures
            frame@ == old(self)@.complete_frame(
                time as int,
                match decoded {
                    Some(pixels) => Some(pixels@),
                    None => None,
                },
            ),
            final(self)@ == old(self)@.after_complete(
                time as int,
                match decoded {
                    Some(pixels) => Some(pixels@),
                    None => None,
                },
            ),
    {
        let frame_number = frame_number(time, self.frame_rate);
        let data = match decoded {
            Some(pixels) => {
                if pixels.len() == self.size.buffer_len() {
                    pixels
                } else {
                    self.size.blank_pixels()
                }
            },
            None => self.size.blank_pixels(),
        };
        let output = VideoFrame {
            data,
            width: self.size.width(),
            height: self.size.height(),
            timestamp: time,
            frame_number,
        };
        let ghost cache_before = self.frame_cache@;
        self.frame_cache.insert(frame_number, output.clone());
        assert(frame_views(self.frame_cache@) =~= frame_views(cache_before).insert(
            frame_number,
            output@,
        ));
        output
    }

    /// Empties the cache. To be called whenever the arrangement of clips on
    /// the timeline has changed.
    pub fn clear_cache(&mut self)
        ensures
            final(self)@ == old(self)@.cleared(),
    {
        self.frame_cache.clear();
        assert(frame_views(self.frame_cache@) =~= Map::empty());
    }
}

} // verus!
