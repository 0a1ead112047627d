use cutio::renderer::time_player_bridge::{clamp_to_timeline, scale_elapsed, TimelinePlayerBridge};
use cutio::renderer::timeline_renderer::{FrameSize, RenderStep, TimelineRenderer};
use cutio::types::media::{AudioClip, AudioMetadata, VideoClip, VideoMetadata};
use cutio::types::playback_state::PlaybackState;
use cutio::types::time::{frame_number, saturate, FRAME_DIVISOR, NANOS_PER_SECOND, UNITS_PER_ONE};
use cutio::types::timeline::Timeline;
use cutio::types::track::{AudioTrack, Track, VideoTrack};

const SEC: i64 = NANOS_PER_SECOND;

fn clip_on(asset: &str, in_point: i64, start: i64, duration: i64) -> VideoClip {
    VideoClip {
        id: asset.to_string(),
        asset_path: asset.to_string(),
        in_point,
        out_point: in_point + duration,
        start_time: start,
        duration,
        metadata: VideoMetadata {
            resolution: (1920, 1080),
            frame_rate: 30_000,
            codec: "h264".to_string(),
        },
    }
}

fn sound_on(asset: &str, start: i64, duration: i64) -> AudioClip {
    AudioClip {
        id: asset.to_string(),
        asset_path: asset.to_string(),
        in_point: 0,
        out_point: duration,
        start_time: start,
        duration,
        metadata: AudioMetadata {
            sample_rate: 48000,
            channels: 2,
            codec: "pcm".to_string(),
            bitrate: 1536,
        },
    }
}

fn lane(id: &str, clips: Vec<VideoClip>) -> Track {
    Track::Video(VideoTrack { id: id.to_string(), name: id.to_string(), clips, muted: false })
}

fn sound_lane(id: &str, clips: Vec<AudioClip>) -> Track {
    Track::Audio(AudioTrack { id: id.to_string(), name: id.to_string(), clips, muted: false })
}

fn composition(tracks: Vec<Track>, duration: i64) -> Timeline {
    Timeline { tracks, duration, frame_rate: 30_000, resolution: (1920, 1080) }
}

fn ready(step: RenderStep) -> cutio::renderer::timeline_renderer::VideoFrame {
    match step {
        RenderStep::Ready(frame) => frame,
        RenderStep::NeedsDecode(request) => panic!("unexpected decode request {:?}", request),
    }
}

fn needs_decode(step: RenderStep) -> cutio::renderer::timeline_renderer::DecodeRequest {
    match step {
        RenderStep::NeedsDecode(request) => request,
        RenderStep::Ready(frame) => panic!("unexpected frame {}", frame.frame_number),
    }
}

#[test]
fn frame_numbers_count_whole_frames() {
    assert_eq!(frame_number(0, 30_000), 0);
    assert_eq!(frame_number(SEC, 30_000), 30);
    assert_eq!(frame_number(SEC / 2, 30_000), 15);
    assert_eq!(frame_number(33_333_333, 30_000), 0);
    assert_eq!(frame_number(33_333_334, 30_000), 1);
    assert_eq!(frame_number(10 * SEC, 29_970), 299);
    assert_eq!(frame_number(-SEC, 30_000), 0);
    assert_eq!(frame_number(i64::MIN, 30_000), 0);
    assert_eq!(frame_number(SEC, 0), 0);
    assert_eq!(frame_number(i64::MAX, u32::MAX), 39_614_081_247_908_796);
    assert_eq!(FRAME_DIVISOR, 1_000_000_000_000);
    assert_eq!(UNITS_PER_ONE, 1000);
}

#[test]
fn saturate_clamps_to_the_range_of_an_instant() {
    assert_eq!(saturate(0), 0);
    assert_eq!(saturate(-7), -7);
    assert_eq!(saturate(i64::MAX as i128), i64::MAX);
    assert_eq!(saturate(i64::MAX as i128 + 1), i64::MAX);
    assert_eq!(saturate(i64::MIN as i128 - 1), i64::MIN);
    assert_eq!(saturate(i128::MAX), i64::MAX);
    assert_eq!(saturate(i128::MIN), i64::MIN);
}

#[test]
fn frame_size_knows_its_buffer() {
    let size = FrameSize::new(3, 2);
    assert_eq!((size.width(), size.height()), (3, 2));
    assert_eq!(size.buffer_len(), 24);
    assert_eq!(size.blank_pixels(), vec![0u8; 24]);
    assert_eq!(FrameSize::new(0, 9).buffer_len(), 0);
}

#[test]
fn render_without_an_active_video_clip_is_blank_and_cached() {
    let timeline = composition(
        vec![
            lane("v", vec![clip_on("a.mp4", 0, 5 * SEC, SEC)]),
            sound_lane("s", vec![sound_on("a.wav", 0, 10 * SEC)]),
        ],
        10 * SEC,
    );
    let mut renderer = TimelineRenderer::new(4, 3, 30_000);
    assert_eq!((renderer.width(), renderer.height(), renderer.frame_rate()), (4, 3, 30_000));
    assert!(renderer.cached_frame(60).is_none());
    let frame = ready(renderer.render_frame(&timeline, 2 * SEC));
    assert_eq!(frame.data, vec![0u8; 48]);
    assert_eq!((frame.width, frame.height), (4, 3));
    assert_eq!(frame.timestamp, 2 * SEC);
    assert_eq!(frame.frame_number, 60);
    let cached = renderer.cached_frame(60).expect("the blank frame is cached");
    assert_eq!(cached.data, frame.data);
    assert_eq!(cached.timestamp, 2 * SEC);
}

#[test]
fn render_asks_for_the_first_active_video_clip_at_its_local_time() {
    let timeline = composition(
        vec![
            sound_lane("s", vec![sound_on("a.wav", 0, 10 * SEC)]),
            lane(
                "low",
                vec![clip_on("early.mp4", 0, 0, SEC), clip_on("low.mp4", 7 * SEC, 2 * SEC, 6 * SEC)],
            ),
            lane("high", vec![clip_on("high.mp4", 0, 0, 10 * SEC)]),
        ],
        10 * SEC,
    );
    let mut renderer = TimelineRenderer::new(640, 360, 30_000);
    let request = needs_decode(renderer.render_frame(&timeline, 3 * SEC));
    assert_eq!(request.asset_path, "low.mp4");
    assert_eq!(request.local_time, 3 * SEC - 2 * SEC + 7 * SEC);
    assert_eq!((request.width, request.height), (640, 360));
    // Nothing is cached until the frame is completed.
    assert!(renderer.cached_frame(90).is_none());
    // At the start of a clip its local time is its in-point.
    let request = needs_decode(renderer.render_frame(&timeline, 2 * SEC));
    assert_eq!(request.local_time, 7 * SEC);
    // Before the lower clip starts, the higher track is the first with an
    // active video clip behind the early one.
    let request = needs_decode(renderer.render_frame(&timeline, SEC / 2));
    assert_eq!(request.asset_path, "early.mp4");
    let request = needs_decode(renderer.render_frame(&timeline, SEC));
    assert_eq!(request.asset_path, "high.mp4");
    assert_eq!(request.local_time, SEC);
}

#[test]
fn completed_frame_takes_the_decoded_pixels_and_is_served_from_the_cache() {
    let timeline = composition(vec![lane("v", vec![clip_on("a.mp4", 0, 0, 10 * SEC)])], 10 * SEC);
    let mut renderer = TimelineRenderer::new(2, 2, 30_000);
    let _ = needs_decode(renderer.render_frame(&timeline, SEC));
    let pixels: Vec<u8> = (1..=16).collect();
    let frame = renderer.complete_frame(SEC, Some(pixels.clone()));
    assert_eq!(frame.data, pixels);
    assert_eq!(frame.frame_number, 30);
    assert_eq!(frame.timestamp, SEC);
    assert_eq!((frame.width, frame.height), (2, 2));

    // The same instant again: the same buffer, and no decode request.
    let again = ready(renderer.render_frame(&timeline, SEC));
    assert_eq!(again.data, pixels);
    assert_eq!(again.timestamp, SEC);
    // Another instant of the same frame number is served by the same frame.
    let same_frame = ready(renderer.render_frame(&timeline, SEC + 1_000_000));
    assert_eq!(same_frame.data, pixels);
    assert_eq!(same_frame.timestamp, SEC);
    assert_eq!(same_frame.frame_number, 30);
    // The next frame number is not in the cache.
    let request = needs_decode(renderer.render_frame(&timeline, SEC + 34_000_000));
    assert_eq!(request.local_time, SEC + 34_000_000);
}

#[test]
fn failed_or_missized_decode_gives_a_blank_frame() {
    let mut renderer = TimelineRenderer::new(2, 2, 30_000);
    let failed = renderer.complete_frame(0, None);
    assert_eq!(failed.data, vec![0u8; 16]);
    let short = renderer.complete_frame(SEC, Some(vec![9u8; 15]));
    assert_eq!(short.data, vec![0u8; 16]);
    let long = renderer.complete_frame(2 * SEC, Some(vec![9u8; 17]));
    assert_eq!(long.data, vec![0u8; 16]);
    let empty = renderer.complete_frame(3 * SEC, Some(Vec::new()));
    assert_eq!(empty.data, vec![0u8; 16]);
    let exact = renderer.complete_frame(4 * SEC, Some(vec![9u8; 16]));
    assert_eq!(exact.data, vec![9u8; 16]);
    // The blank frame is cached like any other.
    assert_eq!(renderer.cached_frame(0).unwrap().data, vec![0u8; 16]);
    assert_eq!(renderer.cached_frame(120).unwrap().data, vec![9u8; 16]);
    // A renderer of empty frames takes only an empty buffer.
    let mut none = TimelineRenderer::new(0, 5, 30_000);
    assert_eq!(none.complete_frame(0, Some(vec![1])).data, Vec::<u8>::new());
    assert_eq!(none.complete_frame(0, Some(Vec::new())).data, Vec::<u8>::new());
}

#[test]
fn cleared_cache_serves_no_stale_frame() {
    let mut timeline =
        composition(vec![lane("v", vec![clip_on("a.mp4", 0, 0, 10 * SEC)])], 10 * SEC);
    let mut renderer = TimelineRenderer::new(1, 1, 30_000);
    let _ = needs_decode(renderer.render_frame(&timeline, 4 * SEC));
    renderer.complete_frame(4 * SEC, Some(vec![1, 2, 3, 4]));
    assert_eq!(ready(renderer.render_frame(&timeline, 4 * SEC)).data, vec![1, 2, 3, 4]);

    // The clip is taken off the timeline. Without a clear the cache still
    // serves the frame that was made of it.
    timeline.tracks.clear();
    assert_eq!(ready(renderer.render_frame(&timeline, 4 * SEC)).data, vec![1, 2, 3, 4]);
    // After the clear the frame goes by the timeline as it is now.
    renderer.clear_cache();
    assert!(renderer.cached_frame(120).is_none());
    assert_eq!(ready(renderer.render_frame(&timeline, 4 * SEC)).data, vec![0, 0, 0, 0]);

    // A clip comes back at another place: after a clear it is asked for.
    timeline.tracks.push(lane("v", vec![clip_on("b.mp4", SEC, 3 * SEC, 2 * SEC)]));
    assert_eq!(ready(renderer.render_frame(&timeline, 4 * SEC)).data, vec![0, 0, 0, 0]);
    renderer.clear_cache();
    let request = needs_decode(renderer.render_frame(&timeline, 4 * SEC));
    assert_eq!(request.asset_path, "b.mp4");
    assert_eq!(request.local_time, 2 * SEC);
}

#[test]
fn render_after_a_split_asks_for_the_right_half() {
    let mut timeline =
        composition(vec![lane("v", vec![clip_on("a.mp4", SEC, 0, 10 * SEC)])], 10 * SEC);
    let mut renderer = TimelineRenderer::new(1, 1, 30_000);
    let before = needs_decode(renderer.render_frame(&timeline, 6 * SEC));
    assert!(timeline.split_clip_at_playhead("v", 4 * SEC));
    renderer.clear_cache();
    let after = needs_decode(renderer.render_frame(&timeline, 6 * SEC));
    // The cut keeps the source offsets: the same position of the same asset.
    assert_eq!(after.asset_path, before.asset_path);
    assert_eq!(after.local_time, before.local_time);
    assert_eq!(after.local_time, 7 * SEC);
}

#[test]
fn local_time_beyond_the_range_of_an_instant_is_clamped() {
    let timeline =
        composition(vec![lane("v", vec![clip_on("a.mp4", i64::MAX - 10, 0, 10)])], 10 * SEC);
    let clip = VideoClip { duration: 100, ..clip_on("a.mp4", i64::MAX - 10, 0, 10) };
    let stretched = composition(vec![lane("v", vec![clip])], 10 * SEC);
    let mut renderer = TimelineRenderer::new(1, 1, 30_000);
    assert_eq!(needs_decode(renderer.render_frame(&timeline, 9)).local_time, i64::MAX - 1);
    assert_eq!(needs_decode(renderer.render_frame(&stretched, 50)).local_time, i64::MAX);
}

#[test]
fn playback_advances_with_the_clock() {
    let timeline = composition(Vec::new(), 10 * SEC);
    let renderer = TimelineRenderer::new(1, 1, 30_000);
    let mut bridge = TimelinePlayerBridge::new(renderer, PlaybackState::new(), 1_000);
    assert!(bridge.current_frame().is_none());
    assert_eq!(bridge.last_update, 1_000);
    bridge.play(2_000);
    assert!(bridge.playback_state.is_playing);
    assert_eq!(bridge.last_update, 2_000);
    // Half a second of clock time at normal speed.
    let request = bridge.update(&timeline, 2_000 + 500_000_000);
    assert!(request.is_none());
    assert_eq!(bridge.playback_state.playhead, SEC / 2);
    assert_eq!(bridge.last_update, 2_000 + 500_000_000);
    let frame = bridge.current_frame().expect("a frame was rendered");
    assert_eq!(frame.timestamp, SEC / 2);
    assert_eq!(frame.frame_number, 15);
    assert_eq!(frame.data, vec![0u8; 4]);
    // The playhead stops at the end of the timeline.
    bridge.update(&timeline, 2_000 + 500_000_000 + 60_000_000_000);
    assert_eq!(bridge.playback_state.playhead, 10 * SEC);
    assert!(bridge.playback_state.is_playing);
}

#[test]
fn playback_stands_still_while_paused() {
    let timeline = composition(Vec::new(), 10 * SEC);
    let renderer = TimelineRenderer::new(1, 1, 30_000);
    let mut bridge = TimelinePlayerBridge::new(renderer, PlaybackState::new(), 0);
    bridge.update(&timeline, 5 * SEC as u64);
    assert_eq!(bridge.playback_state.playhead, 0);
    assert_eq!(bridge.last_update, 5 * SEC as u64);
    bridge.play(100 * SEC as u64);
    bridge.update(&timeline, 101 * SEC as u64);
    // The time spent paused does not count.
    assert_eq!(bridge.playback_state.playhead, SEC);
    bridge.pause();
    assert!(!bridge.playback_state.is_playing);
    bridge.update(&timeline, 105 * SEC as u64);
    assert_eq!(bridge.playback_state.playhead, SEC);
    // A clock that ran backwards counts as one that stood still.
    bridge.play(200 * SEC as u64);
    bridge.update(&timeline, 150 * SEC as u64);
    assert_eq!(bridge.playback_state.playhead, SEC);
    assert_eq!(bridge.last_update, 150 * SEC as u64);
}

#[test]
fn playback_rate_scales_the_clock() {
    let timeline = composition(Vec::new(), 100 * SEC);
    let renderer = TimelineRenderer::new(1, 1, 30_000);
    let state = PlaybackState { playback_rate: 2_500, is_playing: true, ..PlaybackState::new() };
    let mut bridge = TimelinePlayerBridge::new(renderer, state, 0);
    bridge.update(&timeline, 2 * SEC as u64);
    assert_eq!(bridge.playback_state.playhead, 5 * SEC);
    bridge.playback_state.playback_rate = -1_000;
    bridge.update(&timeline, 3 * SEC as u64);
    assert_eq!(bridge.playback_state.playhead, 4 * SEC);
    bridge.update(&timeline, 60 * SEC as u64);
    assert_eq!(bridge.playback_state.playhead, 0);
    assert_eq!(scale_elapsed(1_999, 500), 999);
    assert_eq!(scale_elapsed(1_999, -500), -999);
    assert_eq!(scale_elapsed(7, 0), 0);
    assert_eq!(scale_elapsed(u64::MAX, i32::MAX), 39_614_081_238_685_424_720_914_939);
    assert_eq!(scale_elapsed(u64::MAX, i32::MIN), -39_614_081_257_132_168_794_624_491);
}

#[test]
fn playhead_bounds_allow_one_second_on_a_short_timeline() {
    assert_eq!(clamp_to_timeline(-1, 10 * SEC), 0);
    assert_eq!(clamp_to_timeline(0, 10 * SEC), 0);
    assert_eq!(clamp_to_timeline(10 * SEC as i128, 10 * SEC), 10 * SEC);
    assert_eq!(clamp_to_timeline(10 * SEC as i128 + 1, 10 * SEC), 10 * SEC);
    assert_eq!(clamp_to_timeline(SEC as i128 / 2, 0), SEC / 2);
    assert_eq!(clamp_to_timeline(2 * SEC as i128, 0), SEC);
    assert_eq!(clamp_to_timeline(2 * SEC as i128, -5 * SEC), SEC);
    assert_eq!(clamp_to_timeline(i128::MAX, i64::MAX), i64::MAX);
    assert_eq!(clamp_to_timeline(i128::MIN, i64::MIN), 0);
}

#[test]
fn playhead_stops_after_one_second_on_an_empty_timeline() {
    let timeline = Timeline::new();
    let renderer = TimelineRenderer::new(1, 1, 30_000);
    let mut bridge = TimelinePlayerBridge::new(renderer, PlaybackState::new(), 0);
    bridge.play(0);
    bridge.update(&timeline, SEC as u64 / 4);
    assert_eq!(bridge.playback_state.playhead, SEC / 4);
    bridge.update(&timeline, 5 * SEC as u64);
    assert_eq!(bridge.playback_state.playhead, SEC);
    bridge.seek(&timeline, 3 * SEC);
    assert_eq!(bridge.playback_state.playhead, SEC);
}

#[test]
fn seek_clamps_and_renders_without_touching_playback() {
    let timeline = composition(Vec::new(), 10 * SEC);
    let renderer = TimelineRenderer::new(1, 1, 30_000);
    let mut bridge = TimelinePlayerBridge::new(renderer, PlaybackState::new(), 42);
    bridge.play(50);
    let request = bridge.seek(&timeline, -5 * SEC);
    assert!(request.is_none());
    assert_eq!(bridge.playback_state.playhead, 0);
    assert!(bridge.playback_state.is_playing);
    assert_eq!(bridge.last_update, 50);
    assert_eq!(bridge.current_frame().unwrap().timestamp, 0);

    bridge.pause();
    bridge.seek(&timeline, 7 * SEC);
    assert_eq!(bridge.playback_state.playhead, 7 * SEC);
    assert!(!bridge.playback_state.is_playing);
    assert_eq!(bridge.current_frame().unwrap().frame_number, 210);
    bridge.seek(&timeline, 70 * SEC);
    assert_eq!(bridge.playback_state.playhead, 10 * SEC);
    assert_eq!(bridge.video_buffer.len(), 1);
}

#[test]
fn bridge_awaits_the_decoder_and_takes_its_frame() {
    let timeline = composition(vec![lane("v", vec![clip_on("a.mp4", SEC, 0, 10 * SEC)])], 10 * SEC);
    let renderer = TimelineRenderer::new(1, 1, 30_000);
    let mut bridge = TimelinePlayerBridge::new(renderer, PlaybackState::new(), 0);
    assert!(!bridge.frame_decoded(Some(vec![1, 1, 1, 1])));
    assert!(bridge.current_frame().is_none());

    let request = bridge.seek(&timeline, 2 * SEC).expect("the frame needs the decoder");
    assert_eq!(request.asset_path, "a.mp4");
    assert_eq!(request.local_time, 3 * SEC);
    assert_eq!(bridge.pending, Some(2 * SEC));
    assert!(bridge.current_frame().is_none());
    assert!(bridge.frame_decoded(Some(vec![5, 6, 7, 8])));
    assert_eq!(bridge.pending, None);
    assert_eq!(bridge.current_frame().unwrap().data, vec![5, 6, 7, 8]);
    assert_eq!(bridge.current_frame().unwrap().timestamp, 2 * SEC);

    // The frame is cached now: the same position needs no decoder.
    assert!(bridge.seek(&timeline, 2 * SEC).is_none());
    assert_eq!(bridge.current_frame().unwrap().data, vec![5, 6, 7, 8]);

    // A failed decode leaves a blank frame, and playback goes on.
    bridge.play(0);
    let request = bridge.update(&timeline, SEC as u64);
    assert!(request.is_some());
    assert_eq!(bridge.playback_state.playhead, 3 * SEC);
    // Until the delivery the frame at hand stays.
    assert_eq!(bridge.current_frame().unwrap().timestamp, 2 * SEC);
    assert!(bridge.frame_decoded(None));
    assert_eq!(bridge.current_frame().unwrap().data, vec![0, 0, 0, 0]);
    assert_eq!(bridge.current_frame().unwrap().timestamp, 3 * SEC);
    assert!(bridge.update(&timeline, SEC as u64).is_none());
}
