use cutio::ops::video_funcs::{
    seek_position, timestamp_is_valid, trim_window, whole_seconds_to_nanos,
};
use cutio::types::media::{AudioClip, AudioMetadata};
use cutio::types::timeline::Timeline;
use cutio::types::track::{AudioTrack, Track, VideoTrack};

#[test]
fn seek_position_starts_at_the_start_of_the_medium() {
    assert_eq!(seek_position(0), 0);
    assert_eq!(seek_position(1_500_000_000), 1_500_000_000);
    assert_eq!(seek_position(-1), 0);
    assert_eq!(seek_position(i64::MIN), 0);
    assert_eq!(seek_position(i64::MAX), 9_223_372_036_854_775_807);
}

#[test]
fn trim_window_runs_from_start_for_the_length_of_the_stretch() {
    assert_eq!(trim_window(2_000_000_000, 5_000_000_000), Some((2_000_000_000, 5_000_000_000)));
    assert_eq!(trim_window(0, 1), Some((0, 1)));
    // An end that does not lie after the start gives an empty window.
    assert_eq!(trim_window(5, 5), Some((5, 5)));
    assert_eq!(trim_window(5, 2), Some((5, 5)));
    // A start before the medium begins is moved to its beginning, and the
    // window keeps its length.
    assert_eq!(trim_window(-3, 4), Some((0, 7)));
    assert_eq!(trim_window(-3, -1), Some((0, 2)));
    assert_eq!(trim_window(i64::MIN, i64::MAX), Some((0, u64::MAX)));
    assert_eq!(trim_window(i64::MIN, 0), Some((0, 1 << 63)));
    assert_eq!(trim_window(0, i64::MAX), Some((0, i64::MAX as u64)));
    assert_eq!(trim_window(i64::MAX - 1, i64::MAX), Some((i64::MAX as u64 - 1, i64::MAX as u64)));
}

#[test]
fn timestamp_is_valid_within_a_known_length() {
    assert!(timestamp_is_valid(0, Some(10)));
    assert!(timestamp_is_valid(10, Some(10)));
    assert!(!timestamp_is_valid(11, Some(10)));
    assert!(!timestamp_is_valid(-1, Some(10)));
    assert!(!timestamp_is_valid(0, None));
    assert!(!timestamp_is_valid(0, Some(-1)));
    assert!(timestamp_is_valid(0, Some(0)));
}

#[test]
fn whole_seconds_become_nanoseconds_while_they_fit() {
    assert_eq!(whole_seconds_to_nanos(0), Some(0));
    assert_eq!(whole_seconds_to_nanos(12), Some(12_000_000_000));
    assert_eq!(whole_seconds_to_nanos(9_223_372_036), Some(9_223_372_036_000_000_000));
    assert_eq!(whole_seconds_to_nanos(9_223_372_037), None);
    assert_eq!(whole_seconds_to_nanos(u64::MAX), None);
}

fn empty_video_track(id: &str) -> Track {
    Track::Video(VideoTrack {
        id: id.to_string(),
        name: format!("Video Track {}", id),
        clips: Vec::new(),
        muted: false,
    })
}

#[test]
fn tracks_are_added_at_the_end_and_removed_by_name() {
    let mut timeline = Timeline::new();
    timeline.add_track(empty_video_track("a"));
    timeline.add_track(Track::Audio(AudioTrack {
        id: "b".to_string(),
        name: "Audio".to_string(),
        clips: vec![AudioClip {
            id: "clip".to_string(),
            asset_path: "s.wav".to_string(),
            in_point: 0,
            out_point: 5,
            start_time: 0,
            duration: 5,
            metadata: AudioMetadata {
                sample_rate: 44100,
                channels: 1,
                codec: "pcm".to_string(),
                bitrate: 705,
            },
        }],
        muted: true,
    }));
    timeline.add_track(empty_video_track("a"));
    timeline.add_track(empty_video_track("c"));
    let names: Vec<&str> = timeline.tracks.iter().map(|t| t.id()).collect();
    assert_eq!(names, ["a", "b", "a", "c"]);
    assert_eq!((timeline.duration, timeline.frame_rate, timeline.resolution), (0, 30_000, (1920, 1080)));

    assert!(timeline.remove_track("missing").is_none());
    assert_eq!(timeline.tracks.len(), 4);

    match timeline.remove_track("b") {
        Some(Track::Audio(track)) => {
            assert_eq!(track.clips.len(), 1);
            assert_eq!(track.clips[0].id, "clip");
            assert!(track.muted);
            assert_eq!(track.name, "Audio");
        }
        _ => panic!("expected the audio track"),
    }
    // Of two tracks of one name the first goes.
    match timeline.remove_track("a") {
        Some(Track::Video(track)) => assert_eq!(track.name, "Video Track a"),
        _ => panic!("expected a video track"),
    }
    let names: Vec<&str> = timeline.tracks.iter().map(|t| t.id()).collect();
    assert_eq!(names, ["a", "c"]);
    assert!(timeline.remove_track("a").is_some());
    assert!(timeline.remove_track("a").is_none());
    assert!(timeline.remove_track("c").is_some());
    assert!(timeline.tracks.is_empty());
}
