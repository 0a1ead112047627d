use cutio::ui::timeline_widget::{
    drag_released, path_to_file_uri, snap_time, DragState, TimelineEvent, MIN_CLIP_DURATION,
    SNAP_INTERVAL,
};
use cutio::ui::video_player::{
    clamp_frame, display_frame, seek_position_of_frame, MAX_FRAME, MAX_SEEK, MAX_SIDE,
};

const TENTH: i64 = SNAP_INTERVAL;

#[test]
fn snapping_goes_to_the_nearest_tenth_of_a_second() {
    assert_eq!(SNAP_INTERVAL, 100_000_000);
    assert_eq!(snap_time(0, true), 0);
    assert_eq!(snap_time(49_999_999, true), 0);
    assert_eq!(snap_time(50_000_000, true), TENTH);
    assert_eq!(snap_time(149_999_999, true), TENTH);
    assert_eq!(snap_time(150_000_000, true), 2 * TENTH);
    assert_eq!(snap_time(1_234_567_890, true), 12 * TENTH);
    assert_eq!(snap_time(-49_999_999, true), 0);
    assert_eq!(snap_time(-50_000_000, true), -TENTH);
    assert_eq!(snap_time(-1_260_000_000, true), -13 * TENTH);
    assert_eq!(snap_time(7 * TENTH, true), 7 * TENTH);
    // Without snapping the time is left as it is.
    assert_eq!(snap_time(1_234_567_890, false), 1_234_567_890);
    assert_eq!(snap_time(-3, false), -3);
    // At the ends of the range the snapped time is clamped.
    assert_eq!(snap_time(i64::MAX, true), i64::MAX);
    assert_eq!(snap_time(i64::MIN, true), i64::MIN);
    assert_eq!(snap_time(i64::MAX - TENTH, true), 9_223_372_036_800_000_000);
}

fn moved_to(event: Option<TimelineEvent>) -> (String, usize, i64) {
    match event {
        Some(TimelineEvent::ClipMoved { clip_id, track_idx, new_start_time }) => {
            (clip_id, track_idx, new_start_time)
        }
        other => panic!("expected a move, got {:?}", other),
    }
}

fn resized_to(event: Option<TimelineEvent>) -> (String, usize, i64, i64) {
    match event {
        Some(TimelineEvent::ClipResized { clip_id, track_idx, new_start_time, new_duration }) => {
            (clip_id, track_idx, new_start_time, new_duration)
        }
        other => panic!("expected a resize, got {:?}", other),
    }
}

#[test]
fn released_clip_drag_moves_the_clip() {
    let drag = DragState::Clip {
        clip_id: "c1".to_string(),
        track_idx: 2,
        original_start_time: 3 * 10 * TENTH,
    };
    assert_eq!(
        moved_to(drag_released(&drag, 1_234_567_890, true)),
        ("c1".to_string(), 2, 42 * TENTH)
    );
    assert_eq!(
        moved_to(drag_released(&drag, 1_234_567_890, false)),
        ("c1".to_string(), 2, 4_234_567_890)
    );
    // A clip cannot be dragged before instant zero.
    assert_eq!(moved_to(drag_released(&drag, -50 * TENTH, true)).2, 0);
    assert_eq!(moved_to(drag_released(&drag, i64::MIN, false)).2, 0);
    assert_eq!(moved_to(drag_released(&drag, i64::MAX, false)).2, i64::MAX);
}

#[test]
fn released_left_resize_trades_start_for_length() {
    let drag = DragState::ResizeLeft {
        clip_id: "c2".to_string(),
        track_idx: 0,
        original_start_time: 20 * TENTH,
        original_duration: 50 * TENTH,
    };
    assert_eq!(
        resized_to(drag_released(&drag, 10 * TENTH + 3, true)),
        ("c2".to_string(), 0, 30 * TENTH, 40 * TENTH)
    );
    assert_eq!(
        resized_to(drag_released(&drag, -10 * TENTH, true)),
        ("c2".to_string(), 0, 10 * TENTH, 60 * TENTH)
    );
    // The start stops at instant zero, and the length grows by what was there.
    assert_eq!(
        resized_to(drag_released(&drag, -90 * TENTH, true)),
        ("c2".to_string(), 0, 0, 70 * TENTH)
    );
    // The clip keeps the shortest duration.
    assert_eq!(resized_to(drag_released(&drag, 50 * TENTH, true)).3, MIN_CLIP_DURATION);
    assert_eq!(resized_to(drag_released(&drag, 500 * TENTH, true)).3, MIN_CLIP_DURATION);
    assert_eq!(resized_to(drag_released(&drag, 49 * TENTH, false)).3, TENTH);
    assert_eq!(resized_to(drag_released(&drag, 48 * TENTH, false)).3, 2 * TENTH);
}

#[test]
fn released_right_resize_changes_the_length() {
    let drag = DragState::ResizeRight {
        clip_id: "c3".to_string(),
        track_idx: 1,
        original_duration: 50 * TENTH,
    };
    assert_eq!(
        resized_to(drag_released(&drag, 12 * TENTH + 40_000_000, true)),
        ("c3".to_string(), 1, 0, 62 * TENTH)
    );
    assert_eq!(resized_to(drag_released(&drag, 12 * TENTH + 40_000_000, false)).3, 6_240_000_000);
    assert_eq!(resized_to(drag_released(&drag, -49 * TENTH, true)).3, MIN_CLIP_DURATION);
    assert_eq!(resized_to(drag_released(&drag, -50 * TENTH, true)).3, MIN_CLIP_DURATION);
    assert_eq!(resized_to(drag_released(&drag, -900 * TENTH, false)).3, MIN_CLIP_DURATION);
}

#[test]
fn released_playhead_drag_moves_the_playhead() {
    let playhead = |event: Option<TimelineEvent>| match event {
        Some(TimelineEvent::PlayheadMoved(time)) => time,
        other => panic!("expected a playhead move, got {:?}", other),
    };
    assert_eq!(playhead(drag_released(&DragState::Playhead, 1_260_000_000, true)), 13 * TENTH);
    assert_eq!(playhead(drag_released(&DragState::Playhead, 1_260_000_000, false)), 1_260_000_000);
    assert_eq!(playhead(drag_released(&DragState::Playhead, -5, true)), 0);
    assert_eq!(playhead(drag_released(&DragState::Playhead, -5, false)), 0);
    assert!(drag_released(&DragState::Selection, 77, true).is_none());
}

#[test]
fn file_uri_puts_the_scheme_before_the_path() {
    assert_eq!(path_to_file_uri("/home/me/a b.mp4"), "file:///home/me/a b.mp4");
    assert_eq!(path_to_file_uri(""), "file://");
}

#[test]
fn display_frame_checks_sides_and_buffer() {
    let frame = display_frame(2, 3, vec![7u8; 24]).expect("the frame fits");
    assert_eq!((frame.width, frame.height), (2, 3));
    assert_eq!(frame.pixels, vec![7u8; 24]);
    assert_eq!(frame.rgba(), &[7u8; 24][..]);
    assert!(frame.fills_exactly());
    // A longer buffer is taken as it is.
    let long = display_frame(2, 3, (0..30).collect()).expect("the frame fits");
    assert_eq!(long.pixels, (0..30).collect::<Vec<u8>>());
    assert_eq!(long.rgba().len(), 30);
    assert!(!long.fills_exactly());
    // A buffer that is too short is refused.
    assert!(display_frame(2, 3, vec![7u8; 23]).is_none());
    assert!(display_frame(1, 1, Vec::new()).is_none());
    // A side that is not positive, or too long, is refused.
    assert!(display_frame(0, 3, vec![0u8; 24]).is_none());
    assert!(display_frame(2, 0, vec![0u8; 24]).is_none());
    assert!(display_frame(-2, 3, vec![0u8; 24]).is_none());
    assert!(display_frame(2, i32::MIN, vec![0u8; 24]).is_none());
    assert!(display_frame(MAX_SIDE + 1, 1, vec![0u8; 4 * 8193]).is_none());
    assert!(display_frame(1, MAX_SIDE + 1, vec![0u8; 4 * 8193]).is_none());
    assert!(display_frame(MAX_SIDE, 1, vec![0u8; 4 * 8192]).is_some());
    assert_eq!(MAX_SIDE, 8192);
}

#[test]
fn player_frames_and_seek_positions_are_bounded() {
    assert_eq!(clamp_frame(0), 0);
    assert_eq!(clamp_frame(999_999), 999_999);
    assert_eq!(clamp_frame(MAX_FRAME), 1_000_000);
    assert_eq!(clamp_frame(MAX_FRAME + 1), 1_000_000);
    assert_eq!(clamp_frame(usize::MAX), 1_000_000);

    assert_eq!(seek_position_of_frame(0, 30_000), 0);
    assert_eq!(seek_position_of_frame(30, 30_000), 1_000_000_000);
    assert_eq!(seek_position_of_frame(1, 30_000), 33_333_333);
    assert_eq!(seek_position_of_frame(45, 30_000), 1_500_000_000);
    assert_eq!(seek_position_of_frame(108_000, 30_000), MAX_SEEK);
    assert_eq!(seek_position_of_frame(107_999, 30_000), 3_599_966_666_666);
    assert_eq!(seek_position_of_frame(1_000_000, 30_000), MAX_SEEK);
    assert_eq!(seek_position_of_frame(usize::MAX, 1), MAX_SEEK);
    assert_eq!(seek_position_of_frame(0, 0), 0);
    assert_eq!(seek_position_of_frame(5, 0), MAX_SEEK);
    assert_eq!(MAX_SEEK, 3_600_000_000_000);
}
