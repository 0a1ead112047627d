use cutio::types::playback_state::PlaybackState;
use cutio::types::project::{Project, ProjectSettings};
use cutio::types::session::ProjectSession;

fn settings() -> ProjectSettings {
    ProjectSettings { resolution: (1920, 1080), frame_rate: 30_000, color_space: "sRGB".to_string() }
}

#[test]
fn new_project_is_empty() {
    let project = Project::new(
        "Test Project".to_string(),
        "/tmp/test_project.json".to_string(),
        "/tmp/cache".to_string(),
        "/tmp/render".to_string(),
        settings(),
    );
    assert_eq!(project.name, "Test Project");
    assert_eq!(project.description, None);
    assert_eq!(project.project_file_path, "/tmp/test_project.json");
    assert_eq!(project.created_at, "2024-06-09T12:00:00Z");
    assert_eq!(project.last_modified, "2024-06-09T12:00:00Z");
    assert!(project.media_library.all_items().is_empty());
    assert!(project.timeline.tracks.is_empty());
    assert_eq!(project.timeline.duration, 0);
    assert_eq!(project.timeline.frame_rate, 30_000);
    assert_eq!(project.timeline.resolution, (1920, 1080));
    assert_eq!(project.cache_dir, "/tmp/cache");
    assert_eq!(project.render_output_dir, "/tmp/render");
    assert_eq!(project.settings.resolution, (1920, 1080));
    assert_eq!(project.settings.frame_rate, 30_000);
    assert_eq!(project.settings.color_space, "sRGB");
    let copy = project.clone();
    assert_eq!(copy.name, project.name);
    assert_eq!(copy.settings.clone().color_space, "sRGB");
}

#[test]
fn new_session_starts_at_rest() {
    let project = Project::new(
        "p".to_string(),
        String::new(),
        String::new(),
        String::new(),
        settings(),
    );
    let session = ProjectSession::new(project);
    assert_eq!(session.project.name, "p");
    assert_eq!(session.playback_state, cutio::types::session::PlaybackState::new());
    assert_eq!(session.playback_state.playhead, 0);
    assert!(!session.playback_state.is_playing);
    assert_eq!(session.playback_state.loop_start, None);
    assert_eq!(session.playback_state.loop_end, None);
}

#[test]
fn playback_state_starts_at_rest() {
    let state = PlaybackState::new();
    assert_eq!(state.playhead, 0);
    assert!(!state.is_playing);
    assert_eq!(state.loop_start, None);
    assert_eq!(state.loop_end, None);
    assert_eq!(state.volume, 1000);
    assert_eq!(state.playback_rate, 1000);
    assert_eq!(PlaybackState::default(), state);
}
