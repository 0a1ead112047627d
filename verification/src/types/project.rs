//! A project: a timeline with its media library and settings.

use vstd::prelude::*;
use vstd::string::StringExecFns;
use crate::types::media_library::{MediaItem, MediaLibrary};
use crate::types::timeline::{Timeline, TimelineView};

verus! {

/// The settings of a project. `frame_rate` counts frames per thousand
/// seconds.
#[derive(Debug)]
pub struct ProjectSettings {
    pub resolution: (u32, u32),
    pub frame_rate: u32,
    pub color_space: String,
}

impl Clone for ProjectSettings {
    fn clone(&self) -> (r: Self)
        ensures
            r == *self,
    {
        ProjectSettings {
            resolution: self.resolution,
            frame_rate: self.frame_rate,
            color_space: self.color_space.clone(),
        }
    }
}

/// All that is kept of an editing project from one session to the next.
#[derive(Debug)]
pub struct Project {
    pub name: String,
    pub description: Option<String>,
    pub project_file_path: String,
    pub created_at: String,
    pub last_modified: String,
    pub media_library: MediaLibrary,
    pub timeline: Timeline,
    pub cache_dir: String,
    pub render_output_dir: String,
    pub settings: ProjectSettings,
}

/// The time stamp that a new project carries until a clock is read for it.
pub open spec fn initial_time_stamp() -> Seq<char> {
    "2024-06-09T12:00:00Z"@
}

impl Clone for Project {
    fn clone(&self) -> (r: Self)
        ensures
            r.name == self.name,
            r.description == self.description,
            r.project_file_path == self.project_file_path,
            r.created_at == self.created_at,
            r.last_modified == self.last_modified,
            r.media_library@ == self.media_library@,
            r.timeline@ == self.timeline@,
            r.cache_dir == self.cache_dir,
            r.render_output_dir == self.render_output_dir,
            r.settings == self.settings,
    {
        Project {
            name: self.name.clone(),
            description: match &self.description {
                Some(text) => Some(text.clone()),
                None => None,
            },
            project_file_path: self.project_file_path.clone(),
            created_at: self.created_at.clone(),
            last_modified: self.last_modified.clone(),
            media_library: self.media_library.clone(),
            timeline: self.timeline.clone(),
            cache_dir: self.cache_dir.clone(),
            render_output_dir: self.render_output_dir.clone(),
            settings: self.settings.clone(),
        }
    }
}

impl Project {
    /// A new project: no description, an empty media library, an empty
    /// timeline, and the initial time stamp as the time of its creation and
    /// of its last change.
    pub fn new(
        name: String,
        project_file_path: String,
        cache_dir: String,
        render_output_dir: String,
        settings: ProjectSettings,
    ) -> (r: Self)
        ensures
            r.name == name,
            r.description is None,
            r.project_file_path == project_file_path,
            r.created_at@ == initial_time_stamp(),
            r.last_modified@ == initial_time_stamp(),
            r.media_library@ == Seq::<MediaItem>::empty(),
            r.timeline@ == (TimelineView {
                tracks: Seq::empty(),
                duration: 0,
                frame_rate: 30_000,
                resolution: (1920u32, 1080u32),
            }),
            r.cache_dir == cache_dir,
            r.render_output_dir == render_output_dir,
            r.settings == settings,
    {
        let now = String::from_str("2024-06-09T12:00:00Z");
        Project {
            name,
            description: None,
            project_file_path,
            created_at: now.clone(),
            last_modified: now,
            media_library: MediaLibrary::new(),
            timeline: Timeline::new(),
            cache_dir,
            render_output_dir,
            settings,
        }
    }
}

} // verus!
