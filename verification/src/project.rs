//! Project lifecycle: metadata, settings, the undo/redo snapshot stack,
//! templates, recent files and autosave bookkeeping.
//!
//! Undo snapshots are opaque byte blobs pushed and popped in LIFO order;
//! a new action after undoing clears the redo side.

use crate::core_types::Timestamp;
use crate::errors::{VideoEditorError, VideoEditorResult};
use crate::text::str_eq;
use vstd::prelude::*;

verus! {

/// Unique identifier for a project.
#[derive(Debug, Clone, Copy, PartialEq, Eq, Structural, Hash)]
pub struct ProjectId(pub u64);

impl ProjectId {
    /// Creates a new project id.
    pub fn new(id: u64) -> (r: Self)
        ensures
            r.0 == id,
    {
        ProjectId(id)
    }

    /// Returns the inner id value.
    pub fn inner(&self) -> (r: u64)
        ensures
            r == self.0,
    {
        self.0
    }
}

/// Project state.
#[derive(Debug, Clone, Copy, PartialEq, Eq, Structural, Hash)]
pub enum ProjectState {
    /// New project, never saved.
    New,
    /// Saved and clean.
    Saved,
    /// Has unsaved changes.
    Modified,
    /// Being saved.
    Saving,
    /// Being loaded.
    Loading,
    /// Read-only.
    ReadOnly,
    /// Has errors.
    Error,
}

impl Default for ProjectState {
    /// The default project state is new.
    fn default() -> (r: Self)
        ensures
            r is New,
    {
        ProjectState::New
    }
}

/// Project file format version.
#[derive(Debug, Clone, Copy, PartialEq, Eq, Structural, Hash)]
pub struct ProjectVersion {
    /// Major version.
    pub major: u16,
    /// Minor version.
    pub minor: u16,
    /// Patch version.
    pub patch: u16,
}

impl ProjectVersion {
    /// Creates a new version.
    pub fn new(major: u16, minor: u16, patch: u16) -> (r: Self)
        ensures
            r == (ProjectVersion { major, minor, patch }),
    {
        ProjectVersion { major, minor, patch }
    }

    /// The current project format version.
    pub fn current() -> (r: Self)
        ensures
            r == (ProjectVersion { major: 1u16, minor: 0u16, patch: 0u16 }),
    {
        ProjectVersion { major: 1, minor: 0, patch: 0 }
    }

    /// A version can read another when the major versions match and its
    /// minor version is at least the other's.
    pub fn is_compatible_with(&self, other: &Self) -> (r: bool)
        ensures
            r == (self.major == other.major && self.minor >= other.minor),
    {
        self.major == other.major && self.minor >= other.minor
    }
}

impl Default for ProjectVersion {
    /// The default version is the current format version.
    fn default() -> (r: Self)
        ensures
            r == (ProjectVersion { major: 1u16, minor: 0u16, patch: 0u16 }),
    {
        ProjectVersion::current()
    }
}

/// Project metadata.
#[derive(Debug, Clone)]
pub struct ProjectMetadata {
    /// Project name.
    pub name: String,
    /// Project description.
    pub description: String,
    /// Author name.
    pub author: String,
    /// Copyright notice.
    pub copyright: String,
    /// Project tags.
    pub tags: Vec<String>,
    /// Custom metadata fields.
    pub custom: Vec<(String, String)>,
    /// Creation timestamp.
    pub created_at: Timestamp,
    /// Last modified timestamp.
    pub modified_at: Timestamp,
    /// Project format version.
    pub version: ProjectVersion,
    /// Application version that created this project.
    pub app_version: String,
}

impl ProjectMetadata {
    /// Creates metadata for a named project at the current format
    /// version; both timestamps are read from the clock.
    pub fn new(name: String) -> (r: Self)
        ensures
            r.name == name,
            r.description@.len() == 0,
            r.author@.len() == 0,
            r.copyright@.len() == 0,
            r.tags@.len() == 0,
            r.custom@.len() == 0,
            r.version == (ProjectVersion { major: 1u16, minor: 0u16, patch: 0u16 }),
            r.app_version@ == "1.0.0"@,
    {
        let now = Timestamp::now();
        ProjectMetadata {
            name,
            description: String::new(),
            author: String::new(),
            copyright: String::new(),
            tags: Vec::new(),
            custom: Vec::new(),
            created_at: now,
            modified_at: now,
            version: ProjectVersion::current(),
            app_version: String::from_str("1.0.0"),
        }
    }

    /// Refreshes the modification timestamp from the clock.
    pub fn touch(&mut self)
        ensures
            *final(self) == (ProjectMetadata {
                modified_at: final(self).modified_at,
                ..*old(self)
            }),
    {
        self.modified_at = Timestamp::now();
    }
}

/// Project settings. Fractional quantities are stored in thousandths.
#[derive(Debug)]
pub struct ProjectSettings {
    /// Timeline width in pixels.
    pub timeline_width: u32,
    /// Timeline height in pixels.
    pub timeline_height: u32,
    /// Frame rate numerator.
    pub frame_rate_num: u32,
    /// Frame rate denominator.
    pub frame_rate_den: u32,
    /// Audio sample rate in Hz.
    pub sample_rate: u32,
    /// Color space name.
    pub color_space: String,
    /// Pixel aspect ratio in thousandths (1000 = square).
    pub pixel_aspect_permille: u32,
    /// Working color depth (8, 10, 16 or 32 bits).
    pub color_depth: u8,
    /// Preview quality in thousandths (0 to 1000).
    pub preview_quality_permille: u32,
    /// Proxy generation enabled.
    pub use_proxies: bool,
    /// Auto-save interval in seconds (0 = disabled).
    pub autosave_interval: u32,
    /// Maximum undo history length.
    pub max_undo_history: u32,
}

impl Clone for ProjectSettings {
    /// Cloning preserves every field.
    fn clone(&self) -> (r: Self)
        ensures
            r == *self,
    {
        ProjectSettings {
            timeline_width: self.timeline_width,
            timeline_height: self.timeline_height,
            frame_rate_num: self.frame_rate_num,
            frame_rate_den: self.frame_rate_den,
            sample_rate: self.sample_rate,
            color_space: self.color_space.clone(),
            pixel_aspect_permille: self.pixel_aspect_permille,
            color_depth: self.color_depth,
            preview_quality_permille: self.preview_quality_permille,
            use_proxies: self.use_proxies,
            autosave_interval: self.autosave_interval,
            max_undo_history: self.max_undo_history,
        }
    }
}

impl Default for ProjectSettings {
    /// Default: Full HD at 30 fps, 48 kHz audio in sRGB at 8 bits, square
    /// pixels, half preview quality, proxies on, five-minute autosave and
    /// a hundred undo steps.
    fn default() -> (r: Self)
        ensures
            r.timeline_width == 1920,
            r.timeline_height == 1080,
            r.frame_rate_num == 30,
            r.frame_rate_den == 1,
            r.sample_rate == 48000,
            r.color_space@ == "sRGB"@,
            r.pixel_aspect_permille == 1000,
            r.color_depth == 8,
            r.preview_quality_permille == 500,
            r.use_proxies,
            r.autosave_interval == 300,
            r.max_undo_history == 100,
    {
        ProjectSettings {
            timeline_width: 1920,
            timeline_height: 1080,
            frame_rate_num: 30,
            frame_rate_den: 1,
            sample_rate: 48000,
            color_space: String::from_str("sRGB"),
            pixel_aspect_permille: 1000,
            color_depth: 8,
            preview_quality_permille: 500,
            use_proxies: true,
            autosave_interval: 300,
            max_undo_history: 100,
        }
    }
}

impl ProjectSettings {
    /// Creates 4K settings at 10 bits.
    pub fn uhd_4k() -> (r: Self)
        ensures
            r.timeline_width == 3840,
            r.timeline_height == 2160,
            r.color_depth == 10,
            r.frame_rate_num == 30,
    {
        ProjectSettings {
            timeline_width: 3840,
            timeline_height: 2160,
            color_depth: 10,
            ..ProjectSettings::default()
        }
    }

    /// Creates film settings at 24 fps.
    pub fn film() -> (r: Self)
        ensures
            r.frame_rate_num == 24,
            r.frame_rate_den == 1,
            r.timeline_width == 1920,
    {
        ProjectSettings { frame_rate_num: 24, frame_rate_den: 1, ..ProjectSettings::default() }
    }

    /// Creates NTSC settings at 29.97 fps.
    pub fn ntsc() -> (r: Self)
        ensures
            r.frame_rate_num == 30000,
            r.frame_rate_den == 1001,
    {
        ProjectSettings {
            frame_rate_num: 30000,
            frame_rate_den: 1001,
            ..ProjectSettings::default()
        }
    }
}

/// Autosave record.
#[derive(Debug, Clone)]
pub struct AutosaveInfo {
    /// Path of the autosave file.
    pub path: String,
    /// Timestamp of the autosave.
    pub timestamp: Timestamp,
    /// Whether this is a recovery file.
    pub is_recovery: bool,
}

/// A video editing project, owning its undo/redo snapshot stacks.
#[derive(Debug)]
pub struct Project {
    /// Project identifier.
    pub id: ProjectId,
    /// File path (`None` before the first save).
    pub path: Option<String>,
    /// Project metadata.
    pub metadata: ProjectMetadata,
    /// Project settings.
    pub settings: ProjectSettings,
    /// Current state.
    pub state: ProjectState,
    /// Undo stack of serialized snapshots.
    pub undo_stack: Vec<Vec<u8>>,
    /// Redo stack of serialized snapshots.
    pub redo_stack: Vec<Vec<u8>>,
    /// Position in the undo stack.
    pub undo_index: usize,
    /// Last autosave record.
    pub last_autosave: Option<AutosaveInfo>,
    /// Asset paths referenced by the project.
    pub asset_paths: Vec<String>,
    /// Linked projects, for team workflows.
    pub linked_projects: Vec<String>,
}

impl Project {
    /// Creates a new, never-saved project with default settings and empty
    /// history.
    pub fn new(id: ProjectId, name: String) -> (r: Self)
        ensures
            r.id == id,
            r.path is None,
            r.metadata.name == name,
            r.state is New,
            r.undo_stack@.len() == 0,
            r.redo_stack@.len() == 0,
            r.undo_index == 0,
            r.last_autosave is None,
            r.asset_paths@.len() == 0,
            r.settings.max_undo_history == 100,
    {
        Project {
            id,
            path: None,
            metadata: ProjectMetadata::new(name),
            settings: ProjectSettings::default(),
            state: ProjectState::New,
            undo_stack: Vec::new(),
            redo_stack: Vec::new(),
            undo_index: 0,
            last_autosave: None,
            asset_paths: Vec::new(),
            linked_projects: Vec::new(),
        }
    }

    /// Sets the file path.
    pub fn set_path(&mut self, path: String)
        ensures
            *final(self) == (Project { path: Some(path), ..*old(self) }),
    {
        self.path = Some(path);
    }

    /// A project has unsaved changes when it is new or modified.
    pub fn has_unsaved_changes(&self) -> (r: bool)
        ensures
            r == (self.state is Modified || self.state is New),
    {
        matches!(self.state, ProjectState::Modified | ProjectState::New)
    }

    /// Marks the project modified and touches its metadata, unless it is
    /// read-only or in error.
    pub fn mark_modified(&mut self)
        ensures
            (old(self).state is ReadOnly || old(self).state is Error) ==> *final(self) == *old(self),
            !(old(self).state is ReadOnly || old(self).state is Error) ==> final(self).state is Modified && *final(self) == (Project {
                state: ProjectState::Modified,
                metadata: final(self).metadata,
                ..*old(self)
            }),
    {
        if !matches!(self.state, ProjectState::ReadOnly | ProjectState::Error) {
            self.state = ProjectState::Modified;
            self.metadata.touch();
        }
    }

    /// Marks the project saved.
    pub fn mark_saved(&mut self)
        ensures
            *final(self) == (Project { state: ProjectState::Saved, ..*old(self) }),
    {
        self.state = ProjectState::Saved;
    }

    /// Undo is available while the undo position is above the bottom.
    pub fn can_undo(&self) -> (r: bool)
        ensures
            r == (self.undo_index > 0),
    {
        self.undo_index > 0
    }

    /// Redo is available while the undo position is below the top.
    pub fn can_redo(&self) -> (r: bool)
        ensures
            r == (self.undo_index < self.undo_stack@.len()),
    {
        self.undo_index < self.undo_stack.len()
    }

    /// Pushes a snapshot for undo: any redone-over states above the
    /// current position are dropped, the redo stack is cleared, the
    /// snapshot goes on top, and the history is trimmed from the bottom
    /// to the configured maximum. The project is marked modified.
    pub fn push_undo_state(&mut self, state: Vec<u8>)
        requires
            old(self).settings.max_undo_history >= 1,
        ensures
            final(self).redo_stack@.len() == 0,
            final(self).undo_index == final(self).undo_stack@.len(),
            final(self).undo_stack@.len() >= 1,
            final(self).undo_stack@.len() <= old(self).settings.max_undo_history,
            final(self).undo_stack@.last() == state,
            ({
                let kept = if old(self).undo_index <= old(self).undo_stack@.len() {
                    old(self).undo_stack@.take(old(self).undo_index as int)
                } else {
                    old(self).undo_stack@
                };
                let pushed = kept.push(state);
                final(self).undo_stack@ == (if pushed.len()
                    > old(self).settings.max_undo_history {
                    pushed.skip(pushed.len() - old(self).settings.max_undo_history)
                } else {
                    pushed
                })
            }),
            final(self).settings == old(self).settings,
            final(self).id == old(self).id,
    {
        if self.undo_index < self.undo_stack.len() {
            self.undo_stack.truncate(self.undo_index);
            proof {
                assert(self.undo_stack@ =~= old(self).undo_stack@.take(
                    old(self).undo_index as int,
                ));
            }
        }
        self.redo_stack.clear();
        self.undo_stack.push(state);
        self.undo_index = self.undo_stack.len();

        let max = self.settings.max_undo_history as usize;
        let ghost pushed = self.undo_stack@;
        if self.undo_stack.len() > max {
            let remove = self.undo_stack.len() - max;
            let mut n: usize = 0;
            while n < remove
                invariant
                    0 <= n <= remove,
                    self.undo_stack@ == pushed.skip(n as int),
                    remove == pushed.len() - max,
                    max >= 1,
                    self.redo_stack@.len() == 0,
                    self.settings == old(self).settings,
                    self.id == old(self).id,
                    self.path == old(self).path,
                    self.metadata == old(self).metadata,
                    self.state == old(self).state,
                    self.last_autosave == old(self).last_autosave,
                    self.asset_paths == old(self).asset_paths,
                    self.linked_projects == old(self).linked_projects,
                decreases remove - n,
            {
                self.undo_stack.remove(0);
                proof {
                    assert(self.undo_stack@ =~= pushed.skip(n + 1));
                }
                n = n + 1;
            }
            self.undo_index = self.undo_stack.len();
        }
        self.mark_modified();
    }

    /// Pops a snapshot for undo: the undo position steps down, the
    /// snapshot there is copied to the redo stack and returned. Returns
    /// `None`, changing nothing, at the bottom of the history.
    pub fn pop_undo_state(&mut self) -> (r: Option<Vec<u8>>)
        ensures
            old(self).undo_index == 0 ==> r is None && *final(self) == *old(self),
            old(self).undo_index > 0 && old(self).undo_index <= old(self).undo_stack@.len() ==> ({
                let s = old(self).undo_stack@[old(self).undo_index - 1];
                &&& r is Some
                &&& r->0@ == s@
                &&& final(self).undo_index == old(self).undo_index - 1
                &&& final(self).undo_stack@ == old(self).undo_stack@
                &&& final(self).redo_stack@.len() == old(self).redo_stack@.len() + 1
                &&& final(self).redo_stack@.last()@ == s@
            }),
            old(self).undo_index > old(self).undo_stack@.len() ==> r is None && final(self).undo_index == old(self).undo_index - 1,
    {
        if self.undo_index > 0 {
            self.undo_index = self.undo_index - 1;
            if self.undo_index < self.undo_stack.len() {
                let state = self.undo_stack[self.undo_index].clone();
                let copy = clone_bytes(&state);
                self.redo_stack.push(copy);
                return Some(state);
            }
            return None;
        }
        None
    }

    /// Pops a snapshot for redo: the top of the redo stack is returned
    /// and the undo position steps back up while below the top of the
    /// undo stack. Returns `None`, changing nothing, with an empty redo
    /// stack.
    pub fn pop_redo_state(&mut self) -> (r: Option<Vec<u8>>)
        ensures
            old(self).redo_stack@.len() == 0 ==> r is None && *final(self) == *old(self),
            old(self).redo_stack@.len() > 0 ==> ({
                &&& r is Some
                &&& r->0 == old(self).redo_stack@.last()
                &&& final(self).redo_stack@ == old(self).redo_stack@.drop_last()
                &&& final(self).undo_stack@ == old(self).undo_stack@
                &&& final(self).undo_index == (if old(self).undo_index < old(self).undo_stack@.len() {
                    old(self).undo_index + 1
                } else {
                    old(self).undo_index as int
                })
            }),
    {
        if self.redo_stack.len() == 0 {
            return None;
        }
        match self.redo_stack.pop() {
            Some(state) => {
                if self.undo_index < self.undo_stack.len() {
                    self.undo_index = self.undo_index + 1;
                }
                Some(state)
            },
            None => None,
        }
    }

    /// Clears the undo and redo history.
    pub fn clear_history(&mut self)
        ensures
            final(self).undo_stack@.len() == 0,
            final(self).redo_stack@.len() == 0,
            final(self).undo_index == 0,
            final(self).id == old(self).id,
            final(self).state == old(self).state,
    {
        self.undo_stack.clear();
        self.redo_stack.clear();
        self.undo_index = 0;
    }

    /// Adds an asset path unless an identical one is present.
    pub fn add_asset_path(&mut self, path: String)
        ensures
            (exists|i: int|
                0 <= i < old(self).asset_paths@.len() && (#[trigger] old(self).asset_paths@[i])@
                    == path@) ==> *final(self) == *old(self),
            (forall|i: int|
                0 <= i < old(self).asset_paths@.len() ==> (#[trigger] old(self).asset_paths@[i])@
                    != path@) ==> final(self).asset_paths@ == old(self).asset_paths@.push(path)
                && *final(self) == (Project { asset_paths: final(self).asset_paths, ..*old(self) }),
    {
        let mut i: usize = 0;
        while i < self.asset_paths.len()
            invariant
                0 <= i <= self.asset_paths@.len(),
                forall|k: int| 0 <= k < i ==> (#[trigger] self.asset_paths@[k])@ != path@,
                self == old(self),
            decreases self.asset_paths@.len() - i,
        {
            if str_eq(self.asset_paths[i].as_str(), path.as_str()) {
                return ;
            }
            i = i + 1;
        }
        self.asset_paths.push(path);
    }

    /// Removes the first asset path reading like the given text; returns
    /// whether one was removed.
    pub fn remove_asset_path(&mut self, path: &str) -> (r: bool)
        ensures
            !r ==> *final(self) == *old(self) && forall|i: int|
                0 <= i < old(self).asset_paths@.len() ==> (#[trigger] old(self).asset_paths@[i])@
                    != path@,
            r ==> exists|k: int|
                0 <= k < old(self).asset_paths@.len() && (#[trigger] old(self).asset_paths@[k])@
                    == path@ && final(self).asset_paths@ == old(self).asset_paths@.remove(k),
    {
        let mut i: usize = 0;
        while i < self.asset_paths.len()
            invariant
                0 <= i <= self.asset_paths@.len(),
                forall|k: int| 0 <= k < i ==> (#[trigger] self.asset_paths@[k])@ != path@,
                self == old(self),
            decreases self.asset_paths@.len() - i,
        {
            if str_eq(self.asset_paths[i].as_str(), path) {
                self.asset_paths.remove(i);
                return true;
            }
            i = i + 1;
        }
        false
    }

    /// Records an autosave at the given path, timestamped from the clock.
    pub fn record_autosave(&mut self, path: String)
        ensures
            final(self).last_autosave is Some,
            final(self).last_autosave->0.path == path,
            !final(self).last_autosave->0.is_recovery,
            *final(self) == (Project { last_autosave: final(self).last_autosave, ..*old(self) }),
    {
        self.last_autosave = Some(
            AutosaveInfo { path, timestamp: Timestamp::now(), is_recovery: false },
        );
    }
}

/// Copies a byte vector, preserving its contents.
fn clone_bytes(v: &Vec<u8>) -> (r: Vec<u8>)
    ensures
        r@ == v@,
{
    let mut out: Vec<u8> = Vec::new();
    let mut i: usize = 0;
    while i < v.len()
        invariant
            0 <= i <= v@.len(),
            out@ == v@.take(i as int),
        decreases v@.len() - i,
    {
        out.push(v[i]);
        proof {
            assert(out@ =~= v@.take(i + 1));
        }
        i = i + 1;
    }
    proof {
        assert(v@.take(v@.len() as int) =~= v@);
    }
    out
}

/// Recent file entry.
#[derive(Debug, Clone)]
pub struct RecentFile {
    /// File path.
    pub path: String,
    /// Project name.
    pub name: String,
    /// Last opened timestamp.
    pub last_opened: Timestamp,
    /// Whether the file exists.
    pub exists_on_disk: bool,
    /// Thumbnail path, if available.
    pub thumbnail: Option<String>,
}

/// Project template.
#[derive(Debug, Clone)]
pub struct ProjectTemplate {
    /// Template name.
    pub name: String,
    /// Template description.
    pub description: String,
    /// Template category.
    pub category: String,
    /// Project settings.
    pub settings: ProjectSettings,
    /// Preview image path, if any.
    pub preview: Option<String>,
    /// Whether this is a built-in template.
    pub builtin: bool,
}

impl ProjectTemplate {
    /// The built-in Full HD template.
    pub fn hd_1080p() -> (r: Self)
        ensures
            r.name@ == "HD 1080p"@,
            r.settings.timeline_width == 1920,
            r.settings.timeline_height == 1080,
            r.builtin,
    {
        ProjectTemplate {
            name: String::from_str("HD 1080p"),
            description: String::from_str("Standard 1920x1080 HD project"),
            category: String::from_str("Video"),
            settings: ProjectSettings::default(),
            preview: None,
            builtin: true,
        }
    }

    /// The built-in 4K template.
    pub fn uhd_4k() -> (r: Self)
        ensures
            r.name@ == "4K UHD"@,
            r.settings.timeline_width == 3840,
            r.settings.timeline_height == 2160,
            r.builtin,
    {
        ProjectTemplate {
            name: String::from_str("4K UHD"),
            description: String::from_str("3840x2160 Ultra HD project"),
            category: String::from_str("Video"),
            settings: ProjectSettings::uhd_4k(),
            preview: None,
            builtin: true,
        }
    }

    /// The built-in 24 fps film template.
    pub fn film_24p() -> (r: Self)
        ensures
            r.name@ == "Film 24fps"@,
            r.settings.frame_rate_num == 24,
            r.builtin,
    {
        ProjectTemplate {
            name: String::from_str("Film 24fps"),
            description: String::from_str("Cinema-style 24fps project"),
            category: String::from_str("Film"),
            settings: ProjectSettings::film(),
            preview: None,
            builtin: true,
        }
    }

    /// The built-in square social media template.
    pub fn social_square() -> (r: Self)
        ensures
            r.name@ == "Social Square"@,
            r.settings.timeline_width == 1080,
            r.settings.timeline_height == 1080,
            r.builtin,
    {
        ProjectTemplate {
            name: String::from_str("Social Square"),
            description: String::from_str("1080x1080 square format for social media"),
            category: String::from_str("Social"),
            settings: ProjectSettings {
                timeline_width: 1080,
                timeline_height: 1080,
                ..ProjectSettings::default()
            },
            preview: None,
            builtin: true,
        }
    }

    /// The built-in vertical social media template.
    pub fn social_vertical() -> (r: Self)
        ensures
            r.name@ == "Social Vertical"@,
            r.settings.timeline_width == 1080,
            r.settings.timeline_height == 1920,
            r.builtin,
    {
        ProjectTemplate {
            name: String::from_str("Social Vertical"),
            description: String::from_str("1080x1920 vertical format for stories/reels"),
            category: String::from_str("Social"),
            settings: ProjectSettings {
                timeline_width: 1080,
                timeline_height: 1920,
                ..ProjectSettings::default()
            },
            preview: None,
            builtin: true,
        }
    }
}

/// Manager for project operations: one current project, recent files,
/// templates and autosave scheduling.
pub struct ProjectManager {
    /// Current project, if one is open.
    pub current_project: Option<Project>,
    /// Recent files, most recent first.
    pub recent_files: Vec<RecentFile>,
    /// Available templates.
    pub templates: Vec<ProjectTemplate>,
    /// Next project id.
    pub next_id: u64,
    /// Maximum number of recent files kept.
    pub max_recent: usize,
    /// Autosave enabled.
    pub autosave_enabled: bool,
    /// Last autosave check time.
    pub last_autosave_check: Option<Timestamp>,
}

impl ProjectManager {
    /// Creates a manager with no open project, the five built-in
    /// templates and room for twenty recent files.
    pub fn new() -> (r: Self)
        ensures
            r.current_project is None,
            r.recent_files@.len() == 0,
            r.templates@.len() == 5,
            r.next_id == 1,
            r.max_recent == 20,
            r.autosave_enabled,
            r.last_autosave_check is None,
    {
        let mut templates: Vec<ProjectTemplate> = Vec::new();
        templates.push(ProjectTemplate::hd_1080p());
        templates.push(ProjectTemplate::uhd_4k());
        templates.push(ProjectTemplate::film_24p());
        templates.push(ProjectTemplate::social_square());
        templates.push(ProjectTemplate::social_vertical());
        ProjectManager {
            current_project: None,
            recent_files: Vec::new(),
            templates,
            next_id: 1,
            max_recent: 20,
            autosave_enabled: true,
            last_autosave_check: None,
        }
    }

    /// Opens a fresh project under the given name and a fresh id,
    /// replacing the current one; refused with an IO error, changing
    /// nothing, while the current project has unsaved changes.
    pub fn new_project(&mut self, name: String) -> (r: VideoEditorResult<ProjectId>)
        requires
            old(self).next_id < u64::MAX,
        ensures
            r is Err <==> old(self).current_project is Some && (old(self).current_project->0.state is Modified || old(self).current_project->0.state is New),
            r is Err ==> *final(self) == *old(self),
            r is Ok ==> r->Ok_0.0 == old(self).next_id && final(self).next_id == old(self).next_id
                + 1 && final(self).current_project is Some && ({
                let p = final(self).current_project->0;
                &&& p.id == r->Ok_0
                &&& p.metadata.name == name
                &&& p.state is New
                &&& p.undo_stack@.len() == 0
            }) && final(self).recent_files@ == old(self).recent_files@,
    {
        match &self.current_project {
            Some(project) => {
                if project.has_unsaved_changes() {
                    return Err(
                        VideoEditorError::Io(
                            String::from_str("Current project has unsaved changes"),
                        ),
                    );
                }
            },
            None => {},
        }
        let id = ProjectId::new(self.next_id);
        self.next_id = self.next_id + 1;
        self.current_project = Some(Project::new(id, name));
        Ok(id)
    }

    /// Opens a fresh project from a named template, copying its settings;
    /// an unknown template name is refused with an IO error, and unsaved
    /// changes in the current project are refused likewise, changing
    /// nothing either way.
    pub fn new_from_template(&mut self, template_name: &str, project_name: String) -> (r:
        VideoEditorResult<ProjectId>)
        requires
            old(self).next_id < u64::MAX,
        ensures
            r is Err ==> *final(self) == *old(self),
            r is Ok ==> r->Ok_0.0 == old(self).next_id && final(self).next_id == old(self).next_id
                + 1 && final(self).current_project is Some && exists|k: int|
                #![trigger old(self).templates@[k]]
                0 <= k < old(self).templates@.len() && old(self).templates@[k].name@
                    == template_name@ && ({
                    let p = final(self).current_project->0;
                    &&& p.id == r->Ok_0
                    &&& p.metadata.name == project_name
                    &&& p.state is New
                    &&& p.settings == old(self).templates@[k].settings
                }),
    {
        let mut found: Option<usize> = None;
        let mut i: usize = 0;
        while i < self.templates.len()
            invariant
                0 <= i <= self.templates@.len(),
                found is None ==> forall|k: int|
                    0 <= k < i ==> (#[trigger] self.templates@[k]).name@ != template_name@,
                found is Some ==> 0 <= found->0 < self.templates@.len() && self.templates@[
                    found->0 as int
                ].name@ == template_name@,
                self == old(self),
                old(self).next_id < u64::MAX,
            decreases self.templates@.len() - i,
        {
            if str_eq(self.templates[i].name.as_str(), template_name) {
                found = Some(i);
                break ;
            }
            i = i + 1;
        }
        let k = match found {
            Some(k) => k,
            None => {
                return Err(VideoEditorError::Io(String::from_str("Template not found")));
            },
        };
        match &self.current_project {
            Some(project) => {
                if project.has_unsaved_changes() {
                    return Err(
                        VideoEditorError::Io(
                            String::from_str("Current project has unsaved changes"),
                        ),
                    );
                }
            },
            None => {},
        }
        let id = ProjectId::new(self.next_id);
        self.next_id = self.next_id + 1;
        let mut project = Project::new(id, project_name);
        project.settings = self.templates[k].settings.clone();
        proof {
            assert(old(self).templates@[k as int].name@ == template_name@);
        }
        self.current_project = Some(project);
        Ok(id)
    }

    /// Returns the current project, if one is open.
    pub fn current_project(&self) -> (r: Option<&Project>)
        ensures
            r is Some <==> self.current_project is Some,
            r is Some ==> *r->0 == self.current_project->0,
    {
        match &self.current_project {
            Some(p) => Some(p),
            None => None,
        }
    }

    /// Returns mutable access to the current project, if one is open.
    pub fn current_project_mut(&mut self) -> (r: Option<&mut Project>)
        ensures
            r is None ==> *final(self) == *old(self) && old(self).current_project is None,
            r is Some ==> old(self).current_project is Some && *r->0 == old(self).current_project->0 && final(self).current_project == Some(*final(r->0)) && final(self).next_id == old(self).next_id && final(self).recent_files == old(self).recent_files,
    {
        match &mut self.current_project {
            Some(p) => Some(p),
            None => None,
        }
    }

    /// Closes the current project; refused with an IO error, changing
    /// nothing, while it has unsaved changes.
    pub fn close_project(&mut self) -> (r: VideoEditorResult<()>)
        ensures
            r is Err <==> old(self).current_project is Some && (old(self).current_project->0.state is Modified || old(self).current_project->0.state is New),
            r is Err ==> *final(self) == *old(self),
            r is Ok ==> final(self).current_project is None && final(self).next_id == old(self).next_id && final(self).recent_files == old(self).recent_files,
    {
        match &self.current_project {
            Some(project) => {
                if project.has_unsaved_changes() {
                    return Err(
                        VideoEditorError::Io(String::from_str("Project has unsaved changes")),
                    );
                }
            },
            None => {},
        }
        self.current_project = None;
        Ok(())
    }

    /// Records a file at the front of the recent list: an entry with the
    /// same path is dropped first, and the list is trimmed to its
    /// maximum.
    pub fn add_recent(&mut self, path: String, name: String)
        requires
            old(self).max_recent >= 1,
        ensures
            final(self).recent_files@.len() >= 1,
            final(self).recent_files@.len() <= old(self).max_recent,
            final(self).recent_files@[0].path@ == path@,
            final(self).recent_files@[0].name == name,
            final(self).current_project == old(self).current_project,
            final(self).next_id == old(self).next_id,
    {
        let mut j: usize = 0;
        while j < self.recent_files.len()
            invariant
                0 <= j <= self.recent_files@.len(),
                self.current_project == old(self).current_project,
                self.next_id == old(self).next_id,
                self.max_recent == old(self).max_recent,
            decreases self.recent_files@.len() - j,
        {
            if str_eq(self.recent_files[j].path.as_str(), path.as_str()) {
                self.recent_files.remove(j);
            } else {
                j = j + 1;
            }
        }
        let entry = RecentFile {
            path,
            name,
            last_opened: Timestamp::now(),
            exists_on_disk: true,
            thumbnail: None,
        };
        self.recent_files.insert(0, entry);
        while self.recent_files.len() > self.max_recent
            invariant
                self.max_recent >= 1,
                self.recent_files@.len() >= 1,
                self.recent_files@[0].path@ == entry.path@,
                self.recent_files@[0].name == entry.name,
                self.current_project == old(self).current_project,
                self.next_id == old(self).next_id,
                self.max_recent == old(self).max_recent,
            decreases self.recent_files@.len(),
        {
            let last = self.recent_files.len() - 1;
            self.recent_files.remove(last);
        }
    }

    /// Returns the recent files, most recent first.
    pub fn recent_files(&self) -> (r: &Vec<RecentFile>)
        ensures
            r@ == self.recent_files@,
    {
        &self.recent_files
    }

    /// Clears the recent files.
    pub fn clear_recent(&mut self)
        ensures
            final(self).recent_files@.len() == 0,
            final(self).current_project == old(self).current_project,
            final(self).next_id == old(self).next_id,
    {
        self.recent_files.clear();
    }

    /// Returns the available templates.
    pub fn templates(&self) -> (r: &Vec<ProjectTemplate>)
        ensures
            r@ == self.templates@,
    {
        &self.templates
    }

    /// Adds a custom template.
    pub fn add_template(&mut self, template: ProjectTemplate)
        ensures
            final(self).templates@ == old(self).templates@.push(template),
            final(self).current_project == old(self).current_project,
            final(self).next_id == old(self).next_id,
    {
        self.templates.push(template);
    }

    /// An autosave is due when autosave is on, a project with unsaved
    /// changes is open, its interval is nonzero, and either no check was
    /// recorded yet or at least the interval has passed since the last
    /// check. The clock is read for the comparison; of its value nothing
    /// is assumed, so the result with a recorded check is reported as it
    /// came out.
    pub fn needs_autosave(&self) -> (r: bool)
        ensures
            !self.autosave_enabled ==> !r,
            self.current_project is None ==> !r,
            self.current_project is Some && !(self.current_project->0.state is Modified
                || self.current_project->0.state is New) ==> !r,
            (self.autosave_enabled && self.current_project is Some && (
            self.current_project->0.state is Modified || self.current_project->0.state is New)
                && self.current_project->0.settings.autosave_interval != 0
                && self.last_autosave_check is None) ==> r,
            self.current_project is Some && self.current_project->0.settings.autosave_interval == 0
                ==> !r,
    {
        if !self.autosave_enabled {
            return false;
        }
        let project = match &self.current_project {
            Some(p) => p,
            None => {
                return false;
            },
        };
        if !project.has_unsaved_changes() {
            return false;
        }
        let interval = project.settings.autosave_interval;
        if interval == 0 {
            return false;
        }
        let last_check = match self.last_autosave_check {
            Some(t) => t,
            None => {
                return true;
            },
        };
        let elapsed = Timestamp::now().elapsed_since(last_check).as_secs();
        elapsed >= interval as u64
    }

    /// Records the current time as the last autosave check.
    pub fn update_autosave_check(&mut self)
        ensures
            final(self).last_autosave_check is Some,
            final(self).current_project == old(self).current_project,
            final(self).next_id == old(self).next_id,
            final(self).recent_files == old(self).recent_files,
    {
        self.last_autosave_check = Some(Timestamp::now());
    }

    /// Enables or disables autosave.
    pub fn set_autosave_enabled(&mut self, enabled: bool)
        ensures
            final(self).autosave_enabled == enabled,
            final(self).current_project == old(self).current_project,
            final(self).next_id == old(self).next_id,
    {
        self.autosave_enabled = enabled;
    }
}

impl Default for ProjectManager {
    /// The default manager has no open project.
    fn default() -> (r: Self)
        ensures
            r.current_project is None,
            r.next_id == 1,
    {
        ProjectManager::new()
    }
}

} // verus!
