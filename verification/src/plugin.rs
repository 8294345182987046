//! The editor's top-level aggregate: configuration, timeline, assets,
//! effects and the GPU handle.

use crate::assets::AssetLibrary;
use crate::config::VideoEditorConfig;
use crate::effects::EffectsPipeline;
use crate::gpu::GpuPipeline;
use crate::timeline::{TimelineManager, TrackType};
use vstd::prelude::*;

verus! {

/// Main video editor, owning one instance of each manager.
pub struct VideoEditorPlugin {
    config: VideoEditorConfig,
    timeline: TimelineManager,
    assets: AssetLibrary,
    effects: EffectsPipeline,
    gpu: GpuPipeline,
}

impl VideoEditorPlugin {
    /// The configuration.
    pub closed spec fn spec_config(self) -> VideoEditorConfig {
        self.config
    }

    /// The timeline manager.
    pub closed spec fn spec_timeline(self) -> TimelineManager {
        self.timeline
    }

    /// Creates a new editor with the given configuration, an empty
    /// timeline, library and effects chain, and the GPU handle set up per
    /// the configuration but not yet initialized.
    pub fn new(config: VideoEditorConfig) -> (r: Self)
        ensures
            r.spec_config() == config,
            r.spec_timeline().spec_tracks().len() == 0,
    {
        let gpu = GpuPipeline::new(config.gpu_acceleration);
        VideoEditorPlugin {
            config,
            timeline: TimelineManager::new(),
            assets: AssetLibrary::new(),
            effects: EffectsPipeline::new(),
            gpu,
        }
    }

    /// Initializes the GPU; returns whether a device is ready.
    pub fn initialize(&mut self) -> (r: bool)
        ensures
            final(self).spec_config() == old(self).spec_config(),
            final(self).spec_timeline() == old(self).spec_timeline(),
    {
        self.gpu.initialize()
    }

    /// Returns the configuration.
    pub fn config(&self) -> (r: &VideoEditorConfig)
        ensures
            *r == self.spec_config(),
    {
        &self.config
    }

    /// Returns the timeline manager.
    pub fn timeline(&self) -> (r: &TimelineManager)
        ensures
            *r == self.spec_timeline(),
    {
        &self.timeline
    }

    /// Returns mutable access to the timeline manager.
    pub fn timeline_mut(&mut self) -> (r: &mut TimelineManager)
        ensures
            *r == old(self).spec_timeline(),
            final(self).spec_timeline() == *final(r),
            final(self).spec_config() == old(self).spec_config(),
    {
        &mut self.timeline
    }

    /// Returns the asset library.
    pub fn assets(&self) -> (r: &AssetLibrary) {
        &self.assets
    }

    /// Returns mutable access to the asset library.
    pub fn assets_mut(&mut self) -> (r: &mut AssetLibrary)
        ensures
            final(self).spec_config() == old(self).spec_config(),
            final(self).spec_timeline() == old(self).spec_timeline(),
    {
        &mut self.assets
    }

    /// Returns the effects pipeline.
    pub fn effects(&self) -> (r: &EffectsPipeline) {
        &self.effects
    }

    /// Returns mutable access to the effects pipeline.
    pub fn effects_mut(&mut self) -> (r: &mut EffectsPipeline)
        ensures
            final(self).spec_config() == old(self).spec_config(),
            final(self).spec_timeline() == old(self).spec_timeline(),
    {
        &mut self.effects
    }

    /// Checks whether the GPU is available.
    pub fn gpu_available(&self) -> bool {
        self.gpu.is_available()
    }

    /// Starts a fresh project: timeline, assets and effects are reset, and
    /// one video track and one audio track are created.
    pub fn new_project(&mut self)
        ensures
            final(self).spec_config() == old(self).spec_config(),
            final(self).spec_timeline().spec_tracks().len() == 2,
            final(self).spec_timeline().spec_tracks()[0].track_type is Video,
            final(self).spec_timeline().spec_tracks()[1].track_type is Audio,
    {
        self.timeline = TimelineManager::new();
        self.assets = AssetLibrary::new();
        self.effects = EffectsPipeline::new();
        self.timeline.add_track(String::from_str("Video 1"), TrackType::Video);
        self.timeline.add_track(String::from_str("Audio 1"), TrackType::Audio);
    }
}

impl Default for VideoEditorPlugin {
    /// The default editor uses the default configuration.
    fn default() -> (r: Self)
        ensures
            r.spec_timeline().spec_tracks().len() == 0,
    {
        VideoEditorPlugin::new(VideoEditorConfig::default())
    }
}

} // verus!
