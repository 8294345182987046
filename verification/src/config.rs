//! Editor configuration.

use crate::core_types::{FrameRate, Resolution};
use vstd::prelude::*;

verus! {

/// Configuration for the video editor. The preview quality is stored in
/// thousandths (1000 = full quality).
#[derive(Debug, Clone, Copy, PartialEq, Eq, Structural)]
pub struct VideoEditorConfig {
    /// Maximum number of tracks.
    pub max_tracks: usize,
    /// Project resolution.
    pub resolution: Resolution,
    /// Project frame rate.
    pub frame_rate: FrameRate,
    /// Enable GPU acceleration.
    pub gpu_acceleration: bool,
    /// Preview quality in thousandths (0 to 1000).
    pub preview_quality_permille: u32,
    /// Auto-save interval in seconds (0 = disabled).
    pub auto_save_interval: u64,
}

impl Default for VideoEditorConfig {
    /// Default: 32 tracks, Full HD at 30 fps, GPU on, half preview
    /// quality, autosave every minute.
    fn default() -> (r: Self)
        ensures
            r == (VideoEditorConfig {
                max_tracks: 32usize,
                resolution: Resolution { width: 1920u32, height: 1080u32 },
                frame_rate: FrameRate { numerator: 30u32, denominator: 1u32 },
                gpu_acceleration: true,
                preview_quality_permille: 500u32,
                auto_save_interval: 60u64,
            }),
    {
        VideoEditorConfig {
            max_tracks: 32,
            resolution: Resolution::fhd(),
            frame_rate: FrameRate::fps_30(),
            gpu_acceleration: true,
            preview_quality_permille: 500,
            auto_save_interval: 60,
        }
    }
}

} // verus!
