//! Media clip types: video and audio assets with metadata.

use crate::core_types::{AudioFormat, FrameRate, Resolution, TimePosition, VideoFormat};
use vstd::prelude::*;

verus! {

/// Clip loading state.
#[derive(Debug, Clone, Copy, PartialEq, Eq, Structural, Hash)]
pub enum ClipState {
    /// Clip is unloaded.
    Unloaded,
    /// Clip is loading.
    Loading,
    /// Clip is ready for playback.
    Ready,
    /// Clip has an error.
    Error,
    /// Clip is being processed.
    Processing,
}

impl Default for ClipState {
    /// The default clip state is unloaded.
    fn default() -> (r: Self)
        ensures
            r is Unloaded,
    {
        ClipState::Unloaded
    }
}

/// Common clip metadata.
#[derive(Debug, Clone)]
pub struct ClipMetadata {
    /// Clip title.
    pub title: String,
    /// Clip description.
    pub description: String,
    /// Creation timestamp.
    pub created: Option<u64>,
    /// Modification timestamp.
    pub modified: Option<u64>,
    /// Tags for organization.
    pub tags: Vec<String>,
    /// Custom metadata fields.
    pub custom: Vec<(String, String)>,
}

impl ClipMetadata {
    /// Creates empty metadata.
    pub fn empty() -> (r: Self)
        ensures
            r.title@.len() == 0,
            r.description@.len() == 0,
            r.created is None,
            r.modified is None,
            r.tags@.len() == 0,
            r.custom@.len() == 0,
    {
        ClipMetadata {
            title: String::new(),
            description: String::new(),
            created: None,
            modified: None,
            tags: Vec::new(),
            custom: Vec::new(),
        }
    }

    /// Sets the title, keeping everything else.
    pub fn with_title(self, title: String) -> (r: Self)
        ensures
            r == (ClipMetadata { title, ..self }),
    {
        ClipMetadata { title, ..self }
    }

    /// Appends a tag.
    pub fn add_tag(&mut self, tag: String)
        ensures
            final(self).tags@ == old(self).tags@.push(tag),
            *final(self) == (ClipMetadata { tags: final(self).tags, ..*old(self) }),
    {
        self.tags.push(tag);
    }

    /// Appends a custom metadata field.
    pub fn add_custom(&mut self, key: String, value: String)
        ensures
            final(self).custom@ == old(self).custom@.push((key, value)),
            *final(self) == (ClipMetadata { custom: final(self).custom, ..*old(self) }),
    {
        self.custom.push((key, value));
    }
}

impl Default for ClipMetadata {
    /// The default metadata is empty.
    fn default() -> (r: Self)
        ensures
            r.title@.len() == 0,
            r.description@.len() == 0,
            r.created is None,
            r.modified is None,
            r.tags@.len() == 0,
            r.custom@.len() == 0,
    {
        ClipMetadata::empty()
    }
}

/// A video media asset.
#[derive(Debug, Clone)]
pub struct VideoClip {
    /// Unique clip id.
    pub id: u64,
    /// File path or URI.
    pub path: String,
    /// Video resolution.
    pub resolution: Resolution,
    /// Frame rate.
    pub frame_rate: FrameRate,
    /// Total duration.
    pub duration: TimePosition,
    /// Video codec format.
    pub format: VideoFormat,
    /// Clip state.
    pub state: ClipState,
    /// Clip metadata.
    pub metadata: ClipMetadata,
    /// Has an audio track.
    pub has_audio: bool,
    /// Number of frames.
    pub frame_count: u64,
}

impl VideoClip {
    /// Creates a new unloaded clip with default format settings.
    pub fn new(id: u64, path: String) -> (r: Self)
        ensures
            r.id == id,
            r.path == path,
            r.resolution == (Resolution { width: 1920u32, height: 1080u32 }),
            r.frame_rate == (FrameRate { numerator: 30u32, denominator: 1u32 }),
            r.duration.ms == 0,
            r.format is H264,
            r.state is Unloaded,
            !r.has_audio,
            r.frame_count == 0,
    {
        VideoClip {
            id,
            path,
            resolution: Resolution::default(),
            frame_rate: FrameRate::default(),
            duration: TimePosition::default(),
            format: VideoFormat::default(),
            state: ClipState::Unloaded,
            metadata: ClipMetadata::default(),
            has_audio: false,
            frame_count: 0,
        }
    }

    /// Sets the resolution.
    pub fn with_resolution(self, resolution: Resolution) -> (r: Self)
        ensures
            r == (VideoClip { resolution, ..self }),
    {
        VideoClip { resolution, ..self }
    }

    /// Sets the frame rate.
    pub fn with_frame_rate(self, frame_rate: FrameRate) -> (r: Self)
        ensures
            r == (VideoClip { frame_rate, ..self }),
    {
        VideoClip { frame_rate, ..self }
    }

    /// Sets the duration and recomputes the frame count from it at the
    /// clip's frame rate.
    pub fn with_duration(self, duration: TimePosition) -> (r: Self)
        requires
            duration.ms * self.frame_rate.numerator <= u64::MAX,
        ensures
            r.duration == duration,
            self.frame_rate.denominator == 0 ==> r.frame_count == 0,
            self.frame_rate.denominator != 0 ==> r.frame_count == duration.ms
                * self.frame_rate.numerator / (self.frame_rate.denominator * 1000),
            r == (VideoClip { duration, frame_count: r.frame_count, ..self }),
    {
        let frame_count = duration.to_frame(&self.frame_rate);
        VideoClip { duration, frame_count, ..self }
    }

    /// Sets the format.
    pub fn with_format(self, format: VideoFormat) -> (r: Self)
        ensures
            r == (VideoClip { format, ..self }),
    {
        VideoClip { format, ..self }
    }

    /// Returns whether the clip is ready for playback.
    pub fn is_ready(&self) -> (r: bool)
        ensures
            r == (self.state is Ready),
    {
        matches!(self.state, ClipState::Ready)
    }

    /// Returns the frame number at a position, at the clip's frame rate.
    pub fn frame_at(&self, position: TimePosition) -> (r: u64)
        requires
            position.ms * self.frame_rate.numerator <= u64::MAX,
        ensures
            self.frame_rate.denominator == 0 ==> r == 0,
            self.frame_rate.denominator != 0 ==> r == position.ms * self.frame_rate.numerator / (
            self.frame_rate.denominator * 1000),
    {
        position.to_frame(&self.frame_rate)
    }
}

/// An audio media asset.
#[derive(Debug, Clone)]
pub struct AudioClip {
    /// Unique clip id.
    pub id: u64,
    /// File path or URI.
    pub path: String,
    /// Sample rate in Hz.
    pub sample_rate: u32,
    /// Number of channels.
    pub channels: u8,
    /// Total duration.
    pub duration: TimePosition,
    /// Audio codec format.
    pub format: AudioFormat,
    /// Clip state.
    pub state: ClipState,
    /// Clip metadata.
    pub metadata: ClipMetadata,
    /// Bit depth.
    pub bit_depth: u8,
    /// Total sample count.
    pub sample_count: u64,
}

impl AudioClip {
    /// Creates a new unloaded clip at 48 kHz stereo, 16 bits.
    pub fn new(id: u64, path: String) -> (r: Self)
        ensures
            r.id == id,
            r.path == path,
            r.sample_rate == 48000,
            r.channels == 2,
            r.duration.ms == 0,
            r.format is AAC,
            r.state is Unloaded,
            r.bit_depth == 16,
            r.sample_count == 0,
    {
        AudioClip {
            id,
            path,
            sample_rate: 48000,
            channels: 2,
            duration: TimePosition::default(),
            format: AudioFormat::default(),
            state: ClipState::Unloaded,
            metadata: ClipMetadata::default(),
            bit_depth: 16,
            sample_count: 0,
        }
    }

    /// Sets the sample rate.
    pub fn with_sample_rate(self, sample_rate: u32) -> (r: Self)
        ensures
            r == (AudioClip { sample_rate, ..self }),
    {
        AudioClip { sample_rate, ..self }
    }

    /// Sets the number of channels.
    pub fn with_channels(self, channels: u8) -> (r: Self)
        ensures
            r == (AudioClip { channels, ..self }),
    {
        AudioClip { channels, ..self }
    }

    /// Sets the duration and recomputes the sample count from it at the
    /// clip's sample rate.
    pub fn with_duration(self, duration: TimePosition) -> (r: Self)
        requires
            duration.ms * self.sample_rate <= u64::MAX,
        ensures
            r.sample_count == duration.ms * self.sample_rate / 1000,
            r == (AudioClip { duration, sample_count: r.sample_count, ..self }),
    {
        let sample_count = (duration.ms * self.sample_rate as u64) / 1000;
        AudioClip { duration, sample_count, ..self }
    }

    /// Sets the format.
    pub fn with_format(self, format: AudioFormat) -> (r: Self)
        ensures
            r == (AudioClip { format, ..self }),
    {
        AudioClip { format, ..self }
    }

    /// Returns whether the clip is ready for playback.
    pub fn is_ready(&self) -> (r: bool)
        ensures
            r == (self.state is Ready),
    {
        matches!(self.state, ClipState::Ready)
    }

    /// Returns the sample number at a position, at the clip's sample rate.
    pub fn sample_at(&self, position: TimePosition) -> (r: u64)
        requires
            position.ms * self.sample_rate <= u64::MAX,
        ensures
            r == position.ms * self.sample_rate / 1000,
    {
        (position.ms * self.sample_rate as u64) / 1000
    }
}

} // verus!
