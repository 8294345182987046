//! Asset library for managing imported media files.

use crate::clip::{AudioClip, VideoClip};
use crate::core_types::{AudioFormat, FrameRate, Resolution, TimelinePosition, VideoFormat};
use crate::errors::{VideoEditorError, VideoEditorResult};
use vstd::prelude::*;

verus! {

/// Media asset library, handing out fresh clip ids from its own counter.
pub struct AssetLibrary {
    video_clips: Vec<VideoClip>,
    audio_clips: Vec<AudioClip>,
    next_clip_id: u64,
}

impl AssetLibrary {
    /// The imported video clips.
    pub closed spec fn spec_video_clips(self) -> Seq<VideoClip> {
        self.video_clips@
    }

    /// The imported audio clips.
    pub closed spec fn spec_audio_clips(self) -> Seq<AudioClip> {
        self.audio_clips@
    }

    /// The next clip id to be handed out.
    pub closed spec fn spec_next_clip_id(self) -> u64 {
        self.next_clip_id
    }

    /// Creates an empty library.
    pub fn new() -> (r: Self)
        ensures
            r.spec_video_clips().len() == 0,
            r.spec_audio_clips().len() == 0,
            r.spec_next_clip_id() == 1,
    {
        AssetLibrary { video_clips: Vec::new(), audio_clips: Vec::new(), next_clip_id: 1 }
    }

    /// Imports a video file: an empty path is rejected with an asset
    /// error; otherwise a placeholder Full HD, 30 fps, ten-second H.264
    /// clip for the path is added under a fresh id, which is returned.
    pub fn import_video(&mut self, path: &str) -> (r: VideoEditorResult<u64>)
        requires
            old(self).spec_next_clip_id() < u64::MAX,
        ensures
            path@.len() == 0 <==> r is Err,
            r is Err ==> *final(self) == *old(self),
            r is Ok ==> r->Ok_0 == old(self).spec_next_clip_id() && final(self).spec_next_clip_id()
                == old(self).spec_next_clip_id() + 1 && final(self).spec_video_clips() == old(
                self,
            ).spec_video_clips().push(final(self).spec_video_clips().last()) && ({
                let c = final(self).spec_video_clips().last();
                &&& c.id == r->Ok_0
                &&& c.path@ == path@
                &&& c.resolution == (Resolution { width: 1920u32, height: 1080u32 })
                &&& c.frame_rate == (FrameRate { numerator: 30u32, denominator: 1u32 })
                &&& c.duration.ms == 10000
                &&& c.format is H264
            }) && final(self).spec_audio_clips() == old(self).spec_audio_clips(),
    {
        if path.is_empty() {
            return Err(VideoEditorError::Asset(String::from_str("Path cannot be empty")));
        }
        let id = self.next_clip_id;
        self.next_clip_id = self.next_clip_id + 1;

        let clip = VideoClip::new(id, path.to_owned()).with_resolution(
            Resolution::fhd(),
        ).with_frame_rate(FrameRate::fps_30()).with_duration(
            TimelinePosition::from_ms(10000),
        ).with_format(VideoFormat::H264);
        self.video_clips.push(clip);
        Ok(id)
    }

    /// Imports an audio file: an empty path is rejected with an asset
    /// error; otherwise a placeholder 48 kHz stereo, ten-second AAC clip
    /// for the path is added under a fresh id, which is returned.
    pub fn import_audio(&mut self, path: &str) -> (r: VideoEditorResult<u64>)
        requires
            old(self).spec_next_clip_id() < u64::MAX,
        ensures
            path@.len() == 0 <==> r is Err,
            r is Err ==> *final(self) == *old(self),
            r is Ok ==> r->Ok_0 == old(self).spec_next_clip_id() && final(self).spec_next_clip_id()
                == old(self).spec_next_clip_id() + 1 && final(self).spec_audio_clips() == old(
                self,
            ).spec_audio_clips().push(final(self).spec_audio_clips().last()) && ({
                let c = final(self).spec_audio_clips().last();
                &&& c.id == r->Ok_0
                &&& c.path@ == path@
                &&& c.sample_rate == 48000
                &&& c.channels == 2
                &&& c.duration.ms == 10000
                &&& c.format is AAC
            }) && final(self).spec_video_clips() == old(self).spec_video_clips(),
    {
        if path.is_empty() {
            return Err(VideoEditorError::Asset(String::from_str("Path cannot be empty")));
        }
        let id = self.next_clip_id;
        self.next_clip_id = self.next_clip_id + 1;

        let clip = AudioClip::new(id, path.to_owned()).with_sample_rate(48000).with_channels(
            2,
        ).with_duration(TimelinePosition::from_ms(10000)).with_format(AudioFormat::AAC);
        self.audio_clips.push(clip);
        Ok(id)
    }

    /// Returns all video clips.
    pub fn video_clips(&self) -> (r: &Vec<VideoClip>)
        ensures
            r@ == self.spec_video_clips(),
    {
        &self.video_clips
    }

    /// Returns all audio clips.
    pub fn audio_clips(&self) -> (r: &Vec<AudioClip>)
        ensures
            r@ == self.spec_audio_clips(),
    {
        &self.audio_clips
    }
}

impl Default for AssetLibrary {
    /// The default library is empty.
    fn default() -> (r: Self)
        ensures
            r.spec_video_clips().len() == 0,
            r.spec_audio_clips().len() == 0,
            r.spec_next_clip_id() == 1,
    {
        AssetLibrary::new()
    }
}

} // verus!
