//! Export pipeline: container and codec settings, job state machine, and
//! the render queue.
//!
//! A job moves `Queued -> Preparing -> .. -> Completed`, with `Failed` and
//! `Cancelled` reachable from any non-terminal state. The queue starts the
//! highest-priority queued job (insertion order breaking ties), refuses to
//! start work past its concurrency cap, and never leaves its job list
//! partially mutated by a failed operation.

use crate::core_types::{FrameRate, Resolution, TimePosition, Timestamp};
use crate::errors::{VideoEditorError, VideoEditorResult};
use vstd::prelude::*;

verus! {

/// Unique identifier for an export job.
#[derive(Debug, Clone, Copy, PartialEq, Eq, Structural, Hash)]
pub struct ExportJobId(pub u64);

impl ExportJobId {
    /// Creates a new export job id.
    pub fn new(id: u64) -> (r: Self)
        ensures
            r.0 == id,
    {
        ExportJobId(id)
    }

    /// Returns the inner id value.
    pub fn inner(&self) -> (r: u64)
        ensures
            r == self.0,
    {
        self.0
    }
}

/// Video container format.
#[derive(Debug, Clone, Copy, PartialEq, Eq, Structural, Hash)]
pub enum ContainerFormat {
    /// MP4 (MPEG-4 Part 14).
    Mp4,
    /// MOV (QuickTime).
    Mov,
    /// MKV (Matroska).
    Mkv,
    /// WebM.
    WebM,
    /// AVI.
    Avi,
    /// MPEG Transport Stream.
    MpegTs,
    /// Raw video (no container).
    Raw,
}

impl ContainerFormat {
    /// Returns the file extension for this format.
    pub fn extension(&self) -> (r: &'static str)
        ensures
            self is Mp4 ==> r@ == "mp4"@,
            self is Mov ==> r@ == "mov"@,
            self is Mkv ==> r@ == "mkv"@,
            self is WebM ==> r@ == "webm"@,
            self is Avi ==> r@ == "avi"@,
            self is MpegTs ==> r@ == "ts"@,
            self is Raw ==> r@ == "raw"@,
    {
        match self {
            ContainerFormat::Mp4 => "mp4",
            ContainerFormat::Mov => "mov",
            ContainerFormat::Mkv => "mkv",
            ContainerFormat::WebM => "webm",
            ContainerFormat::Avi => "avi",
            ContainerFormat::MpegTs => "ts",
            ContainerFormat::Raw => "raw",
        }
    }

    /// Returns the MIME type for this format.
    pub fn mime_type(&self) -> (r: &'static str)
        ensures
            self is Mp4 ==> r@ == "video/mp4"@,
            self is Mov ==> r@ == "video/quicktime"@,
            self is Mkv ==> r@ == "video/x-matroska"@,
            self is WebM ==> r@ == "video/webm"@,
            self is Avi ==> r@ == "video/x-msvideo"@,
            self is MpegTs ==> r@ == "video/mp2t"@,
            self is Raw ==> r@ == "video/raw"@,
    {
        match self {
            ContainerFormat::Mp4 => "video/mp4",
            ContainerFormat::Mov => "video/quicktime",
            ContainerFormat::Mkv => "video/x-matroska",
            ContainerFormat::WebM => "video/webm",
            ContainerFormat::Avi => "video/x-msvideo",
            ContainerFormat::MpegTs => "video/mp2t",
            ContainerFormat::Raw => "video/raw",
        }
    }
}

impl Default for ContainerFormat {
    /// The default container is MP4.
    fn default() -> (r: Self)
        ensures
            r is Mp4,
    {
        ContainerFormat::Mp4
    }
}

/// ProRes profile variants.
#[derive(Debug, Clone, Copy, PartialEq, Eq, Structural, Hash)]
pub enum ProResProfile {
    /// ProRes 422 Proxy.
    Proxy,
    /// ProRes 422 LT.
    Lt,
    /// ProRes 422.
    Standard,
    /// ProRes 422 HQ.
    Hq,
    /// ProRes 4444.
    FourFour,
    /// ProRes 4444 XQ.
    FourFourXq,
}

impl Default for ProResProfile {
    /// The default ProRes profile is 422 standard.
    fn default() -> (r: Self)
        ensures
            r is Standard,
    {
        ProResProfile::Standard
    }
}

/// DNxHD/DNxHR profile.
#[derive(Debug, Clone, Copy, PartialEq, Eq, Structural, Hash)]
pub enum DnxProfile {
    /// DNxHD 36 (proxy).
    Dnx36,
    /// DNxHD 145/220 (standard).
    Dnx145,
    /// DNxHR SQ.
    DnxHrSq,
    /// DNxHR HQ.
    DnxHrHq,
    /// DNxHR HQX.
    DnxHrHqx,
    /// DNxHR 444.
    DnxHr444,
}

impl Default for DnxProfile {
    /// The default DNx profile is DNxHD 145.
    fn default() -> (r: Self)
        ensures
            r is Dnx145,
    {
        DnxProfile::Dnx145
    }
}

/// Video codec for encoding.
#[derive(Debug, Clone, Copy, PartialEq, Eq, Structural, Hash)]
pub enum VideoCodec {
    /// H.264/AVC.
    H264,
    /// H.265/HEVC.
    H265,
    /// VP8.
    Vp8,
    /// VP9.
    Vp9,
    /// AV1.
    Av1,
    /// ProRes with a profile.
    ProRes(ProResProfile),
    /// DNxHD/DNxHR with a profile.
    DnxHd(DnxProfile),
    /// Uncompressed.
    Uncompressed,
}

impl Default for VideoCodec {
    /// The default video codec is H.264.
    fn default() -> (r: Self)
        ensures
            r is H264,
    {
        VideoCodec::H264
    }
}

/// Audio codec for encoding.
#[derive(Debug, Clone, Copy, PartialEq, Eq, Structural, Hash)]
pub enum AudioCodec {
    /// AAC.
    Aac,
    /// MP3.
    Mp3,
    /// Opus.
    Opus,
    /// Vorbis.
    Vorbis,
    /// FLAC.
    Flac,
    /// PCM (uncompressed).
    Pcm,
    /// AC-3.
    Ac3,
    /// E-AC-3.
    Eac3,
}

impl Default for AudioCodec {
    /// The default audio codec is AAC.
    fn default() -> (r: Self)
        ensures
            r is Aac,
    {
        AudioCodec::Aac
    }
}

/// Encoding rate control mode.
#[derive(Debug, Clone, Copy, PartialEq, Eq, Structural, Hash)]
pub enum RateControl {
    /// Constant bitrate.
    Cbr,
    /// Variable bitrate.
    Vbr,
    /// Constant quality (CRF/CQP).
    ConstantQuality,
    /// Two-pass encoding.
    TwoPass,
}

impl Default for RateControl {
    /// The default rate control is variable bitrate.
    fn default() -> (r: Self)
        ensures
            r is Vbr,
    {
        RateControl::Vbr
    }
}

/// Hardware acceleration mode.
#[derive(Debug, Clone, Copy, PartialEq, Eq, Structural, Hash)]
pub enum HardwareAccel {
    /// Software encoding only.
    Software,
    /// NVIDIA NVENC.
    Nvenc,
    /// Intel Quick Sync.
    QuickSync,
    /// AMD VCE/VCN.
    AmdVce,
    /// Apple VideoToolbox.
    VideoToolbox,
    /// Vulkan Video.
    VulkanVideo,
}

impl Default for HardwareAccel {
    /// The default is software encoding.
    fn default() -> (r: Self)
        ensures
            r is Software,
    {
        HardwareAccel::Software
    }
}

/// Encoding preset (speed versus quality trade-off).
#[derive(Debug, Clone, Copy, PartialEq, Eq, Structural, Hash)]
pub enum EncodingPreset {
    /// Fastest encoding, lowest quality.
    Ultrafast,
    /// Very fast encoding.
    Superfast,
    /// Fast encoding.
    Veryfast,
    /// Faster than default.
    Faster,
    /// Fast encoding.
    Fast,
    /// Balanced.
    Medium,
    /// Slower, better quality.
    Slow,
    /// Even slower, even better quality.
    Slower,
    /// Very slow, high quality.
    Veryslow,
    /// Slowest, best quality.
    Placebo,
}

impl Default for EncodingPreset {
    /// The default preset is the balanced one.
    fn default() -> (r: Self)
        ensures
            r is Medium,
    {
        EncodingPreset::Medium
    }
}

/// Pixel format for video encoding.
#[derive(Debug, Clone, Copy, PartialEq, Eq, Structural, Hash)]
pub enum PixelFormat {
    /// YUV 4:2:0 8-bit.
    Yuv420p,
    /// YUV 4:2:2 8-bit.
    Yuv422p,
    /// YUV 4:4:4 8-bit.
    Yuv444p,
    /// YUV 4:2:0 10-bit.
    Yuv420p10,
    /// YUV 4:2:2 10-bit.
    Yuv422p10,
    /// YUV 4:4:4 10-bit.
    Yuv444p10,
    /// RGB 24-bit.
    Rgb24,
    /// RGBA 32-bit.
    Rgba,
}

impl Default for PixelFormat {
    /// The default pixel format is 8-bit YUV 4:2:0.
    fn default() -> (r: Self)
        ensures
            r is Yuv420p,
    {
        PixelFormat::Yuv420p
    }
}

/// Video encoding settings.
#[derive(Debug, Clone, Copy, PartialEq, Eq, Structural)]
pub struct VideoEncodingSettings {
    /// Video codec.
    pub codec: VideoCodec,
    /// Output resolution.
    pub resolution: Resolution,
    /// Output frame rate.
    pub frame_rate: FrameRate,
    /// Bitrate in kbps (for CBR/VBR).
    pub bitrate: u32,
    /// Quality value (0-51 for CRF, codec-specific).
    pub quality: u8,
    /// Rate control mode.
    pub rate_control: RateControl,
    /// Hardware acceleration.
    pub hw_accel: HardwareAccel,
    /// B-frame count.
    pub b_frames: u8,
    /// GOP size (keyframe interval).
    pub gop_size: u32,
    /// Encoding preset.
    pub preset: EncodingPreset,
    /// Pixel format.
    pub pixel_format: PixelFormat,
}

impl Default for VideoEncodingSettings {
    /// Default: H.264 at 1080p30, 10 Mbps VBR, CRF 23, medium preset.
    fn default() -> (r: Self)
        ensures
            r == VideoEncodingSettings::spec_default(),
    {
        VideoEncodingSettings {
            codec: VideoCodec::H264,
            resolution: Resolution::new(1920, 1080),
            frame_rate: FrameRate::new(30, 1),
            bitrate: 10000,
            quality: 23,
            rate_control: RateControl::Vbr,
            hw_accel: HardwareAccel::Software,
            b_frames: 2,
            gop_size: 250,
            preset: EncodingPreset::Medium,
            pixel_format: PixelFormat::Yuv420p,
        }
    }
}

impl VideoEncodingSettings {
    /// The default video encoding settings.
    pub open spec fn spec_default() -> Self {
        VideoEncodingSettings {
            codec: VideoCodec::H264,
            resolution: Resolution { width: 1920u32, height: 1080u32 },
            frame_rate: FrameRate { numerator: 30u32, denominator: 1u32 },
            bitrate: 10000u32,
            quality: 23u8,
            rate_control: RateControl::Vbr,
            hw_accel: HardwareAccel::Software,
            b_frames: 2u8,
            gop_size: 250u32,
            preset: EncodingPreset::Medium,
            pixel_format: PixelFormat::Yuv420p,
        }
    }
}

/// Audio encoding settings.
#[derive(Debug, Clone, Copy, PartialEq, Eq, Structural)]
pub struct AudioEncodingSettings {
    /// Audio codec.
    pub codec: AudioCodec,
    /// Bitrate in kbps.
    pub bitrate: u32,
    /// Sample rate in Hz.
    pub sample_rate: u32,
    /// Channel count.
    pub channels: u8,
}

impl Default for AudioEncodingSettings {
    /// Default: AAC at 192 kbps, 48 kHz stereo.
    fn default() -> (r: Self)
        ensures
            r == (AudioEncodingSettings {
                codec: AudioCodec::Aac,
                bitrate: 192u32,
                sample_rate: 48000u32,
                channels: 2u8,
            }),
    {
        AudioEncodingSettings { codec: AudioCodec::Aac, bitrate: 192, sample_rate: 48000, channels: 2 }
    }
}

/// Metadata to embed in an exported file.
#[derive(Debug)]
pub struct ExportMetadata {
    /// Title.
    pub title: Option<String>,
    /// Artist/author.
    pub artist: Option<String>,
    /// Album/collection.
    pub album: Option<String>,
    /// Year.
    pub year: Option<u16>,
    /// Comment.
    pub comment: Option<String>,
    /// Copyright notice.
    pub copyright: Option<String>,
    /// Custom key-value metadata.
    pub custom: Vec<(String, String)>,
}

/// Clones an optional string, preserving its value.
fn clone_opt_string(s: &Option<String>) -> (r: Option<String>)
    ensures
        r == *s,
{
    match s {
        Some(v) => Some(v.clone()),
        None => None,
    }
}

/// Clones a list of string pairs, preserving its value.
fn clone_string_pairs(v: &Vec<(String, String)>) -> (r: Vec<(String, String)>)
    ensures
        r@ == v@,
{
    let mut out: Vec<(String, String)> = Vec::new();
    let mut i: usize = 0;
    while i < v.len()
        invariant
            0 <= i <= v@.len(),
            out@ == v@.take(i as int),
        decreases v@.len() - i,
    {
        let pair = (v[i].0.clone(), v[i].1.clone());
        out.push(pair);
        proof {
            assert(out@ =~= v@.take(i + 1));
        }
        i = i + 1;
    }
    proof {
        assert(v@.take(v@.len() as int) =~= v@);
    }
    out
}

/// Field-for-field agreement of two metadata records, comparing the
/// custom entries by contents.
pub open spec fn spec_metadata_eq(a: ExportMetadata, b: ExportMetadata) -> bool {
    &&& a.title == b.title
    &&& a.artist == b.artist
    &&& a.album == b.album
    &&& a.year == b.year
    &&& a.comment == b.comment
    &&& a.copyright == b.copyright
    &&& a.custom@ == b.custom@
}

impl Clone for ExportMetadata {
    /// Cloning preserves every field.
    fn clone(&self) -> (r: Self)
        ensures
            spec_metadata_eq(r, *self),
    {
        ExportMetadata {
            title: clone_opt_string(&self.title),
            artist: clone_opt_string(&self.artist),
            album: clone_opt_string(&self.album),
            year: self.year,
            comment: clone_opt_string(&self.comment),
            copyright: clone_opt_string(&self.copyright),
            custom: clone_string_pairs(&self.custom),
        }
    }
}

impl Default for ExportMetadata {
    /// The default metadata is empty.
    fn default() -> (r: Self)
        ensures
            r.title is None,
            r.artist is None,
            r.album is None,
            r.year is None,
            r.comment is None,
            r.copyright is None,
            r.custom@.len() == 0,
    {
        ExportMetadata {
            title: None,
            artist: None,
            album: None,
            year: None,
            comment: None,
            copyright: None,
            custom: Vec::new(),
        }
    }
}

/// Export settings combining all encoding options.
#[derive(Debug)]
pub struct ExportSettings {
    /// Container format.
    pub container: ContainerFormat,
    /// Video settings.
    pub video: VideoEncodingSettings,
    /// Audio settings.
    pub audio: AudioEncodingSettings,
    /// Output file path.
    pub output_path: String,
    /// Range to export (`None` = entire timeline).
    pub range: Option<(TimePosition, TimePosition)>,
    /// Enable multi-pass encoding.
    pub multi_pass: bool,
    /// Metadata to embed.
    pub metadata: ExportMetadata,
}

/// Field-for-field agreement of two settings records.
pub open spec fn spec_settings_eq(a: ExportSettings, b: ExportSettings) -> bool {
    &&& a.container == b.container
    &&& a.video == b.video
    &&& a.audio == b.audio
    &&& a.output_path == b.output_path
    &&& a.range == b.range
    &&& a.multi_pass == b.multi_pass
    &&& spec_metadata_eq(a.metadata, b.metadata)
}

impl Clone for ExportSettings {
    /// Cloning preserves every field.
    fn clone(&self) -> (r: Self)
        ensures
            spec_settings_eq(r, *self),
    {
        ExportSettings {
            container: self.container,
            video: self.video,
            audio: self.audio,
            output_path: self.output_path.clone(),
            range: self.range,
            multi_pass: self.multi_pass,
            metadata: self.metadata.clone(),
        }
    }
}

impl Default for ExportSettings {
    /// The default settings: MP4 container, default video and audio
    /// settings, empty output path, whole timeline, single pass, empty
    /// metadata.
    fn default() -> (r: Self)
        ensures
            r.container is Mp4,
            r.video == VideoEncodingSettings::spec_default(),
            r.audio == (AudioEncodingSettings {
                codec: AudioCodec::Aac,
                bitrate: 192u32,
                sample_rate: 48000u32,
                channels: 2u8,
            }),
            r.output_path@.len() == 0,
            r.range is None,
            !r.multi_pass,
            r.metadata.custom@.len() == 0,
    {
        ExportSettings {
            container: ContainerFormat::Mp4,
            video: VideoEncodingSettings::default(),
            audio: AudioEncodingSettings::default(),
            output_path: String::new(),
            range: None,
            multi_pass: false,
            metadata: ExportMetadata::default(),
        }
    }
}

/// Export job status.
#[derive(Debug, Clone, Copy, PartialEq, Eq, Structural, Hash)]
pub enum ExportStatus {
    /// Queued, waiting to start.
    Queued,
    /// Preparing (analyzing, building the graph).
    Preparing,
    /// First pass in progress (multi-pass).
    FirstPass,
    /// Second pass in progress.
    SecondPass,
    /// Encoding in progress.
    Encoding,
    /// Finalizing (muxing, writing metadata).
    Finalizing,
    /// Completed successfully.
    Completed,
    /// Failed.
    Failed,
    /// Cancelled.
    Cancelled,
    /// Paused.
    Paused,
}

impl Default for ExportStatus {
    /// The default status is queued.
    fn default() -> (r: Self)
        ensures
            r is Queued,
    {
        ExportStatus::Queued
    }
}

/// A status in which a job occupies an encoding slot.
pub open spec fn spec_is_active(s: ExportStatus) -> bool {
    ||| s is Preparing
    ||| s is FirstPass
    ||| s is SecondPass
    ||| s is Encoding
    ||| s is Finalizing
}

/// A terminal status: completed, failed or cancelled.
pub open spec fn spec_is_terminal(s: ExportStatus) -> bool {
    ||| s is Completed
    ||| s is Failed
    ||| s is Cancelled
}

/// Progress record for an export job. Derived display quantities (fraction
/// done, encoding rate, time remaining) are left to the caller, which can
/// compute them from the frame counters.
#[derive(Debug, Clone)]
pub struct ExportProgress {
    /// Current status.
    pub status: ExportStatus,
    /// Frames encoded so far.
    pub frames_encoded: u64,
    /// Total frames to encode.
    pub total_frames: u64,
    /// Current output size in bytes.
    pub current_size: u64,
    /// Estimated final size in bytes.
    pub estimated_size: Option<u64>,
    /// Error message if failed.
    pub error_message: Option<String>,
}

impl ExportProgress {
    /// Creates a fresh queued progress record.
    pub fn new(total_frames: u64) -> (r: Self)
        ensures
            r.status is Queued,
            r.frames_encoded == 0,
            r.total_frames == total_frames,
            r.current_size == 0,
            r.estimated_size is None,
            r.error_message is None,
    {
        ExportProgress {
            status: ExportStatus::Queued,
            frames_encoded: 0,
            total_frames,
            current_size: 0,
            estimated_size: None,
            error_message: None,
        }
    }

    /// Records a new encoded-frame count, leaving everything else as it
    /// was.
    pub fn update(&mut self, frames_encoded: u64)
        ensures
            *final(self) == (ExportProgress { frames_encoded, ..*old(self) }),
    {
        self.frames_encoded = frames_encoded;
    }

    /// Returns whether the export has reached a terminal status.
    pub fn is_complete(&self) -> (r: bool)
        ensures
            r == spec_is_terminal(self.status),
    {
        matches!(self.status, ExportStatus::Completed | ExportStatus::Failed | ExportStatus::Cancelled)
    }
}

/// An export job in the render queue.
#[derive(Debug)]
pub struct ExportJob {
    /// Job identifier.
    pub id: ExportJobId,
    /// Export settings snapshot.
    pub settings: ExportSettings,
    /// Progress record.
    pub progress: ExportProgress,
    /// Project this export is from.
    pub project_id: u64,
    /// When the job was created.
    pub created_at: Timestamp,
    /// When encoding started.
    pub started_at: Option<Timestamp>,
    /// When encoding ended.
    pub ended_at: Option<Timestamp>,
    /// Priority (higher = more important).
    pub priority: i32,
}

impl ExportJob {
    /// Creates a new queued job with priority 0 and the creation time read
    /// from the clock.
    pub fn new(id: ExportJobId, project_id: u64, settings: ExportSettings, total_frames: u64) -> (r:
        Self)
        ensures
            r.id == id,
            r.settings == settings,
            r.progress.status is Queued,
            r.progress.frames_encoded == 0,
            r.progress.total_frames == total_frames,
            r.progress.current_size == 0,
            r.progress.estimated_size is None,
            r.progress.error_message is None,
            r.project_id == project_id,
            r.started_at is None,
            r.ended_at is None,
            r.priority == 0,
    {
        ExportJob {
            id,
            settings,
            progress: ExportProgress::new(total_frames),
            project_id,
            created_at: Timestamp::now(),
            started_at: None,
            ended_at: None,
            priority: 0,
        }
    }

    /// Returns the job id.
    pub fn job_id(&self) -> (r: ExportJobId)
        ensures
            r == self.id,
    {
        self.id
    }

    /// Returns the export settings.
    pub fn settings(&self) -> (r: &ExportSettings)
        ensures
            *r == self.settings,
    {
        &self.settings
    }

    /// Returns the current progress.
    pub fn progress(&self) -> (r: &ExportProgress)
        ensures
            *r == self.progress,
    {
        &self.progress
    }

    /// Returns mutable access to the progress record.
    pub fn progress_mut(&mut self) -> (r: &mut ExportProgress)
        ensures
            *r == old(self).progress,
            *final(self) == (ExportJob { progress: *final(r), ..*old(self) }),
    {
        &mut self.progress
    }

    /// Returns the project id.
    pub fn project_id(&self) -> (r: u64)
        ensures
            r == self.project_id,
    {
        self.project_id
    }

    /// Returns when the job was created.
    pub fn created_at(&self) -> (r: Timestamp)
        ensures
            r == self.created_at,
    {
        self.created_at
    }

    /// Returns the job priority.
    pub fn priority(&self) -> (r: i32)
        ensures
            r == self.priority,
    {
        self.priority
    }

    /// Sets the job priority.
    pub fn set_priority(&mut self, priority: i32)
        ensures
            *final(self) == (ExportJob { priority, ..*old(self) }),
    {
        self.priority = priority;
    }

    /// Moves the job to `Preparing` and records the start time; all other
    /// progress fields are untouched.
    pub fn start(&mut self)
        ensures
            final(self).progress.status is Preparing,
            final(self).started_at is Some,
            *final(self) == (ExportJob {
                progress: ExportProgress { status: ExportStatus::Preparing, ..old(self).progress },
                started_at: final(self).started_at,
                ..*old(self)
            }),
    {
        self.started_at = Some(Timestamp::now());
        self.progress.status = ExportStatus::Preparing;
    }

    /// Moves the job to `Completed` and records the end time.
    pub fn complete(&mut self)
        ensures
            final(self).progress.status is Completed,
            final(self).ended_at is Some,
            *final(self) == (ExportJob {
                progress: ExportProgress { status: ExportStatus::Completed, ..old(self).progress },
                ended_at: final(self).ended_at,
                ..*old(self)
            }),
    {
        self.ended_at = Some(Timestamp::now());
        self.progress.status = ExportStatus::Completed;
    }

    /// Moves the job to `Failed`, records the end time and stores the
    /// error message.
    pub fn fail(&mut self, error: String)
        ensures
            final(self).progress.status is Failed,
            final(self).ended_at is Some,
            *final(self) == (ExportJob {
                progress: ExportProgress {
                    status: ExportStatus::Failed,
                    error_message: Some(error),
                    ..old(self).progress
                },
                ended_at: final(self).ended_at,
                ..*old(self)
            }),
    {
        self.ended_at = Some(Timestamp::now());
        self.progress.status = ExportStatus::Failed;
        self.progress.error_message = Some(error);
    }

    /// Moves the job to `Cancelled` and records the end time.
    pub fn cancel(&mut self)
        ensures
            final(self).progress.status is Cancelled,
            final(self).ended_at is Some,
            *final(self) == (ExportJob {
                progress: ExportProgress { status: ExportStatus::Cancelled, ..old(self).progress },
                ended_at: final(self).ended_at,
                ..*old(self)
            }),
    {
        self.ended_at = Some(Timestamp::now());
        self.progress.status = ExportStatus::Cancelled;
    }

    /// Returns the encoding time in whole seconds: `None` before the job
    /// has started; once started and ended, the span between the two
    /// recorded times (zero if the clock went backwards).
    pub fn elapsed_secs(&self) -> (r: Option<u64>)
        ensures
            r is Some <==> self.started_at is Some,
            (self.started_at is Some && self.ended_at is Some) ==> r == Some(
                if self.ended_at->0.spec_secs() >= self.started_at->0.spec_secs() {
                    (self.ended_at->0.spec_secs() - self.started_at->0.spec_secs()) as u64
                } else {
                    0u64
                },
            ),
    {
        match self.started_at {
            None => None,
            Some(start) => {
                let end = match self.ended_at {
                    Some(e) => e,
                    None => Timestamp::now(),
                };
                Some(end.elapsed_since(start).as_secs())
            },
        }
    }
}

/// The number of jobs in an active status.
pub open spec fn count_active(jobs: Seq<ExportJob>) -> int
    decreases jobs.len(),
{
    if jobs.len() == 0 {
        0
    } else {
        count_active(jobs.drop_last()) + if spec_is_active(jobs.last().progress.status) {
            1int
        } else {
            0int
        }
    }
}

/// The active count never drops below zero nor above the length.
proof fn lemma_count_active_bounds(s: Seq<ExportJob>)
    ensures
        0 <= count_active(s) <= s.len(),
    decreases s.len(),
{
    if s.len() > 0 {
        lemma_count_active_bounds(s.drop_last());
    }
}

/// Replacing one job changes the active count by the difference of the two
/// jobs' activity.
proof fn lemma_count_active_update(s: Seq<ExportJob>, k: int, j: ExportJob)
    requires
        0 <= k < s.len(),
    ensures
        count_active(s.update(k, j)) == count_active(s) - (if spec_is_active(
            s[k].progress.status,
        ) {
            1int
        } else {
            0int
        }) + (if spec_is_active(j.progress.status) {
            1int
        } else {
            0int
        }),
    decreases s.len(),
{
    let t = s.update(k, j);
    if k == s.len() - 1 {
        assert(t.drop_last() =~= s.drop_last());
        assert(t.last() == j);
    } else {
        assert(t.drop_last() =~= s.drop_last().update(k, j));
        assert(t.last() == s.last());
        lemma_count_active_update(s.drop_last(), k, j);
    }
}

/// Appending a job adds its activity to the count.
proof fn lemma_count_active_push(s: Seq<ExportJob>, j: ExportJob)
    ensures
        count_active(s.push(j)) == count_active(s) + if spec_is_active(j.progress.status) {
            1int
        } else {
            0int
        },
{
    assert(s.push(j).drop_last() =~= s);
    assert(s.push(j).last() == j);
}

/// Removing a job subtracts its activity from the count.
proof fn lemma_count_active_remove(s: Seq<ExportJob>, k: int)
    requires
        0 <= k < s.len(),
    ensures
        count_active(s.remove(k)) == count_active(s) - (if spec_is_active(
            s[k].progress.status,
        ) {
            1int
        } else {
            0int
        }),
    decreases s.len(),
{
    let t = s.remove(k);
    if k == s.len() - 1 {
        assert(t =~= s.drop_last());
    } else {
        assert(t.drop_last() =~= s.drop_last().remove(k));
        assert(t.last() == s.last());
        lemma_count_active_remove(s.drop_last(), k);
    }
}

/// With a zero active count, no job is active.
proof fn lemma_count_active_zero(s: Seq<ExportJob>, i: int)
    requires
        count_active(s) == 0,
        0 <= i < s.len(),
    ensures
        !spec_is_active(s[i].progress.status),
    decreases s.len(),
{
    lemma_count_active_bounds(s.drop_last());
    if i < s.len() - 1 {
        lemma_count_active_zero(s.drop_last(), i);
    }
}

/// Export queue manager.
pub struct ExportQueue {
    jobs: Vec<ExportJob>,
    next_id: u64,
    current: Option<ExportJobId>,
    max_concurrent: usize,
    active_count: usize,
}

impl ExportQueue {
    /// The jobs in the queue, in insertion order.
    pub closed spec fn spec_jobs(self) -> Seq<ExportJob> {
        self.jobs@
    }

    /// The next job id to be handed out.
    pub closed spec fn spec_next_id(self) -> u64 {
        self.next_id
    }

    /// The id of the job most recently started, if any.
    pub closed spec fn spec_current(self) -> Option<ExportJobId> {
        self.current
    }

    /// The concurrency cap.
    pub closed spec fn spec_max_concurrent(self) -> usize {
        self.max_concurrent
    }

    /// The bookkept number of active jobs.
    pub closed spec fn spec_active_count(self) -> usize {
        self.active_count
    }

    /// Well-formed queue: job ids are unique and below the id counter.
    pub open spec fn spec_wf(self) -> bool {
        &&& forall|i: int, j: int|
            0 <= i < self.spec_jobs().len() && 0 <= j < self.spec_jobs().len() && i != j ==> (
            #[trigger] self.spec_jobs()[i]).id != (#[trigger] self.spec_jobs()[j]).id
        &&& forall|i: int|
            0 <= i < self.spec_jobs().len() ==> (#[trigger] self.spec_jobs()[i]).id.0
                < self.spec_next_id()
    }

    /// The single-slot discipline of a fresh queue: the cap is one, the
    /// bookkept active count is exact and at most one, and the one active
    /// job, if any, is the one recorded as current. Every queue operation
    /// except raising the cap preserves it, so the number of active jobs
    /// never exceeds the cap.
    pub open spec fn spec_single_slot(self) -> bool {
        &&& self.spec_max_concurrent() == 1
        &&& self.spec_active_count() == count_active(self.spec_jobs())
        &&& count_active(self.spec_jobs()) <= 1
        &&& count_active(self.spec_jobs()) == 1 ==> self.spec_current() is Some && forall|k: int|
            0 <= k < self.spec_jobs().len() && spec_is_active(
                (#[trigger] self.spec_jobs()[k]).progress.status,
            ) ==> self.spec_jobs()[k].id == self.spec_current()->0
    }

    /// Creates an empty queue with a concurrency cap of one.
    pub fn new() -> (r: Self)
        ensures
            r.spec_jobs().len() == 0,
            r.spec_next_id() == 1,
            r.spec_current() is None,
            r.spec_max_concurrent() == 1,
            r.spec_active_count() == 0,
            r.spec_wf(),
            r.spec_single_slot(),
    {
        ExportQueue { jobs: Vec::new(), next_id: 1, current: None, max_concurrent: 1, active_count: 0 }
    }

    /// Adds a new queued job for the project with the given settings and
    /// frame count, and returns its fresh id.
    pub fn add_job(&mut self, project_id: u64, settings: ExportSettings, total_frames: u64) -> (r:
        ExportJobId)
        requires
            old(self).spec_wf(),
            old(self).spec_next_id() < u64::MAX,
        ensures
            final(self).spec_wf(),
            r.0 == old(self).spec_next_id(),
            final(self).spec_next_id() == old(self).spec_next_id() + 1,
            final(self).spec_jobs().len() == old(self).spec_jobs().len() + 1,
            final(self).spec_jobs() == old(self).spec_jobs().push(final(self).spec_jobs().last()),
            ({
                let j = final(self).spec_jobs().last();
                &&& j.id == r
                &&& j.settings == settings
                &&& j.progress.status is Queued
                &&& j.progress.frames_encoded == 0
                &&& j.progress.total_frames == total_frames
                &&& j.project_id == project_id
                &&& j.priority == 0
                &&& j.started_at is None
                &&& j.ended_at is None
            }),
            final(self).spec_current() == old(self).spec_current(),
            final(self).spec_max_concurrent() == old(self).spec_max_concurrent(),
            final(self).spec_active_count() == old(self).spec_active_count(),
            old(self).spec_single_slot() ==> final(self).spec_single_slot(),
    {
        let id = ExportJobId::new(self.next_id);
        self.next_id = self.next_id + 1;
        let job = ExportJob::new(id, project_id, settings, total_frames);
        proof {
            lemma_count_active_push(self.jobs@, job);
        }
        self.jobs.push(job);
        id
    }

    /// Returns a job by id, or `None` when no job has the id.
    pub fn get_job(&self, id: ExportJobId) -> (r: Option<&ExportJob>)
        ensures
            r is None ==> forall|i: int|
                0 <= i < self.spec_jobs().len() ==> (#[trigger] self.spec_jobs()[i]).id != id,
            r is Some ==> exists|k: int|
                0 <= k < self.spec_jobs().len() && self.spec_jobs()[k].id == id && *r->Some_0
                    == self.spec_jobs()[k],
    {
        let mut i: usize = 0;
        while i < self.jobs.len()
            invariant
                0 <= i <= self.jobs@.len(),
                forall|k: int| 0 <= k < i ==> (#[trigger] self.jobs@[k]).id != id,
            decreases self.jobs@.len() - i,
        {
            if self.jobs[i].id == id {
                return Some(&self.jobs[i]);
            }
            i = i + 1;
        }
        None
    }

    /// Returns mutable access to a job by id, or `None`, leaving the queue
    /// unchanged, when no job has the id.
    #[verifier::spinoff_prover]
    pub fn get_job_mut(&mut self, id: ExportJobId) -> (r: Option<&mut ExportJob>)
        ensures
            r is None ==> *final(self) == *old(self) && forall|i: int|
                0 <= i < old(self).spec_jobs().len() ==> (#[trigger] old(self).spec_jobs()[i]).id
                    != id,
            r is Some ==> exists|k: int|
                0 <= k < old(self).spec_jobs().len() && old(self).spec_jobs()[k].id == id
                    && *r->Some_0 == old(self).spec_jobs()[k] && final(self).spec_jobs() == old(self).spec_jobs().update(k, *final(r->Some_0)) && final(self).spec_next_id() == old(self).spec_next_id() && final(self).spec_current() == old(self).spec_current() && final(self).spec_max_concurrent() == old(self).spec_max_concurrent() && final(self).spec_active_count() == old(self).spec_active_count(),
    {
        let mut i: usize = 0;
        while i < self.jobs.len()
            invariant
                0 <= i <= self.jobs@.len(),
                forall|k: int| 0 <= k < i ==> (#[trigger] self.jobs@[k]).id != id,
                self == old(self),
            decreases self.jobs@.len() - i,
        {
            if self.jobs[i].id == id {
                return Some(&mut self.jobs[i]);
            }
            i = i + 1;
        }
        None
    }

    /// Returns all jobs in insertion order.
    pub fn jobs(&self) -> (r: &Vec<ExportJob>)
        ensures
            r@ == self.spec_jobs(),
    {
        &self.jobs
    }


    /// Removes a job by id. A job that is neither queued nor in a terminal
    /// status is active and is refused; so is an unknown id. Returns
    /// whether the job was removed.
    #[verifier::spinoff_prover]
    pub fn remove_job(&mut self, id: ExportJobId) -> (r: bool)
        requires
            old(self).spec_wf(),
        ensures
            final(self).spec_wf(),
            !r ==> *final(self) == *old(self),
            r <==> exists|k: int|
                0 <= k < old(self).spec_jobs().len() && (#[trigger] old(self).spec_jobs()[k]).id
                    == id && (old(self).spec_jobs()[k].progress.status is Queued || spec_is_terminal(
                    old(self).spec_jobs()[k].progress.status,
                )),
            r ==> exists|k: int|
                0 <= k < old(self).spec_jobs().len() && (#[trigger] old(self).spec_jobs()[k]).id
                    == id && (old(self).spec_jobs()[k].progress.status is Queued || spec_is_terminal(
                    old(self).spec_jobs()[k].progress.status,
                )) && final(self).spec_jobs() == old(self).spec_jobs().remove(k),
            final(self).spec_next_id() == old(self).spec_next_id(),
            final(self).spec_current() == old(self).spec_current(),
            final(self).spec_max_concurrent() == old(self).spec_max_concurrent(),
            final(self).spec_active_count() == old(self).spec_active_count(),
            old(self).spec_single_slot() ==> final(self).spec_single_slot(),
    {
        let mut i: usize = 0;
        while i < self.jobs.len()
            invariant
                0 <= i <= self.jobs@.len(),
                forall|k: int| 0 <= k < i ==> (#[trigger] self.jobs@[k]).id != id,
                self == old(self),
                old(self).spec_wf(),
            decreases self.jobs@.len() - i,
        {
            if self.jobs[i].id == id {
                let is_terminal = self.jobs[i].progress.is_complete();
                let is_queued = matches!(self.jobs[i].progress.status, ExportStatus::Queued);
                if !is_terminal && !is_queued {
                    proof {
                        assert forall|k: int|
                            0 <= k < old(self).spec_jobs().len() && (#[trigger] old(
                                self,
                            ).spec_jobs()[k]).id == id implies !(old(
                            self,
                        ).spec_jobs()[k].progress.status is Queued) && !spec_is_terminal(
                            old(self).spec_jobs()[k].progress.status,
                        ) by {
                            assert(k == i);
                        }
                    }
                    return false;
                }
                proof {
                    lemma_count_active_remove(self.jobs@, i as int);
                }
                self.jobs.remove(i);
                proof {
                    let s = old(self).spec_jobs();
                    let t = self.jobs@;
                    assert(forall|x: int| 0 <= x < i ==> #[trigger] t[x] == s[x]);
                    assert(forall|x: int| i <= x < t.len() ==> #[trigger] t[x] == s[x + 1]);
                    assert forall|a: int, b: int|
                        0 <= a < t.len() && 0 <= b < t.len() && a != b implies (
                    #[trigger] t[a]).id != (#[trigger] t[b]).id by {
                        let oa = if a < i { a } else { a + 1 };
                        let ob = if b < i { b } else { b + 1 };
                        assert(t[a] == s[oa] && t[b] == s[ob]);
                    }
                    if old(self).spec_single_slot() && count_active(t) == 1 {
                        assert forall|x: int|
                            0 <= x < t.len() && spec_is_active(
                                (#[trigger] t[x]).progress.status,
                            ) implies t[x].id == old(self).spec_current()->0 by {
                            let ox = if x < i { x } else { x + 1 };
                            assert(t[x] == s[ox]);
                        }
                    }
                }
                return true;
            }
            i = i + 1;
        }
        false
    }

    /// Returns the queued jobs, highest priority first, jobs of equal
    /// priority keeping their insertion order (a stable descending sort).
    #[verifier::spinoff_prover]
    #[verifier::rlimit(100)]
    pub fn queued_jobs(&self) -> (r: Vec<&ExportJob>)
        ensures
            r@.len() == spec_by_priority(spec_queued_of(self.spec_jobs())).len(),
            forall|a: int|
                0 <= a < r@.len() ==> *(#[trigger] r@[a]) == spec_by_priority(
                    spec_queued_of(self.spec_jobs()),
                )[a],
            forall|a: int| 0 <= a < r@.len() ==> (#[trigger] r@[a]).progress.status is Queued,
            forall|a: int, b: int|
                0 <= a < b < r@.len() ==> (#[trigger] r@[a]).priority >= (#[trigger] r@[b]).priority,
    {
        let mut out: Vec<&ExportJob> = Vec::new();
        let mut i: usize = 0;
        while i < self.jobs.len()
            invariant
                0 <= i <= self.jobs@.len(),
                out@.len() == spec_by_priority(spec_queued_of(self.jobs@.take(i as int))).len(),
                forall|a: int|
                    0 <= a < out@.len() ==> *(#[trigger] out@[a]) == spec_by_priority(
                        spec_queued_of(self.jobs@.take(i as int)),
                    )[a],
                forall|a: int|
                    0 <= a < out@.len() ==> (#[trigger] out@[a]).progress.status is Queued,
                forall|a: int, b: int|
                    0 <= a < b < out@.len() ==> (#[trigger] out@[a]).priority >= (
                    #[trigger] out@[b]).priority,
            decreases self.jobs@.len() - i,
        {
            let ghost pre = self.jobs@.take(i as int);
            let ghost cur = self.jobs@.take(i + 1);
            proof {
                assert(cur.drop_last() =~= pre);
                assert(cur.last() == self.jobs@[i as int]);
            }
            if matches!(self.jobs[i].progress.status, ExportStatus::Queued) {
                let job = &self.jobs[i];
                let mut pos: usize = 0;
                while pos < out.len() && out[pos].priority >= job.priority
                    invariant
                        0 <= pos <= out@.len(),
                        forall|a: int| 0 <= a < pos ==> (#[trigger] out@[a]).priority >= job.priority,
                    decreases out@.len() - pos,
                {
                    pos = pos + 1;
                }
                let ghost sorted_pre = spec_by_priority(spec_queued_of(pre));
                let ghost out0 = out@;
                proof {
                    assert(spec_queued_of(cur) == spec_queued_of(pre).push(self.jobs@[i as int]));
                    assert(spec_queued_of(cur).drop_last() =~= spec_queued_of(pre));
                    assert(spec_by_priority(spec_queued_of(cur)) == spec_insert_by_priority(
                        sorted_pre,
                        self.jobs@[i as int],
                    ));
                    assert forall|a: int, b: int|
                        0 <= a < b < sorted_pre.len() implies (#[trigger] sorted_pre[a]).priority
                        >= (#[trigger] sorted_pre[b]).priority by {
                        assert(sorted_pre[a] == *out0[a] && sorted_pre[b] == *out0[b]);
                    }
                    assert forall|a: int| 0 <= a < pos implies (
                    #[trigger] sorted_pre[a]).priority >= self.jobs@[i as int].priority by {
                        assert(sorted_pre[a] == *out0[a]);
                    }
                    if pos < sorted_pre.len() {
                        assert(sorted_pre[pos as int] == *out0[pos as int]);
                        assert(sorted_pre[pos as int].priority < self.jobs@[i as int].priority);
                    }
                    lemma_insert_by_priority_at(sorted_pre, self.jobs@[i as int], pos as int);
                }
                out.insert(pos, job);
                proof {
                    let t = out@;
                    let target = spec_by_priority(spec_queued_of(cur));
                    assert(target == sorted_pre.take(pos as int) + seq![self.jobs@[i as int]]
                        + sorted_pre.skip(pos as int));
                    assert(forall|x: int| 0 <= x < pos ==> #[trigger] t[x] == out0[x]);
                    assert(forall|x: int| pos < x < t.len() ==> #[trigger] t[x] == out0[x - 1]);
                    assert(t[pos as int] == job);
                    assert(t.len() == target.len());
                    assert forall|a: int| 0 <= a < t.len() implies *(#[trigger] t[a])
                        == target[a] by {
                        if a < pos {
                            assert(target[a] == sorted_pre[a]);
                            assert(*t[a] == *out0[a]);
                        } else if a == pos {
                            assert(target[a] == self.jobs@[i as int]);
                        } else {
                            assert(target[a] == sorted_pre[a - 1]);
                            assert(*t[a] == *out0[a - 1]);
                        }
                    }
                    assert forall|a: int|
                        0 <= a < t.len() implies (#[trigger] t[a]).progress.status is Queued by {
                        if a == pos {
                        } else {
                            let a0 = if a < pos {
                                a
                            } else {
                                a - 1
                            };
                            assert(t[a] == out0[a0]);
                        }
                    }
                    assert forall|a: int, b: int| 0 <= a < b < t.len() implies (
                    #[trigger] t[a]).priority >= (#[trigger] t[b]).priority by {
                        if a == pos && b > pos {
                            assert(t[b] == out0[b - 1]);
                            if out0[b - 1].priority > job.priority {
                                assert(pos < out0.len() && out0[pos as int].priority < job.priority);
                                assert(out0[pos as int].priority >= out0[b - 1].priority);
                            }
                        } else if b == pos && a < pos {
                        } else if a < pos && b > pos {
                            assert(t[a] == out0[a] && t[b] == out0[b - 1]);
                        } else if b < pos {
                            assert(t[a] == out0[a] && t[b] == out0[b]);
                        } else if a > pos {
                            assert(t[a] == out0[a - 1] && t[b] == out0[b - 1]);
                        }
                    }
                }
            }
            i = i + 1;
        }
        proof {
            assert(self.jobs@.take(self.jobs@.len() as int) =~= self.jobs@);
        }
        out
    }

    /// Returns the jobs currently holding an encoding slot.
    pub fn active_jobs(&self) -> (r: Vec<&ExportJob>)
        ensures
            r@.len() == spec_active_of(self.spec_jobs()).len(),
            forall|a: int|
                0 <= a < r@.len() ==> *(#[trigger] r@[a]) == spec_active_of(self.spec_jobs())[a],
            forall|a: int|
                0 <= a < r@.len() ==> spec_is_active((#[trigger] r@[a]).progress.status),
    {
        let mut out: Vec<&ExportJob> = Vec::new();
        let mut i: usize = 0;
        while i < self.jobs.len()
            invariant
                0 <= i <= self.jobs@.len(),
                out@.len() == spec_active_of(self.jobs@.take(i as int)).len(),
                forall|a: int|
                    0 <= a < out@.len() ==> *(#[trigger] out@[a]) == spec_active_of(
                        self.jobs@.take(i as int),
                    )[a],
                forall|a: int|
                    0 <= a < out@.len() ==> spec_is_active((#[trigger] out@[a]).progress.status),
            decreases self.jobs@.len() - i,
        {
            let ghost pre = self.jobs@.take(i as int);
            let ghost cur = self.jobs@.take(i + 1);
            proof {
                assert(cur.drop_last() =~= pre);
                assert(cur.last() == self.jobs@[i as int]);
            }
            if matches!(
                self.jobs[i].progress.status,
                ExportStatus::Preparing | ExportStatus::FirstPass | ExportStatus::SecondPass
                    | ExportStatus::Encoding | ExportStatus::Finalizing
            ) {
                let ghost out0 = out@;
                out.push(&self.jobs[i]);
                proof {
                    assert(spec_active_of(cur) == spec_active_of(pre).push(self.jobs@[i as int]));
                    assert(forall|a: int| 0 <= a < out0.len() ==> #[trigger] out@[a] == out0[a]);
                    assert(*out@[out@.len() - 1] == self.spec_jobs()[i as int]);
                }
            }
            i = i + 1;
        }
        proof {
            assert(self.jobs@.take(self.jobs@.len() as int) =~= self.jobs@);
        }
        out
    }

    /// Returns the completed jobs.
    pub fn completed_jobs(&self) -> (r: Vec<&ExportJob>)
        ensures
            r@.len() == spec_completed_of(self.spec_jobs()).len(),
            forall|a: int|
                0 <= a < r@.len() ==> *(#[trigger] r@[a]) == spec_completed_of(
                    self.spec_jobs(),
                )[a],
            forall|a: int| 0 <= a < r@.len() ==> (#[trigger] r@[a]).progress.status is Completed,
    {
        let mut out: Vec<&ExportJob> = Vec::new();
        let mut i: usize = 0;
        while i < self.jobs.len()
            invariant
                0 <= i <= self.jobs@.len(),
                out@.len() == spec_completed_of(self.jobs@.take(i as int)).len(),
                forall|a: int|
                    0 <= a < out@.len() ==> *(#[trigger] out@[a]) == spec_completed_of(
                        self.jobs@.take(i as int),
                    )[a],
                forall|a: int|
                    0 <= a < out@.len() ==> (#[trigger] out@[a]).progress.status is Completed,
            decreases self.jobs@.len() - i,
        {
            let ghost pre = self.jobs@.take(i as int);
            let ghost cur = self.jobs@.take(i + 1);
            proof {
                assert(cur.drop_last() =~= pre);
                assert(cur.last() == self.jobs@[i as int]);
            }
            if matches!(self.jobs[i].progress.status, ExportStatus::Completed) {
                let ghost out0 = out@;
                out.push(&self.jobs[i]);
                proof {
                    assert(spec_completed_of(cur) == spec_completed_of(pre).push(
                        self.jobs@[i as int],
                    ));
                    assert(forall|a: int| 0 <= a < out0.len() ==> #[trigger] out@[a] == out0[a]);
                    assert(*out@[out@.len() - 1] == self.spec_jobs()[i as int]);
                }
            }
            i = i + 1;
        }
        proof {
            assert(self.jobs@.take(self.jobs@.len() as int) =~= self.jobs@);
        }
        out
    }

    /// Returns the failed jobs.
    pub fn failed_jobs(&self) -> (r: Vec<&ExportJob>)
        ensures
            r@.len() == spec_failed_of(self.spec_jobs()).len(),
            forall|a: int|
                0 <= a < r@.len() ==> *(#[trigger] r@[a]) == spec_failed_of(self.spec_jobs())[a],
            forall|a: int| 0 <= a < r@.len() ==> (#[trigger] r@[a]).progress.status is Failed,
    {
        let mut out: Vec<&ExportJob> = Vec::new();
        let mut i: usize = 0;
        while i < self.jobs.len()
            invariant
                0 <= i <= self.jobs@.len(),
                out@.len() == spec_failed_of(self.jobs@.take(i as int)).len(),
                forall|a: int|
                    0 <= a < out@.len() ==> *(#[trigger] out@[a]) == spec_failed_of(
                        self.jobs@.take(i as int),
                    )[a],
                forall|a: int|
                    0 <= a < out@.len() ==> (#[trigger] out@[a]).progress.status is Failed,
            decreases self.jobs@.len() - i,
        {
            let ghost pre = self.jobs@.take(i as int);
            let ghost cur = self.jobs@.take(i + 1);
            proof {
                assert(cur.drop_last() =~= pre);
                assert(cur.last() == self.jobs@[i as int]);
            }
            if matches!(self.jobs[i].progress.status, ExportStatus::Failed) {
                let ghost out0 = out@;
                out.push(&self.jobs[i]);
                proof {
                    assert(spec_failed_of(cur) == spec_failed_of(pre).push(self.jobs@[i as int]));
                    assert(forall|a: int| 0 <= a < out0.len() ==> #[trigger] out@[a] == out0[a]);
                    assert(*out@[out@.len() - 1] == self.spec_jobs()[i as int]);
                }
            }
            i = i + 1;
        }
        proof {
            assert(self.jobs@.take(self.jobs@.len() as int) =~= self.jobs@);
        }
        out
    }

    /// The job at position `k` is queued and has the highest priority
    /// among the queued jobs, earliest in insertion order on a tie.
    pub open spec fn spec_best_queued(s: Seq<ExportJob>, k: int) -> bool {
        &&& 0 <= k < s.len()
        &&& s[k].progress.status is Queued
        &&& forall|i: int|
            0 <= i < s.len() && (#[trigger] s[i]).progress.status is Queued ==> s[i].priority
                <= s[k].priority
        &&& forall|i: int|
            0 <= i < k && (#[trigger] s[i]).progress.status is Queued ==> s[i].priority
                < s[k].priority
    }

    /// `t` is `s` with the job at position `k` moved to `Preparing` and
    /// its start time recorded; nothing else changed.
    pub open spec fn spec_job_started(s: Seq<ExportJob>, t: Seq<ExportJob>, k: int) -> bool {
        &&& 0 <= k < s.len()
        &&& t.len() == s.len()
        &&& t == s.update(k, t[k])
        &&& t[k].progress.status is Preparing
        &&& t[k].started_at is Some
        &&& t[k] == (ExportJob {
            progress: ExportProgress { status: ExportStatus::Preparing, ..s[k].progress },
            started_at: t[k].started_at,
            ..s[k]
        })
    }

    /// Moves the queued job at the given position to `Preparing`,
    /// records its start time, makes it current and takes the encoding
    /// slot.
    #[verifier::spinoff_prover]
    fn start_job_at(&mut self, k: usize) -> (id: ExportJobId)
        requires
            old(self).spec_wf(),
            k < old(self).spec_jobs().len(),
            old(self).spec_jobs()[k as int].progress.status is Queued,
            old(self).spec_active_count() < old(self).spec_max_concurrent(),
        ensures
            final(self).spec_wf(),
            id == old(self).spec_jobs()[k as int].id,
            final(self).spec_jobs() == old(self).spec_jobs().update(
                k as int,
                final(self).spec_jobs()[k as int],
            ),
            final(self).spec_jobs()[k as int].progress.status is Preparing,
            final(self).spec_jobs()[k as int].started_at is Some,
            final(self).spec_jobs()[k as int] == (ExportJob {
                progress: ExportProgress {
                    status: ExportStatus::Preparing,
                    ..old(self).spec_jobs()[k as int].progress
                },
                started_at: final(self).spec_jobs()[k as int].started_at,
                ..old(self).spec_jobs()[k as int]
            }),
            final(self).spec_current() == Some(id),
            final(self).spec_active_count() == old(self).spec_active_count() + 1,
            final(self).spec_next_id() == old(self).spec_next_id(),
            final(self).spec_max_concurrent() == old(self).spec_max_concurrent(),
            old(self).spec_single_slot() ==> final(self).spec_single_slot(),
    {
        proof {
            if old(self).spec_single_slot() {
                lemma_count_active_bounds(self.jobs@);
            }
        }
        let id = self.jobs[k].id;
        let job = &mut self.jobs[k];
        job.start();
        proof {
            lemma_count_active_update(old(self).spec_jobs(), k as int, self.jobs@[k as int]);
        }
        self.current = Some(id);
        self.active_count = self.active_count + 1;
        proof {
            if old(self).spec_single_slot() {
                let t = self.jobs@;
                assert forall|x: int|
                    0 <= x < t.len() && spec_is_active(
                        (#[trigger] t[x]).progress.status,
                    ) implies t[x].id == self.spec_current()->0 by {
                    if x != k {
                        lemma_count_active_zero(old(self).spec_jobs(), x);
                    }
                }
            }
        }
        id
    }

    /// Starts the next queued job if the concurrency cap allows: the
    /// earliest job with the highest priority among the queued ones moves
    /// to `Preparing`, becomes current, and its id is returned. Returns
    /// `None`, changing nothing, when the active count has reached the cap
    /// or no job is queued. A terminal or active job is never picked.
    #[verifier::spinoff_prover]
    #[verifier::rlimit(60)]
    pub fn start_next(&mut self) -> (r: Option<ExportJobId>)
        requires
            old(self).spec_wf(),
        ensures
            final(self).spec_wf(),
            r is None ==> *final(self) == *old(self),
            r is None ==> old(self).spec_active_count() >= old(self).spec_max_concurrent() || forall|
                i: int,
            |
                0 <= i < old(self).spec_jobs().len() ==> !((#[trigger] old(self).spec_jobs()[i]).progress.status is Queued),
            r is Some ==> old(self).spec_active_count() < old(self).spec_max_concurrent() && exists|
                k: int,
            |
                #![trigger ExportQueue::spec_best_queued(old(self).spec_jobs(), k)]
                ExportQueue::spec_best_queued(old(self).spec_jobs(), k) && r == Some(
                    old(self).spec_jobs()[k].id,
                ) && ExportQueue::spec_job_started(
                    old(self).spec_jobs(),
                    final(self).spec_jobs(),
                    k,
                ),
            r is Some ==> final(self).spec_current() == r && final(self).spec_active_count() == old(self).spec_active_count() + 1,
            r is Some ==> final(self).spec_next_id() == old(self).spec_next_id() && final(self).spec_max_concurrent() == old(self).spec_max_concurrent(),
            old(self).spec_single_slot() ==> final(self).spec_single_slot(),
            old(self).spec_single_slot() ==> final(self).spec_active_count() <= final(self).spec_max_concurrent(),
    {
        if self.active_count >= self.max_concurrent {
            return None;
        }
        let mut best: Option<usize> = None;
        let mut i: usize = 0;
        while i < self.jobs.len()
            invariant
                0 <= i <= self.jobs@.len(),
                self == old(self),
                old(self).spec_wf(),
                old(self).spec_active_count() < old(self).spec_max_concurrent(),
                best is None ==> forall|k: int|
                    0 <= k < i ==> !((#[trigger] self.jobs@[k]).progress.status is Queued),
                best is Some ==> ({
                    let b = best->0 as int;
                    &&& 0 <= b < i
                    &&& self.jobs@[b].progress.status is Queued
                    &&& forall|k: int|
                        0 <= k < i && (#[trigger] self.jobs@[k]).progress.status is Queued
                            ==> self.jobs@[k].priority <= self.jobs@[b].priority
                    &&& forall|k: int|
                        0 <= k < b && (#[trigger] self.jobs@[k]).progress.status is Queued
                            ==> self.jobs@[k].priority < self.jobs@[b].priority
                }),
            decreases self.jobs@.len() - i,
        {
            if matches!(self.jobs[i].progress.status, ExportStatus::Queued) {
                match best {
                    None => {
                        best = Some(i);
                    },
                    Some(b) => {
                        if self.jobs[i].priority > self.jobs[b].priority {
                            best = Some(i);
                        }
                    },
                }
            }
            i = i + 1;
        }
        match best {
            None => None,
            Some(k) => {
                let id = self.start_job_at(k);
                proof {
                    assert(ExportQueue::spec_best_queued(old(self).spec_jobs(), k as int));
                    assert(ExportQueue::spec_job_started(
                        old(self).spec_jobs(),
                        self.spec_jobs(),
                        k as int,
                    ));
                }
                Some(id)
            },
        }
    }

    /// Sets the maximum number of concurrent exports, which is at least
    /// one.
    pub fn set_max_concurrent(&mut self, max: usize)
        ensures
            final(self).spec_max_concurrent() == if max >= 1 {
                max
            } else {
                1
            },
            final(self).spec_jobs() == old(self).spec_jobs(),
            final(self).spec_next_id() == old(self).spec_next_id(),
            final(self).spec_current() == old(self).spec_current(),
            final(self).spec_active_count() == old(self).spec_active_count(),
            old(self).spec_wf() ==> final(self).spec_wf(),
            old(self).spec_single_slot() && max <= 1 ==> final(self).spec_single_slot(),
    {
        self.max_concurrent = if max >= 1 {
            max
        } else {
            1
        };
    }

    /// Cancels a job. An unknown id and a job already in a terminal status
    /// are each refused with an export error, leaving the queue unchanged.
    /// Otherwise the job moves to `Cancelled` with its end time recorded,
    /// and if it was the current one, the current slot is freed and the
    /// active count drops.
    #[verifier::spinoff_prover]
    #[verifier::rlimit(60)]
    pub fn cancel_job(&mut self, id: ExportJobId) -> (r: VideoEditorResult<()>)
        requires
            old(self).spec_wf(),
        ensures
            final(self).spec_wf(),
            r is Err ==> *final(self) == *old(self),
            r is Err <==> (forall|i: int|
                0 <= i < old(self).spec_jobs().len() ==> (#[trigger] old(self).spec_jobs()[i]).id
                    != id) || (exists|k: int|
                0 <= k < old(self).spec_jobs().len() && (#[trigger] old(self).spec_jobs()[k]).id
                    == id && spec_is_terminal(old(self).spec_jobs()[k].progress.status)),
            r is Ok ==> exists|k: int|
                #![trigger old(self).spec_jobs()[k]]
                {
                    let s = old(self).spec_jobs();
                    &&& 0 <= k < s.len()
                    &&& s[k].id == id
                    &&& !spec_is_terminal(s[k].progress.status)
                    &&& final(self).spec_jobs() == s.update(k, final(self).spec_jobs()[k])
                    &&& final(self).spec_jobs()[k].progress.status is Cancelled
                    &&& final(self).spec_jobs()[k].ended_at is Some
                    &&& final(self).spec_jobs()[k] == (ExportJob {
                        progress: ExportProgress {
                            status: ExportStatus::Cancelled,
                            ..s[k].progress
                        },
                        ended_at: final(self).spec_jobs()[k].ended_at,
                        ..s[k]
                    })
                },
            r is Ok ==> (old(self).spec_current() == Some(id) ==> final(self).spec_current() is None
                && final(self).spec_active_count() == (if old(self).spec_active_count() >= 1 {
                (old(self).spec_active_count() - 1) as usize
            } else {
                0usize
            })),
            r is Ok ==> (old(self).spec_current() != Some(id) ==> final(self).spec_current() == old(self).spec_current() && final(self).spec_active_count() == old(self).spec_active_count()),
            final(self).spec_next_id() == old(self).spec_next_id(),
            final(self).spec_max_concurrent() == old(self).spec_max_concurrent(),
            old(self).spec_single_slot() ==> final(self).spec_single_slot(),
    {
        let mut i: usize = 0;
        while i < self.jobs.len()
            invariant
                0 <= i <= self.jobs@.len(),
                forall|k: int| 0 <= k < i ==> (#[trigger] self.jobs@[k]).id != id,
                self == old(self),
                old(self).spec_wf(),
            decreases self.jobs@.len() - i,
        {
            if self.jobs[i].id == id {
                if self.jobs[i].progress.is_complete() {
                    return Err(
                        VideoEditorError::Export(String::from_str("Cannot cancel completed job")),
                    );
                }
                let ghost was_active = spec_is_active(self.jobs@[i as int].progress.status);
                let job = &mut self.jobs[i];
                job.cancel();
                proof {
                    lemma_count_active_update(old(self).spec_jobs(), i as int, self.jobs@[i as int]);
                }
                let is_current = match self.current {
                    Some(c) => c.0 == id.0,
                    None => false,
                };
                if is_current {
                    self.current = None;
                    self.active_count = if self.active_count >= 1 {
                        self.active_count - 1
                    } else {
                        0
                    };
                }
                proof {
                    if old(self).spec_single_slot() {
                        let s = old(self).spec_jobs();
                        let t = self.jobs@;
                        lemma_count_active_bounds(s);
                        if was_active {
                            lemma_count_active_nonzero(s, i as int);
                            assert(count_active(s) == 1);
                            assert(s[i as int].id == old(self).spec_current()->0);
                            assert(is_current);
                            assert(count_active(t) == 0);
                        } else {
                            assert(count_active(t) == count_active(s));
                            if count_active(s) == 1 && is_current {
                                lemma_count_active_pos(s);
                                let a = choose|a: int|
                                    0 <= a < s.len() && spec_is_active(
                                        (#[trigger] s[a]).progress.status,
                                    );
                                assert(s[a].id == old(self).spec_current()->0);
                                assert(a != i);
                                assert(s[a].id != s[i as int].id);
                                assert(false);
                            }
                            if count_active(t) == 1 {
                                assert(!is_current);
                                assert forall|x: int|
                                    0 <= x < t.len() && spec_is_active(
                                        (#[trigger] t[x]).progress.status,
                                    ) implies t[x].id == self.spec_current()->0 by {
                                    assert(x != i);
                                    assert(t[x] == s[x]);
                                }
                            }
                        }
                    }
                }
                return Ok(());
            }
            i = i + 1;
        }
        Err(VideoEditorError::Export(String::from_str("Job not found")))
    }

    /// Retries a failed or cancelled job: a brand-new queued job with a
    /// fresh id is appended, cloning the original's settings, project and
    /// frame count; the original job is left untouched. Any other status,
    /// and an unknown id, are refused with an export error, leaving the
    /// queue unchanged.
    #[verifier::spinoff_prover]
    pub fn retry_job(&mut self, id: ExportJobId) -> (r: VideoEditorResult<ExportJobId>)
        requires
            old(self).spec_wf(),
            old(self).spec_next_id() < u64::MAX,
        ensures
            final(self).spec_wf(),
            r is Err ==> *final(self) == *old(self),
            r is Err <==> (forall|i: int|
                0 <= i < old(self).spec_jobs().len() ==> (#[trigger] old(self).spec_jobs()[i]).id
                    != id) || (exists|k: int|
                0 <= k < old(self).spec_jobs().len() && (#[trigger] old(self).spec_jobs()[k]).id
                    == id && !(old(self).spec_jobs()[k].progress.status is Failed) && !(old(self).spec_jobs()[k].progress.status is Cancelled)),
            r is Ok ==> r->Ok_0.0 == old(self).spec_next_id() && final(self).spec_next_id() == old(self).spec_next_id() + 1 && exists|k: int|
                #![trigger old(self).spec_jobs()[k]]
                {
                    let s = old(self).spec_jobs();
                    &&& 0 <= k < s.len()
                    &&& s[k].id == id
                    &&& (s[k].progress.status is Failed || s[k].progress.status is Cancelled)
                    &&& final(self).spec_jobs().len() == s.len() + 1
                    &&& final(self).spec_jobs() == s.push(final(self).spec_jobs().last())
                    &&& ({
                        let j = final(self).spec_jobs().last();
                        &&& j.id == r->Ok_0
                        &&& spec_settings_eq(j.settings, s[k].settings)
                        &&& j.progress.status is Queued
                        &&& j.progress.total_frames == s[k].progress.total_frames
                        &&& j.project_id == s[k].project_id
                    })
                },
            final(self).spec_current() == old(self).spec_current(),
            final(self).spec_max_concurrent() == old(self).spec_max_concurrent(),
            final(self).spec_active_count() == old(self).spec_active_count(),
            old(self).spec_single_slot() ==> final(self).spec_single_slot(),
    {
        let mut i: usize = 0;
        while i < self.jobs.len()
            invariant
                0 <= i <= self.jobs@.len(),
                forall|k: int| 0 <= k < i ==> (#[trigger] self.jobs@[k]).id != id,
                self == old(self),
                old(self).spec_wf(),
                old(self).spec_next_id() < u64::MAX,
            decreases self.jobs@.len() - i,
        {
            if self.jobs[i].id == id {
                let retryable = matches!(
                    self.jobs[i].progress.status,
                    ExportStatus::Failed | ExportStatus::Cancelled
                );
                if !retryable {
                    return Err(
                        VideoEditorError::Export(
                            String::from_str("Can only retry failed/cancelled jobs"),
                        ),
                    );
                }
                let settings = self.jobs[i].settings.clone();
                let total_frames = self.jobs[i].progress.total_frames;
                let project_id = self.jobs[i].project_id;
                let new_id = self.add_job(project_id, settings, total_frames);
                return Ok(new_id);
            }
            i = i + 1;
        }
        Err(VideoEditorError::Export(String::from_str("Job not found")))
    }

    /// Drops every completed job from the queue; all other jobs stay, in
    /// order.
    #[verifier::spinoff_prover]
    pub fn clear_completed(&mut self)
        requires
            old(self).spec_wf(),
        ensures
            final(self).spec_wf(),
            final(self).spec_jobs() == spec_without_completed(old(self).spec_jobs()),
            final(self).spec_next_id() == old(self).spec_next_id(),
            final(self).spec_current() == old(self).spec_current(),
            final(self).spec_max_concurrent() == old(self).spec_max_concurrent(),
            final(self).spec_active_count() == old(self).spec_active_count(),
            old(self).spec_single_slot() ==> final(self).spec_single_slot(),
    {
        let mut kept: Vec<ExportJob> = Vec::new();
        loop
            invariant
                old(self).spec_wf(),
                kept@ == spec_without_completed(
                    old(self).spec_jobs().take(
                        (old(self).spec_jobs().len() - self.jobs@.len()) as int,
                    ),
                ),
                self.jobs@ == old(self).spec_jobs().skip(
                    (old(self).spec_jobs().len() - self.jobs@.len()) as int,
                ),
                self.jobs@.len() <= old(self).spec_jobs().len(),
                self.next_id == old(self).spec_next_id(),
                self.current == old(self).spec_current(),
                self.max_concurrent == old(self).spec_max_concurrent(),
                self.active_count == old(self).spec_active_count(),
            ensures
                kept@ == spec_without_completed(old(self).spec_jobs()),
                self.next_id == old(self).spec_next_id(),
                self.current == old(self).spec_current(),
                self.max_concurrent == old(self).spec_max_concurrent(),
                self.active_count == old(self).spec_active_count(),
            decreases self.jobs@.len(),
        {
            if self.jobs.len() == 0 {
                proof {
                    assert(old(self).spec_jobs().take(old(self).spec_jobs().len() as int) =~= old(self).spec_jobs());
                }
                break;
            }
            let ghost s = old(self).spec_jobs();
            let ghost done = (s.len() - self.jobs@.len()) as int;
            let job = self.jobs.remove(0);
            proof {
                assert(self.jobs@ =~= s.skip(done + 1));
                assert(s.take(done + 1).drop_last() =~= s.take(done));
                assert(s.take(done + 1).last() == s[done]);
                assert(job == s[done]);
            }
            let is_completed = matches!(job.progress.status, ExportStatus::Completed);
            if !is_completed {
                kept.push(job);
            }
        }
        proof {
            let s = old(self).spec_jobs();
            assert(s.take(s.len() as int) =~= s);
        }
        self.jobs = kept;
        proof {
            let s = old(self).spec_jobs();
            let t = self.jobs@;
            lemma_without_completed_wf(s);
            lemma_without_completed_count_active(s);
            if old(self).spec_single_slot() && count_active(t) == 1 {
                assert forall|x: int|
                    0 <= x < t.len() && spec_is_active(
                        (#[trigger] t[x]).progress.status,
                    ) implies t[x].id == self.spec_current()->0 by {
                    lemma_without_completed_membership(s, x);
                }
            }
        }
    }

    /// Drops every failed or cancelled job from the queue; all other jobs
    /// stay, in order.
    #[verifier::spinoff_prover]
    pub fn clear_failed(&mut self)
        requires
            old(self).spec_wf(),
        ensures
            final(self).spec_wf(),
            final(self).spec_jobs() == spec_without_failed(old(self).spec_jobs()),
            final(self).spec_next_id() == old(self).spec_next_id(),
            final(self).spec_current() == old(self).spec_current(),
            final(self).spec_max_concurrent() == old(self).spec_max_concurrent(),
            final(self).spec_active_count() == old(self).spec_active_count(),
            old(self).spec_single_slot() ==> final(self).spec_single_slot(),
    {
        let mut kept: Vec<ExportJob> = Vec::new();
        loop
            invariant
                old(self).spec_wf(),
                kept@ == spec_without_failed(
                    old(self).spec_jobs().take(
                        (old(self).spec_jobs().len() - self.jobs@.len()) as int,
                    ),
                ),
                self.jobs@ == old(self).spec_jobs().skip(
                    (old(self).spec_jobs().len() - self.jobs@.len()) as int,
                ),
                self.jobs@.len() <= old(self).spec_jobs().len(),
                self.next_id == old(self).spec_next_id(),
                self.current == old(self).spec_current(),
                self.max_concurrent == old(self).spec_max_concurrent(),
                self.active_count == old(self).spec_active_count(),
            ensures
                kept@ == spec_without_failed(old(self).spec_jobs()),
                self.next_id == old(self).spec_next_id(),
                self.current == old(self).spec_current(),
                self.max_concurrent == old(self).spec_max_concurrent(),
                self.active_count == old(self).spec_active_count(),
            decreases self.jobs@.len(),
        {
            if self.jobs.len() == 0 {
                proof {
                    assert(old(self).spec_jobs().take(old(self).spec_jobs().len() as int) =~= old(self).spec_jobs());
                }
                break;
            }
            let ghost s = old(self).spec_jobs();
            let ghost done = (s.len() - self.jobs@.len()) as int;
            let job = self.jobs.remove(0);
            proof {
                assert(self.jobs@ =~= s.skip(done + 1));
                assert(s.take(done + 1).drop_last() =~= s.take(done));
                assert(s.take(done + 1).last() == s[done]);
                assert(job == s[done]);
            }
            let dropped = matches!(
                job.progress.status,
                ExportStatus::Failed | ExportStatus::Cancelled
            );
            if !dropped {
                kept.push(job);
            }
        }
        proof {
            let s = old(self).spec_jobs();
            assert(s.take(s.len() as int) =~= s);
        }
        self.jobs = kept;
        proof {
            let s = old(self).spec_jobs();
            let t = self.jobs@;
            lemma_without_failed_wf(s);
            lemma_without_failed_count_active(s);
            if old(self).spec_single_slot() && count_active(t) == 1 {
                assert forall|x: int|
                    0 <= x < t.len() && spec_is_active(
                        (#[trigger] t[x]).progress.status,
                    ) implies t[x].id == self.spec_current()->0 by {
                    lemma_without_failed_membership(s, x);
                }
            }
        }
    }
}

impl Default for ExportQueue {
    /// The default queue is empty with a cap of one.
    fn default() -> (r: Self)
        ensures
            r.spec_jobs().len() == 0,
            r.spec_wf(),
            r.spec_single_slot(),
    {
        ExportQueue::new()
    }
}

/// Categories for export presets.
#[derive(Debug, Clone, Copy, PartialEq, Eq, Structural, Hash)]
pub enum PresetCategory {
    /// Social media platforms.
    Social,
    /// Broadcast/TV.
    Broadcast,
    /// Cinema/film.
    Cinema,
    /// Web/streaming.
    Web,
    /// Archive/master.
    Archive,
    /// Mobile devices.
    Mobile,
    /// Custom presets.
    Custom,
}

impl Default for PresetCategory {
    /// The default category is social media.
    fn default() -> (r: Self)
        ensures
            r is Social,
    {
        PresetCategory::Social
    }
}

/// A named export preset bundling a full settings record.
#[derive(Debug, Clone)]
pub struct ExportPreset {
    /// Preset name.
    pub name: String,
    /// Description.
    pub description: String,
    /// Category.
    pub category: PresetCategory,
    /// Export settings.
    pub settings: ExportSettings,
}

impl ExportPreset {
    /// The streaming HD preset: 1080p30 H.264 at 12 Mbps VBR with the
    /// slow preset and 256 kbps stereo AAC, in an MP4 container.
    pub fn streaming_hd() -> (r: Self)
        ensures
            r.name@ == "Streaming HD 1080p"@,
            r.category is Social,
            r.settings.container is Mp4,
            r.settings.video.codec is H264,
            r.settings.video.resolution == (Resolution { width: 1920u32, height: 1080u32 }),
            r.settings.video.frame_rate == (FrameRate { numerator: 30u32, denominator: 1u32 }),
            r.settings.video.bitrate == 12000,
            r.settings.video.quality == 20,
            r.settings.video.rate_control is Vbr,
            r.settings.video.preset is Slow,
            r.settings.audio.codec is Aac,
            r.settings.audio.bitrate == 256,
            r.settings.audio.sample_rate == 48000,
            r.settings.audio.channels == 2,
    {
        ExportPreset {
            name: String::from_str("Streaming HD 1080p"),
            description: String::from_str("Optimized for video sharing platforms"),
            category: PresetCategory::Social,
            settings: ExportSettings {
                container: ContainerFormat::Mp4,
                video: VideoEncodingSettings {
                    codec: VideoCodec::H264,
                    resolution: Resolution::new(1920, 1080),
                    frame_rate: FrameRate::new(30, 1),
                    bitrate: 12000,
                    quality: 20,
                    rate_control: RateControl::Vbr,
                    preset: EncodingPreset::Slow,
                    ..VideoEncodingSettings::default()
                },
                audio: AudioEncodingSettings {
                    codec: AudioCodec::Aac,
                    bitrate: 256,
                    sample_rate: 48000,
                    channels: 2,
                },
                ..ExportSettings::default()
            },
        }
    }

    /// The streaming HD preset under its older name.
    pub fn youtube_1080p() -> (r: Self)
        ensures
            r.name@ == "Streaming HD 1080p"@,
            r.settings.video.resolution == (Resolution { width: 1920u32, height: 1080u32 }),
    {
        ExportPreset::streaming_hd()
    }

    /// The streaming 4K preset: 2160p30 H.264 at 45 Mbps VBR with the
    /// slow preset and 384 kbps stereo AAC, in an MP4 container.
    pub fn streaming_4k() -> (r: Self)
        ensures
            r.name@ == "Streaming 4K"@,
            r.category is Social,
            r.settings.container is Mp4,
            r.settings.video.codec is H264,
            r.settings.video.resolution == (Resolution { width: 3840u32, height: 2160u32 }),
            r.settings.video.bitrate == 45000,
            r.settings.video.quality == 18,
            r.settings.audio.bitrate == 384,
    {
        ExportPreset {
            name: String::from_str("Streaming 4K"),
            description: String::from_str("Optimized for 4K video sharing platforms"),
            category: PresetCategory::Social,
            settings: ExportSettings {
                container: ContainerFormat::Mp4,
                video: VideoEncodingSettings {
                    codec: VideoCodec::H264,
                    resolution: Resolution::new(3840, 2160),
                    frame_rate: FrameRate::new(30, 1),
                    bitrate: 45000,
                    quality: 18,
                    rate_control: RateControl::Vbr,
                    preset: EncodingPreset::Slow,
                    ..VideoEncodingSettings::default()
                },
                audio: AudioEncodingSettings {
                    codec: AudioCodec::Aac,
                    bitrate: 384,
                    sample_rate: 48000,
                    channels: 2,
                },
                ..ExportSettings::default()
            },
        }
    }

    /// The streaming 4K preset under its older name.
    pub fn youtube_4k() -> (r: Self)
        ensures
            r.name@ == "Streaming 4K"@,
            r.settings.video.resolution == (Resolution { width: 3840u32, height: 2160u32 }),
    {
        ExportPreset::streaming_4k()
    }

    /// The ProRes 422 HQ archive preset: 1080p24 at about 220 Mbps,
    /// constant quality, 10-bit 4:2:2, with stereo PCM in a MOV
    /// container.
    pub fn prores_hq() -> (r: Self)
        ensures
            r.name@ == "ProRes 422 HQ"@,
            r.category is Archive,
            r.settings.container is Mov,
            r.settings.video.codec == VideoCodec::ProRes(ProResProfile::Hq),
            r.settings.video.resolution == (Resolution { width: 1920u32, height: 1080u32 }),
            r.settings.video.frame_rate == (FrameRate { numerator: 24u32, denominator: 1u32 }),
            r.settings.video.bitrate == 220000,
            r.settings.video.rate_control is ConstantQuality,
            r.settings.video.pixel_format is Yuv422p10,
            r.settings.audio.codec is Pcm,
            r.settings.audio.bitrate == 0,
    {
        ExportPreset {
            name: String::from_str("ProRes 422 HQ"),
            description: String::from_str("High quality archive format"),
            category: PresetCategory::Archive,
            settings: ExportSettings {
                container: ContainerFormat::Mov,
                video: VideoEncodingSettings {
                    codec: VideoCodec::ProRes(ProResProfile::Hq),
                    resolution: Resolution::new(1920, 1080),
                    frame_rate: FrameRate::new(24, 1),
                    bitrate: 220000,
                    quality: 0,
                    rate_control: RateControl::ConstantQuality,
                    pixel_format: PixelFormat::Yuv422p10,
                    ..VideoEncodingSettings::default()
                },
                audio: AudioEncodingSettings {
                    codec: AudioCodec::Pcm,
                    bitrate: 0,
                    sample_rate: 48000,
                    channels: 2,
                },
                ..ExportSettings::default()
            },
        }
    }
}

/// The queued jobs of a sequence, in order.
pub open spec fn spec_queued_of(s: Seq<ExportJob>) -> Seq<ExportJob>
    decreases s.len(),
{
    if s.len() == 0 {
        Seq::empty()
    } else {
        let rest = spec_queued_of(s.drop_last());
        if s.last().progress.status is Queued {
            rest.push(s.last())
        } else {
            rest
        }
    }
}

/// A job inserted into a priority-descending sequence after every job of
/// equal or higher priority: the stable insertion position.
pub open spec fn spec_insert_by_priority(s: Seq<ExportJob>, j: ExportJob) -> Seq<ExportJob>
    decreases s.len(),
{
    if s.len() == 0 {
        seq![j]
    } else if s[0].priority >= j.priority {
        seq![s[0]] + spec_insert_by_priority(s.skip(1), j)
    } else {
        seq![j] + s
    }
}

/// A sequence stably sorted by descending priority: jobs of equal
/// priority keep their relative order.
pub open spec fn spec_by_priority(s: Seq<ExportJob>) -> Seq<ExportJob>
    decreases s.len(),
{
    if s.len() == 0 {
        Seq::empty()
    } else {
        spec_insert_by_priority(spec_by_priority(s.drop_last()), s.last())
    }
}

/// On a priority-descending sequence, the stable insertion lands exactly
/// at the first position whose priority is strictly below the new job's.
proof fn lemma_insert_by_priority_at(s: Seq<ExportJob>, j: ExportJob, p: int)
    requires
        forall|a: int, b: int|
            0 <= a < b < s.len() ==> (#[trigger] s[a]).priority >= (#[trigger] s[b]).priority,
        0 <= p <= s.len(),
        forall|a: int| 0 <= a < p ==> (#[trigger] s[a]).priority >= j.priority,
        p < s.len() ==> s[p].priority < j.priority,
    ensures
        spec_insert_by_priority(s, j) == s.take(p) + seq![j] + s.skip(p),
    decreases s.len(),
{
    if s.len() == 0 {
        assert(spec_insert_by_priority(s, j) =~= s.take(p) + seq![j] + s.skip(p));
    } else if s[0].priority >= j.priority {
        assert(p >= 1) by {
            if p == 0 {
                assert(s[0].priority < j.priority);
            }
        }
        let t = s.skip(1);
        assert forall|a: int, b: int|
            0 <= a < b < t.len() implies (#[trigger] t[a]).priority >= (
        #[trigger] t[b]).priority by {
            assert(t[a] == s[a + 1] && t[b] == s[b + 1]);
        }
        assert forall|a: int| 0 <= a < p - 1 implies (#[trigger] t[a]).priority
            >= j.priority by {
            assert(t[a] == s[a + 1]);
        }
        if p - 1 < t.len() {
            assert(t[p - 1] == s[p as int]);
        }
        lemma_insert_by_priority_at(t, j, p - 1);
        assert(seq![s[0]] + (t.take(p - 1) + seq![j] + t.skip(p - 1)) =~= s.take(p) + seq![j]
            + s.skip(p));
    } else {
        assert(p == 0);
        assert(seq![j] + s =~= s.take(p) + seq![j] + s.skip(p));
    }
}

/// The active jobs of a sequence, in order.
pub open spec fn spec_active_of(s: Seq<ExportJob>) -> Seq<ExportJob>
    decreases s.len(),
{
    if s.len() == 0 {
        Seq::empty()
    } else {
        let rest = spec_active_of(s.drop_last());
        if spec_is_active(s.last().progress.status) {
            rest.push(s.last())
        } else {
            rest
        }
    }
}

/// The completed jobs of a sequence, in order.
pub open spec fn spec_completed_of(s: Seq<ExportJob>) -> Seq<ExportJob>
    decreases s.len(),
{
    if s.len() == 0 {
        Seq::empty()
    } else {
        let rest = spec_completed_of(s.drop_last());
        if s.last().progress.status is Completed {
            rest.push(s.last())
        } else {
            rest
        }
    }
}

/// The failed jobs of a sequence, in order.
pub open spec fn spec_failed_of(s: Seq<ExportJob>) -> Seq<ExportJob>
    decreases s.len(),
{
    if s.len() == 0 {
        Seq::empty()
    } else {
        let rest = spec_failed_of(s.drop_last());
        if s.last().progress.status is Failed {
            rest.push(s.last())
        } else {
            rest
        }
    }
}

/// The sequence with its completed jobs dropped, in order.
pub open spec fn spec_without_completed(s: Seq<ExportJob>) -> Seq<ExportJob>
    decreases s.len(),
{
    if s.len() == 0 {
        Seq::empty()
    } else {
        let rest = spec_without_completed(s.drop_last());
        if s.last().progress.status is Completed {
            rest
        } else {
            rest.push(s.last())
        }
    }
}

/// The sequence with its failed and cancelled jobs dropped, in order.
pub open spec fn spec_without_failed(s: Seq<ExportJob>) -> Seq<ExportJob>
    decreases s.len(),
{
    if s.len() == 0 {
        Seq::empty()
    } else {
        let rest = spec_without_failed(s.drop_last());
        if s.last().progress.status is Failed || s.last().progress.status is Cancelled {
            rest
        } else {
            rest.push(s.last())
        }
    }
}

/// With a positive active count, some job is active.
proof fn lemma_count_active_pos(s: Seq<ExportJob>)
    requires
        count_active(s) >= 1,
    ensures
        exists|a: int|
            0 <= a < s.len() && spec_is_active((#[trigger] s[a]).progress.status),
    decreases s.len(),
{
    if spec_is_active(s.last().progress.status) {
        assert(0 <= s.len() - 1 < s.len() && spec_is_active(s[s.len() - 1].progress.status));
    } else {
        lemma_count_active_pos(s.drop_last());
        let a = choose|a: int|
            0 <= a < s.drop_last().len() && spec_is_active(
                (#[trigger] s.drop_last()[a]).progress.status,
            );
        assert(s[a] == s.drop_last()[a]);
    }
}

/// An active job makes the active count positive.
proof fn lemma_count_active_nonzero(s: Seq<ExportJob>, i: int)
    requires
        0 <= i < s.len(),
        spec_is_active(s[i].progress.status),
    ensures
        count_active(s) >= 1,
    decreases s.len(),
{
    lemma_count_active_bounds(s.drop_last());
    if i < s.len() - 1 {
        lemma_count_active_nonzero(s.drop_last(), i);
    }
}

/// Every job kept by the completed-clearing pass is one of the original
/// jobs.
proof fn lemma_without_completed_membership(s: Seq<ExportJob>, i: int)
    requires
        0 <= i < spec_without_completed(s).len(),
    ensures
        exists|k: int| 0 <= k < s.len() && s[k] == spec_without_completed(s)[i],
    decreases s.len(),
{
    let f = spec_without_completed(s);
    let fd = spec_without_completed(s.drop_last());
    if i < fd.len() {
        lemma_without_completed_membership(s.drop_last(), i);
        let k = choose|k: int| 0 <= k < s.drop_last().len() && s.drop_last()[k] == fd[i];
        assert(s[k] == f[i]);
    } else {
        assert(s[s.len() - 1] == f[i]);
    }
}

/// Clearing completed jobs keeps distinct ids distinct.
proof fn lemma_without_completed_wf(s: Seq<ExportJob>)
    requires
        forall|i: int, j: int|
            0 <= i < s.len() && 0 <= j < s.len() && i != j ==> (#[trigger] s[i]).id != (
            #[trigger] s[j]).id,
    ensures
        forall|i: int, j: int|
            0 <= i < spec_without_completed(s).len() && 0 <= j < spec_without_completed(s).len()
                && i != j ==> (#[trigger] spec_without_completed(s)[i]).id != (
            #[trigger] spec_without_completed(s)[j]).id,
        forall|i: int|
            0 <= i < spec_without_completed(s).len() ==> exists|k: int|
                0 <= k < s.len() && s[k] == #[trigger] spec_without_completed(s)[i],
    decreases s.len(),
{
    let f = spec_without_completed(s);
    if s.len() > 0 {
        lemma_without_completed_wf(s.drop_last());
        let fd = spec_without_completed(s.drop_last());
        assert forall|i: int, j: int|
            0 <= i < f.len() && 0 <= j < f.len() && i != j implies (#[trigger] f[i]).id != (
        #[trigger] f[j]).id by {
            if i < fd.len() && j < fd.len() {
            } else if i >= fd.len() && j >= fd.len() {
            } else {
                let a = if i < fd.len() { i } else { j };
                let b = if i < fd.len() { j } else { i };
                assert(f[b] == s.last());
                lemma_without_completed_membership(s.drop_last(), a);
                let k = choose|k: int| 0 <= k < s.drop_last().len() && s.drop_last()[k] == fd[a];
                assert(s[k] == f[a]);
                assert(s[k].id != s[s.len() - 1].id);
            }
        }
    }
    assert forall|i: int| 0 <= i < f.len() implies exists|k: int|
        0 <= k < s.len() && s[k] == #[trigger] f[i] by {
        lemma_without_completed_membership(s, i);
    }
}

/// Clearing completed jobs does not change the active count.
proof fn lemma_without_completed_count_active(s: Seq<ExportJob>)
    ensures
        count_active(spec_without_completed(s)) == count_active(s),
    decreases s.len(),
{
    if s.len() > 0 {
        lemma_without_completed_count_active(s.drop_last());
        let fd = spec_without_completed(s.drop_last());
        if !(s.last().progress.status is Completed) {
            assert(fd.push(s.last()).drop_last() =~= fd);
        }
    }
}

/// Every job kept by the failure-clearing pass is one of the original
/// jobs.
proof fn lemma_without_failed_membership(s: Seq<ExportJob>, i: int)
    requires
        0 <= i < spec_without_failed(s).len(),
    ensures
        exists|k: int| 0 <= k < s.len() && s[k] == spec_without_failed(s)[i],
    decreases s.len(),
{
    let f = spec_without_failed(s);
    let fd = spec_without_failed(s.drop_last());
    if i < fd.len() {
        lemma_without_failed_membership(s.drop_last(), i);
        let k = choose|k: int| 0 <= k < s.drop_last().len() && s.drop_last()[k] == fd[i];
        assert(s[k] == f[i]);
    } else {
        assert(s[s.len() - 1] == f[i]);
    }
}

/// Clearing failed and cancelled jobs keeps distinct ids distinct.
proof fn lemma_without_failed_wf(s: Seq<ExportJob>)
    requires
        forall|i: int, j: int|
            0 <= i < s.len() && 0 <= j < s.len() && i != j ==> (#[trigger] s[i]).id != (
            #[trigger] s[j]).id,
    ensures
        forall|i: int, j: int|
            0 <= i < spec_without_failed(s).len() && 0 <= j < spec_without_failed(s).len() && i != j
                ==> (#[trigger] spec_without_failed(s)[i]).id != (
            #[trigger] spec_without_failed(s)[j]).id,
        forall|i: int|
            0 <= i < spec_without_failed(s).len() ==> exists|k: int|
                0 <= k < s.len() && s[k] == #[trigger] spec_without_failed(s)[i],
    decreases s.len(),
{
    let f = spec_without_failed(s);
    if s.len() > 0 {
        lemma_without_failed_wf(s.drop_last());
        let fd = spec_without_failed(s.drop_last());
        assert forall|i: int, j: int|
            0 <= i < f.len() && 0 <= j < f.len() && i != j implies (#[trigger] f[i]).id != (
        #[trigger] f[j]).id by {
            if i < fd.len() && j < fd.len() {
            } else if i >= fd.len() && j >= fd.len() {
            } else {
                let a = if i < fd.len() { i } else { j };
                let b = if i < fd.len() { j } else { i };
                assert(f[b] == s.last());
                lemma_without_failed_membership(s.drop_last(), a);
                let k = choose|k: int| 0 <= k < s.drop_last().len() && s.drop_last()[k] == fd[a];
                assert(s[k] == f[a]);
                assert(s[k].id != s[s.len() - 1].id);
            }
        }
    }
    assert forall|i: int| 0 <= i < f.len() implies exists|k: int|
        0 <= k < s.len() && s[k] == #[trigger] f[i] by {
        lemma_without_failed_membership(s, i);
    }
}

/// Clearing failed and cancelled jobs does not change the active count.
proof fn lemma_without_failed_count_active(s: Seq<ExportJob>)
    ensures
        count_active(spec_without_failed(s)) == count_active(s),
    decreases s.len(),
{
    if s.len() > 0 {
        lemma_without_failed_count_active(s.drop_last());
        let fd = spec_without_failed(s.drop_last());
        if !(s.last().progress.status is Failed) && !(s.last().progress.status is Cancelled) {
            assert(fd.push(s.last()).drop_last() =~= fd);
        }
    }
}

} // verus!
