//! Codec identifiers and encoder/decoder configuration.

use crate::text::str_eq;
use vstd::prelude::*;

verus! {

/// Codec identifier.
#[derive(Debug, Clone, Copy, PartialEq, Eq, Structural, Hash)]
pub enum CodecId {
    /// H.264 / AVC.
    H264,
    /// H.265 / HEVC.
    H265,
    /// VP8.
    Vp8,
    /// VP9.
    Vp9,
    /// AV1.
    Av1,
    /// Apple ProRes.
    ProRes,
    /// DNxHD/DNxHR.
    DnxHd,
    /// JPEG 2000.
    Jpeg2000,
    /// FFV1 (lossless).
    Ffv1,
    /// Raw video (uncompressed).
    RawVideo,
    /// AAC.
    Aac,
    /// MP3.
    Mp3,
    /// Opus.
    Opus,
    /// FLAC (lossless).
    Flac,
    /// PCM (uncompressed).
    Pcm,
    /// Vorbis.
    Vorbis,
    /// AC-3 / Dolby Digital.
    Ac3,
    /// E-AC-3 / Dolby Digital Plus.
    Eac3,
    /// DTS.
    Dts,
    /// Unknown codec.
    Unknown,
}

impl CodecId {
    /// Returns whether this is a video codec.
    pub fn is_video(&self) -> (r: bool)
        ensures
            r == (self is H264 || self is H265 || self is Vp8 || self is Vp9 || self is Av1
                || self is ProRes || self is DnxHd || self is Jpeg2000 || self is Ffv1
                || self is RawVideo),
    {
        matches!(
            self,
            CodecId::H264 | CodecId::H265 | CodecId::Vp8 | CodecId::Vp9 | CodecId::Av1
                | CodecId::ProRes | CodecId::DnxHd | CodecId::Jpeg2000 | CodecId::Ffv1
                | CodecId::RawVideo
        )
    }

    /// Returns whether this is an audio codec.
    pub fn is_audio(&self) -> (r: bool)
        ensures
            r == (self is Aac || self is Mp3 || self is Opus || self is Flac || self is Pcm
                || self is Vorbis || self is Ac3 || self is Eac3 || self is Dts),
    {
        matches!(
            self,
            CodecId::Aac | CodecId::Mp3 | CodecId::Opus | CodecId::Flac | CodecId::Pcm
                | CodecId::Vorbis | CodecId::Ac3 | CodecId::Eac3 | CodecId::Dts
        )
    }

    /// Returns whether this codec is lossless.
    pub fn is_lossless(&self) -> (r: bool)
        ensures
            r == (self is Flac || self is Ffv1 || self is Pcm || self is RawVideo),
    {
        matches!(self, CodecId::Flac | CodecId::Ffv1 | CodecId::Pcm | CodecId::RawVideo)
    }

    /// Returns the codec's display name.
    pub fn name(&self) -> (r: &'static str)
        ensures
            self is H264 ==> r@ == "H.264/AVC"@,
            self is H265 ==> r@ == "H.265/HEVC"@,
            self is Vp8 ==> r@ == "VP8"@,
            self is Vp9 ==> r@ == "VP9"@,
            self is Av1 ==> r@ == "AV1"@,
            self is ProRes ==> r@ == "Apple ProRes"@,
            self is DnxHd ==> r@ == "DNxHD/DNxHR"@,
            self is Jpeg2000 ==> r@ == "JPEG 2000"@,
            self is Ffv1 ==> r@ == "FFV1"@,
            self is RawVideo ==> r@ == "Raw Video"@,
            self is Aac ==> r@ == "AAC"@,
            self is Mp3 ==> r@ == "MP3"@,
            self is Opus ==> r@ == "Opus"@,
            self is Flac ==> r@ == "FLAC"@,
            self is Pcm ==> r@ == "PCM"@,
            self is Vorbis ==> r@ == "Vorbis"@,
            self is Ac3 ==> r@ == "AC-3"@,
            self is Eac3 ==> r@ == "E-AC-3"@,
            self is Dts ==> r@ == "DTS"@,
            self is Unknown ==> r@ == "Unknown"@,
    {
        match self {
            CodecId::H264 => "H.264/AVC",
            CodecId::H265 => "H.265/HEVC",
            CodecId::Vp8 => "VP8",
            CodecId::Vp9 => "VP9",
            CodecId::Av1 => "AV1",
            CodecId::ProRes => "Apple ProRes",
            CodecId::DnxHd => "DNxHD/DNxHR",
            CodecId::Jpeg2000 => "JPEG 2000",
            CodecId::Ffv1 => "FFV1",
            CodecId::RawVideo => "Raw Video",
            CodecId::Aac => "AAC",
            CodecId::Mp3 => "MP3",
            CodecId::Opus => "Opus",
            CodecId::Flac => "FLAC",
            CodecId::Pcm => "PCM",
            CodecId::Vorbis => "Vorbis",
            CodecId::Ac3 => "AC-3",
            CodecId::Eac3 => "E-AC-3",
            CodecId::Dts => "DTS",
            CodecId::Unknown => "Unknown",
        }
    }
}

impl Default for CodecId {
    /// The default codec is unknown.
    fn default() -> (r: Self)
        ensures
            r is Unknown,
    {
        CodecId::Unknown
    }
}

/// H.264 profile.
#[derive(Debug, Clone, Copy, PartialEq, Eq, Structural, Hash)]
pub enum H264Profile {
    /// Baseline profile.
    Baseline,
    /// Main profile.
    Main,
    /// High profile.
    High,
    /// High 10 profile (10-bit).
    High10,
    /// High 4:2:2 profile.
    High422,
    /// High 4:4:4 profile.
    High444,
}

/// H.265 profile.
#[derive(Debug, Clone, Copy, PartialEq, Eq, Structural, Hash)]
pub enum H265Profile {
    /// Main profile.
    Main,
    /// Main 10 profile (10-bit).
    Main10,
    /// Main 12 profile (12-bit).
    Main12,
    /// Main Still Picture.
    MainStillPicture,
    /// Main 4:2:2 10-bit.
    Main42210,
    /// Main 4:4:4.
    Main444,
}

/// AV1 profile.
#[derive(Debug, Clone, Copy, PartialEq, Eq, Structural, Hash)]
pub enum Av1Profile {
    /// Main profile (8-bit, 4:2:0).
    Main,
    /// High profile (8-bit, 4:4:4).
    High,
    /// Professional profile (up to 12-bit).
    Professional,
}

/// ProRes variant.
#[derive(Debug, Clone, Copy, PartialEq, Eq, Structural, Hash)]
pub enum ProResVariant {
    /// Proxy quality.
    Proxy,
    /// LT (light) quality.
    Lt,
    /// Standard quality.
    Standard,
    /// HQ (high quality).
    Hq,
    /// 4444 (with alpha).
    P4444,
    /// 4444 XQ (highest quality).
    P4444xq,
}

/// Rate control mode for encoding.
#[derive(Debug, Clone, Copy, PartialEq, Eq, Structural, Hash)]
pub enum RateControlMode {
    /// Constant quality factor.
    Cqf(u8),
    /// Constant rate factor.
    Crf(u8),
    /// Constant bitrate.
    Cbr,
    /// Variable bitrate.
    Vbr,
    /// Average bitrate.
    Abr,
    /// Two-pass encoding.
    TwoPass,
}

/// Replaces the value under a key in a list of named options, or appends
/// the pair when the key is absent.
fn set_string_option(options: &mut Vec<(String, String)>, key: String, value: String)
    ensures
        (exists|i: int|
            0 <= i < old(options)@.len() && (#[trigger] old(options)@[i]).0@ == key@) ==> exists|
            k: int,
        |
            0 <= k < old(options)@.len() && (#[trigger] old(options)@[k]).0@ == key@ && final(options)@ == old(options)@.update(k, (old(options)@[k].0, value)),
        (forall|i: int| 0 <= i < old(options)@.len() ==> (#[trigger] old(options)@[i]).0@ != key@)
            ==> final(options)@ == old(options)@.push((key, value)),
{
    let mut i: usize = 0;
    while i < options.len()
        invariant
            0 <= i <= options@.len(),
            forall|k: int| 0 <= k < i ==> (#[trigger] options@[k]).0@ != key@,
            options == old(options),
        decreases options@.len() - i,
    {
        if str_eq(options[i].0.as_str(), key.as_str()) {
            let name = options.remove(i);
            options.insert(i, (name.0, value));
            proof {
                assert(options@ =~= old(options)@.update(i as int, (old(options)@[i as int].0, value)));
            }
            return ;
        }
        i = i + 1;
    }
    options.push((key, value));
}

/// Video encoder configuration.
#[derive(Debug, Clone)]
pub struct EncoderConfig {
    /// Codec to use.
    pub codec: CodecId,
    /// Frame width.
    pub width: u32,
    /// Frame height.
    pub height: u32,
    /// Target bitrate in bits per second.
    pub bitrate: u64,
    /// Maximum bitrate in bits per second.
    pub max_bitrate: Option<u64>,
    /// Buffer size in bits.
    pub buffer_size: Option<u64>,
    /// Rate control mode.
    pub rate_control: RateControlMode,
    /// Keyframe interval (GOP size).
    pub keyframe_interval: u32,
    /// B-frame count.
    pub b_frames: u8,
    /// Reference frame count.
    pub ref_frames: u8,
    /// Preset name.
    pub preset: String,
    /// Tuning option.
    pub tune: Option<String>,
    /// Additional codec-specific options.
    pub extra_options: Vec<(String, String)>,
}

impl EncoderConfig {
    /// Creates a config with sensible defaults: 10 Mbps, CRF 23, a GOP of
    /// 250, two B-frames, three references and the medium preset.
    pub fn new(codec: CodecId, width: u32, height: u32) -> (r: Self)
        ensures
            r.codec == codec,
            r.width == width,
            r.height == height,
            r.bitrate == 10_000_000,
            r.max_bitrate is None,
            r.buffer_size is None,
            r.rate_control == RateControlMode::Crf(23),
            r.keyframe_interval == 250,
            r.b_frames == 2,
            r.ref_frames == 3,
            r.preset@ == "medium"@,
            r.tune is None,
            r.extra_options@.len() == 0,
    {
        EncoderConfig {
            codec,
            width,
            height,
            bitrate: 10_000_000,
            max_bitrate: None,
            buffer_size: None,
            rate_control: RateControlMode::Crf(23),
            keyframe_interval: 250,
            b_frames: 2,
            ref_frames: 3,
            preset: String::from_str("medium"),
            tune: None,
            extra_options: Vec::new(),
        }
    }

    /// Creates a high-quality config: 50 Mbps with an 80 Mbps cap, CRF
    /// 18, a GOP of 120, four B-frames, five references, the slow preset
    /// tuned for film.
    pub fn high_quality(codec: CodecId, width: u32, height: u32) -> (r: Self)
        ensures
            r.codec == codec,
            r.width == width,
            r.height == height,
            r.bitrate == 50_000_000,
            r.max_bitrate == Some(80_000_000u64),
            r.buffer_size == Some(100_000_000u64),
            r.rate_control == RateControlMode::Crf(18),
            r.keyframe_interval == 120,
            r.b_frames == 4,
            r.ref_frames == 5,
            r.preset@ == "slow"@,
            r.tune is Some,
            r.tune->0@ == "film"@,
    {
        EncoderConfig {
            codec,
            width,
            height,
            bitrate: 50_000_000,
            max_bitrate: Some(80_000_000),
            buffer_size: Some(100_000_000),
            rate_control: RateControlMode::Crf(18),
            keyframe_interval: 120,
            b_frames: 4,
            ref_frames: 5,
            preset: String::from_str("slow"),
            tune: Some(String::from_str("film")),
            extra_options: Vec::new(),
        }
    }

    /// Creates a fast preview config: 2 Mbps, CRF 28, a GOP of 30, no
    /// B-frames, one reference, the ultrafast preset tuned for zero
    /// latency.
    pub fn fast_preview(codec: CodecId, width: u32, height: u32) -> (r: Self)
        ensures
            r.codec == codec,
            r.width == width,
            r.height == height,
            r.bitrate == 2_000_000,
            r.rate_control == RateControlMode::Crf(28),
            r.keyframe_interval == 30,
            r.b_frames == 0,
            r.ref_frames == 1,
            r.preset@ == "ultrafast"@,
            r.tune is Some,
            r.tune->0@ == "zerolatency"@,
    {
        EncoderConfig {
            codec,
            width,
            height,
            bitrate: 2_000_000,
            max_bitrate: None,
            buffer_size: None,
            rate_control: RateControlMode::Crf(28),
            keyframe_interval: 30,
            b_frames: 0,
            ref_frames: 1,
            preset: String::from_str("ultrafast"),
            tune: Some(String::from_str("zerolatency")),
            extra_options: Vec::new(),
        }
    }

    /// Sets an extra codec option, replacing the value of an existing key.
    pub fn set_option(&mut self, key: String, value: String)
        ensures
            final(self).codec == old(self).codec,
            final(self).width == old(self).width,
            final(self).height == old(self).height,
            (forall|i: int|
                0 <= i < old(self).extra_options@.len() ==> (#[trigger] old(self).extra_options@[i]).0@ != key@) ==> final(self).extra_options@ == old(self).extra_options@.push((key, value)),
    {
        set_string_option(&mut self.extra_options, key, value);
    }
}

impl Default for EncoderConfig {
    /// The default encoder targets Full HD H.264.
    fn default() -> (r: Self)
        ensures
            r.codec is H264,
            r.width == 1920,
            r.height == 1080,
    {
        EncoderConfig::new(CodecId::H264, 1920, 1080)
    }
}

/// Hardware acceleration preference.
#[derive(Debug, Clone, Copy, PartialEq, Eq, Structural, Hash)]
pub enum HwAccelPreference {
    /// Automatic selection.
    Auto,
    /// Prefer NVIDIA NVENC/NVDEC.
    Nvenc,
    /// Prefer AMD VCE/VCN.
    Amd,
    /// Prefer Intel QuickSync.
    QuickSync,
    /// Prefer Vulkan Video.
    Vulkan,
    /// Software only.
    Disabled,
}

impl HwAccelPreference {
    /// Returns whether this preference allows hardware acceleration.
    pub fn allows_hw(&self) -> (r: bool)
        ensures
            r == !(self is Disabled),
    {
        !matches!(self, HwAccelPreference::Disabled)
    }
}

impl Default for HwAccelPreference {
    /// The default preference is automatic.
    fn default() -> (r: Self)
        ensures
            r is Auto,
    {
        HwAccelPreference::Auto
    }
}

/// Video decoder configuration.
#[derive(Debug, Clone)]
pub struct DecoderConfig {
    /// Codec to use.
    pub codec: CodecId,
    /// Hardware acceleration preference.
    pub hw_accel: HwAccelPreference,
    /// Thread count (0 = automatic).
    pub threads: u32,
    /// Low-latency mode.
    pub low_latency: bool,
    /// Skip the loop filter (deblocking).
    pub skip_loop_filter: bool,
    /// Skip IDCT/rescaling.
    pub skip_idct: bool,
    /// Frame drop threshold (-1 = none).
    pub framedrop_threshold: i32,
    /// Additional codec-specific options.
    pub extra_options: Vec<(String, String)>,
}

impl DecoderConfig {
    /// Creates a decoder config with defaults: automatic acceleration and
    /// threads, nothing skipped, no frame dropping.
    pub fn new(codec: CodecId) -> (r: Self)
        ensures
            r.codec == codec,
            r.hw_accel is Auto,
            r.threads == 0,
            !r.low_latency,
            !r.skip_loop_filter,
            !r.skip_idct,
            r.framedrop_threshold == -1,
            r.extra_options@.len() == 0,
    {
        DecoderConfig {
            codec,
            hw_accel: HwAccelPreference::Auto,
            threads: 0,
            low_latency: false,
            skip_loop_filter: false,
            skip_idct: false,
            framedrop_threshold: -1,
            extra_options: Vec::new(),
        }
    }

    /// Creates a low-latency decoder config: one thread, low-latency mode
    /// on and frames dropped from the start.
    pub fn low_latency(codec: CodecId) -> (r: Self)
        ensures
            r.codec == codec,
            r.hw_accel is Auto,
            r.threads == 1,
            r.low_latency,
            r.framedrop_threshold == 0,
    {
        DecoderConfig {
            codec,
            hw_accel: HwAccelPreference::Auto,
            threads: 1,
            low_latency: true,
            skip_loop_filter: false,
            skip_idct: false,
            framedrop_threshold: 0,
            extra_options: Vec::new(),
        }
    }
}

impl Default for DecoderConfig {
    /// The default decoder has an unknown codec.
    fn default() -> (r: Self)
        ensures
            r.codec is Unknown,
    {
        DecoderConfig::new(CodecId::Unknown)
    }
}

/// Codec parameters container.
#[derive(Debug, Clone)]
pub struct CodecParams {
    /// Codec id.
    pub codec_id: CodecId,
    /// Extradata (codec-specific header).
    pub extradata: Option<Vec<u8>>,
    /// Width for video.
    pub width: Option<u32>,
    /// Height for video.
    pub height: Option<u32>,
    /// Bitrate.
    pub bitrate: Option<u64>,
    /// Sample rate for audio.
    pub sample_rate: Option<u32>,
    /// Channel count for audio.
    pub channels: Option<u8>,
    /// Bits per sample.
    pub bits: Option<u8>,
}

impl CodecParams {
    /// Creates empty codec parameters.
    pub fn new(codec_id: CodecId) -> (r: Self)
        ensures
            r.codec_id == codec_id,
            r.extradata is None,
            r.width is None,
            r.height is None,
            r.bitrate is None,
            r.sample_rate is None,
            r.channels is None,
            r.bits is None,
    {
        CodecParams {
            codec_id,
            extradata: None,
            width: None,
            height: None,
            bitrate: None,
            sample_rate: None,
            channels: None,
            bits: None,
        }
    }

    /// Creates video codec parameters with a geometry.
    pub fn video(codec_id: CodecId, width: u32, height: u32) -> (r: Self)
        ensures
            r.codec_id == codec_id,
            r.width == Some(width),
            r.height == Some(height),
            r.sample_rate is None,
            r.channels is None,
    {
        CodecParams { width: Some(width), height: Some(height), ..CodecParams::new(codec_id) }
    }

    /// Creates audio codec parameters with a sample rate and channel
    /// count.
    pub fn audio(codec_id: CodecId, sample_rate: u32, channels: u8) -> (r: Self)
        ensures
            r.codec_id == codec_id,
            r.sample_rate == Some(sample_rate),
            r.channels == Some(channels),
            r.width is None,
            r.height is None,
    {
        CodecParams {
            sample_rate: Some(sample_rate),
            channels: Some(channels),
            ..CodecParams::new(codec_id)
        }
    }
}

impl Default for CodecParams {
    /// The default parameters have an unknown codec.
    fn default() -> (r: Self)
        ensures
            r.codec_id is Unknown,
    {
        CodecParams::new(CodecId::Unknown)
    }
}

} // verus!
