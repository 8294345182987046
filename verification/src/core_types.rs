//! Core value types: resolutions, frame rates, codec format enums, time
//! positions with millisecond precision, and wall-clock timestamps.

use crate::text::{spec_all_digits, spec_digits_val, spec_find, find_char, parse_u64};
use vstd::prelude::*;
use vstd::string::StrSliceExecFns;

verus! {

/// Video resolution in pixels.
#[derive(Debug, Clone, Copy, PartialEq, Eq, Structural, Hash)]
pub struct Resolution {
    /// Frame width in pixels.
    pub width: u32,
    /// Frame height in pixels.
    pub height: u32,
}

impl Resolution {
    /// Creates a new resolution.
    pub fn new(width: u32, height: u32) -> (r: Self)
        ensures
            r.width == width,
            r.height == height,
    {
        Resolution { width, height }
    }

    /// SD resolution (720x480).
    pub fn sd() -> (r: Self)
        ensures
            r == (Resolution { width: 720u32, height: 480u32 }),
    {
        Resolution { width: 720, height: 480 }
    }

    /// HD resolution (1280x720).
    pub fn hd() -> (r: Self)
        ensures
            r == (Resolution { width: 1280u32, height: 720u32 }),
    {
        Resolution { width: 1280, height: 720 }
    }

    /// Full HD resolution (1920x1080).
    pub fn fhd() -> (r: Self)
        ensures
            r == (Resolution { width: 1920u32, height: 1080u32 }),
    {
        Resolution { width: 1920, height: 1080 }
    }

    /// QHD/1440p resolution (2560x1440).
    pub fn qhd() -> (r: Self)
        ensures
            r == (Resolution { width: 2560u32, height: 1440u32 }),
    {
        Resolution { width: 2560, height: 1440 }
    }

    /// 4K UHD resolution (3840x2160).
    pub fn uhd() -> (r: Self)
        ensures
            r == (Resolution { width: 3840u32, height: 2160u32 }),
    {
        Resolution { width: 3840, height: 2160 }
    }

    /// 8K UHD resolution (7680x4320).
    pub fn uhd_8k() -> (r: Self)
        ensures
            r == (Resolution { width: 7680u32, height: 4320u32 }),
    {
        Resolution { width: 7680, height: 4320 }
    }

    /// Returns the total pixel count.
    pub fn pixel_count(&self) -> (r: u64)
        ensures
            r == self.width * self.height,
    {
        proof {
            assert(self.width * self.height <= u64::MAX) by (nonlinear_arith)
                requires
                    self.width <= u32::MAX,
                    self.height <= u32::MAX,
            ;
        }
        self.width as u64 * self.height as u64
    }

    /// Checks whether the resolution is 4K or higher.
    pub fn is_ultra_hd(&self) -> (r: bool)
        ensures
            r == (self.width >= 3840 && self.height >= 2160),
    {
        self.width >= 3840 && self.height >= 2160
    }

    /// Scales to a target width, keeping the aspect ratio by rounding the
    /// height to the nearest integer and clamping it to the representable
    /// range.
    pub fn scaled_to_width(&self, target_width: u32) -> (r: Self)
        requires
            self.width > 0,
        ensures
            r.width == target_width,
            ({
                let scaled = (2 * self.height * target_width + self.width) / (2 * self.width);
                r.height == if scaled <= u32::MAX {
                    scaled
                } else {
                    u32::MAX as int
                }
            }),
    {
        proof {
            assert(2 * self.height * target_width + self.width <= u128::MAX) by (nonlinear_arith)
                requires
                    self.height <= u32::MAX,
                    target_width <= u32::MAX,
                    self.width <= u32::MAX,
            ;
        }
        let num: u128 = 2 * (self.height as u128) * (target_width as u128) + self.width as u128;
        let den: u128 = 2 * (self.width as u128);
        let h: u128 = num / den;
        if h > u32::MAX as u128 {
            Resolution { width: target_width, height: u32::MAX }
        } else {
            Resolution { width: target_width, height: h as u32 }
        }
    }

    /// Scales to a target height, keeping the aspect ratio by rounding the
    /// width to the nearest integer and clamping it to the representable
    /// range.
    pub fn scaled_to_height(&self, target_height: u32) -> (r: Self)
        requires
            self.height > 0,
        ensures
            r.height == target_height,
            ({
                let scaled = (2 * self.width * target_height + self.height) / (2 * self.height);
                r.width == if scaled <= u32::MAX {
                    scaled
                } else {
                    u32::MAX as int
                }
            }),
    {
        proof {
            assert(2 * self.width * target_height + self.height <= u128::MAX) by (nonlinear_arith)
                requires
                    self.width <= u32::MAX,
                    target_height <= u32::MAX,
                    self.height <= u32::MAX,
            ;
        }
        let num: u128 = 2 * (self.width as u128) * (target_height as u128) + self.height as u128;
        let den: u128 = 2 * (self.height as u128);
        let w: u128 = num / den;
        if w > u32::MAX as u128 {
            Resolution { width: u32::MAX, height: target_height }
        } else {
            Resolution { width: w as u32, height: target_height }
        }
    }
}

impl Default for Resolution {
    /// The default resolution is Full HD.
    fn default() -> (r: Self)
        ensures
            r == (Resolution { width: 1920u32, height: 1080u32 }),
    {
        Resolution { width: 1920, height: 1080 }
    }
}

/// Frame rate as a numerator/denominator pair.
#[derive(Debug, Clone, Copy, PartialEq, Eq, Structural, Hash)]
pub struct FrameRate {
    /// Frames per second numerator.
    pub numerator: u32,
    /// Frames per second denominator.
    pub denominator: u32,
}

impl FrameRate {
    /// Creates a new frame rate.
    pub fn new(numerator: u32, denominator: u32) -> (r: Self)
        ensures
            r.numerator == numerator,
            r.denominator == denominator,
    {
        FrameRate { numerator, denominator }
    }

    /// 23.976 fps (film with NTSC pulldown).
    pub fn fps_23_976() -> (r: Self)
        ensures
            r == (FrameRate { numerator: 24000u32, denominator: 1001u32 }),
    {
        FrameRate { numerator: 24000, denominator: 1001 }
    }

    /// 24 fps (cinema standard).
    pub fn fps_24() -> (r: Self)
        ensures
            r == (FrameRate { numerator: 24u32, denominator: 1u32 }),
    {
        FrameRate { numerator: 24, denominator: 1 }
    }

    /// 25 fps (PAL video).
    pub fn fps_25() -> (r: Self)
        ensures
            r == (FrameRate { numerator: 25u32, denominator: 1u32 }),
    {
        FrameRate { numerator: 25, denominator: 1 }
    }

    /// 29.97 fps (NTSC video).
    pub fn fps_29_97() -> (r: Self)
        ensures
            r == (FrameRate { numerator: 30000u32, denominator: 1001u32 }),
    {
        FrameRate { numerator: 30000, denominator: 1001 }
    }

    /// 30 fps (common web video).
    pub fn fps_30() -> (r: Self)
        ensures
            r == (FrameRate { numerator: 30u32, denominator: 1u32 }),
    {
        FrameRate { numerator: 30, denominator: 1 }
    }

    /// 59.94 fps (NTSC high frame rate).
    pub fn fps_59_94() -> (r: Self)
        ensures
            r == (FrameRate { numerator: 60000u32, denominator: 1001u32 }),
    {
        FrameRate { numerator: 60000, denominator: 1001 }
    }

    /// 60 fps (gaming/streaming standard).
    pub fn fps_60() -> (r: Self)
        ensures
            r == (FrameRate { numerator: 60u32, denominator: 1u32 }),
    {
        FrameRate { numerator: 60, denominator: 1 }
    }

    /// Returns the frame duration in microseconds, or 0 when the rate has a
    /// zero numerator.
    pub fn frame_duration_us(&self) -> (r: u64)
        ensures
            self.numerator == 0 ==> r == 0,
            self.numerator != 0 ==> r == self.denominator * 1_000_000 / (self.numerator as int),
    {
        if self.numerator == 0 {
            return 0;
        }
        (self.denominator as u64 * 1_000_000) / self.numerator as u64
    }

    /// Returns the frame duration in nanoseconds, or 0 when the rate has a
    /// zero numerator.
    pub fn frame_duration_ns(&self) -> (r: u64)
        ensures
            self.numerator == 0 ==> r == 0,
            self.numerator != 0 ==> r == self.denominator * 1_000_000_000 / (
            self.numerator as int),
    {
        if self.numerator == 0 {
            return 0;
        }
        (self.denominator as u64 * 1_000_000_000) / self.numerator as u64
    }

    /// Checks whether this is a drop-frame timecode rate (29.97 or 59.94).
    pub fn is_drop_frame(&self) -> (r: bool)
        ensures
            r == ((self.numerator == 30000 || self.numerator == 60000) && self.denominator
                == 1001),
    {
        (self.numerator == 30000 || self.numerator == 60000) && self.denominator == 1001
    }
}

impl Default for FrameRate {
    /// The default frame rate is 30 fps.
    fn default() -> (r: Self)
        ensures
            r == (FrameRate { numerator: 30u32, denominator: 1u32 }),
    {
        FrameRate { numerator: 30, denominator: 1 }
    }
}

/// Video codec formats.
#[derive(Debug, Clone, Copy, PartialEq, Eq, Structural, Hash)]
pub enum VideoFormat {
    /// H.264/AVC codec.
    H264,
    /// H.265/HEVC codec.
    H265,
    /// VP9 codec.
    VP9,
    /// AV1 codec.
    AV1,
    /// ProRes codec.
    ProRes,
    /// DNxHD/DNxHR codec.
    DNxHD,
    /// Raw uncompressed video.
    Raw,
    /// MJPEG codec.
    MJPEG,
    /// Cineform codec.
    Cineform,
    /// FFV1 lossless codec.
    FFV1,
}

impl VideoFormat {
    /// Returns whether this codec supports 8K+ resolution.
    pub fn supports_8k(&self) -> (r: bool)
        ensures
            r == (self is H265 || self is AV1 || self is Raw || self is ProRes),
    {
        matches!(self, VideoFormat::H265 | VideoFormat::AV1 | VideoFormat::Raw | VideoFormat::ProRes)
    }

    /// Returns whether this codec supports HDR.
    pub fn supports_hdr(&self) -> (r: bool)
        ensures
            r == (self is H265 || self is AV1 || self is ProRes),
    {
        matches!(self, VideoFormat::H265 | VideoFormat::AV1 | VideoFormat::ProRes)
    }

    /// Returns whether this codec is lossless.
    pub fn is_lossless(&self) -> (r: bool)
        ensures
            r == (self is Raw || self is FFV1 || self is ProRes),
    {
        matches!(self, VideoFormat::Raw | VideoFormat::FFV1 | VideoFormat::ProRes)
    }
}

impl Default for VideoFormat {
    /// The default video format is H.264.
    fn default() -> (r: Self)
        ensures
            r is H264,
    {
        VideoFormat::H264
    }
}

/// Audio codec formats.
#[derive(Debug, Clone, Copy, PartialEq, Eq, Structural, Hash)]
pub enum AudioFormat {
    /// AAC codec.
    AAC,
    /// MP3 codec.
    MP3,
    /// FLAC lossless codec.
    FLAC,
    /// WAV uncompressed.
    WAV,
    /// Opus codec.
    Opus,
    /// AC3/Dolby Digital.
    AC3,
    /// EAC3/Dolby Digital Plus.
    EAC3,
    /// DTS audio.
    DTS,
    /// PCM uncompressed.
    PCM,
    /// Vorbis codec.
    Vorbis,
    /// ALAC (Apple Lossless).
    ALAC,
}

impl AudioFormat {
    /// Returns whether this format is lossless.
    pub fn is_lossless(&self) -> (r: bool)
        ensures
            r == (self is FLAC || self is WAV || self is PCM || self is ALAC),
    {
        matches!(self, AudioFormat::FLAC | AudioFormat::WAV | AudioFormat::PCM | AudioFormat::ALAC)
    }

    /// Returns whether this format supports surround sound.
    pub fn supports_surround(&self) -> (r: bool)
        ensures
            r == (self is AC3 || self is EAC3 || self is DTS || self is FLAC || self is PCM),
    {
        matches!(
            self,
            AudioFormat::AC3 | AudioFormat::EAC3 | AudioFormat::DTS | AudioFormat::FLAC
                | AudioFormat::PCM
        )
    }
}

impl Default for AudioFormat {
    /// The default audio format is AAC.
    fn default() -> (r: Self)
        ensures
            r is AAC,
    {
        AudioFormat::AAC
    }
}

/// Media stream kind.
#[derive(Debug, Clone, Copy, PartialEq, Eq, Structural, Hash)]
pub enum MediaKind {
    /// Video stream.
    Video,
    /// Audio stream.
    Audio,
    /// Subtitle/caption stream.
    Subtitle,
    /// Data stream (metadata, timecode, and similar).
    Data,
}

impl MediaKind {
    /// Checks whether this is video media.
    pub fn is_video(&self) -> (r: bool)
        ensures
            r == (self is Video),
    {
        matches!(self, MediaKind::Video)
    }

    /// Checks whether this is audio media.
    pub fn is_audio(&self) -> (r: bool)
        ensures
            r == (self is Audio),
    {
        matches!(self, MediaKind::Audio)
    }

    /// Checks whether this is subtitle media.
    pub fn is_subtitle(&self) -> (r: bool)
        ensures
            r == (self is Subtitle),
    {
        matches!(self, MediaKind::Subtitle)
    }
}

/// Timestamp information for frames and packets, in timebase units.
#[derive(Debug, Clone, Copy)]
pub struct TimeInfo {
    /// Presentation timestamp (in timebase units).
    pub pts: Option<i64>,
    /// Decode timestamp (in timebase units).
    pub dts: Option<i64>,
    /// Duration (in timebase units).
    pub duration: Option<u64>,
    /// Timebase numerator.
    pub timebase_num: u32,
    /// Timebase denominator.
    pub timebase_den: u32,
}

impl TimeInfo {
    /// Creates a new `TimeInfo` with the specified timebase and no
    /// timestamps.
    pub fn new(timebase_num: u32, timebase_den: u32) -> (r: Self)
        ensures
            r.pts is None,
            r.dts is None,
            r.duration is None,
            r.timebase_num == timebase_num,
            r.timebase_den == timebase_den,
    {
        TimeInfo { pts: None, dts: None, duration: None, timebase_num, timebase_den }
    }

    /// Creates a `TimeInfo` with a millisecond timebase.
    pub fn milliseconds() -> (r: Self)
        ensures
            r.pts is None,
            r.dts is None,
            r.duration is None,
            r.timebase_num == 1,
            r.timebase_den == 1000,
    {
        TimeInfo::new(1, 1000)
    }

    /// Creates a `TimeInfo` with a microsecond timebase.
    pub fn microseconds() -> (r: Self)
        ensures
            r.pts is None,
            r.dts is None,
            r.duration is None,
            r.timebase_num == 1,
            r.timebase_den == 1_000_000,
    {
        TimeInfo::new(1, 1_000_000)
    }
}

impl Default for TimeInfo {
    /// The default `TimeInfo` has no timestamps and a zero timebase.
    fn default() -> (r: Self)
        ensures
            r.pts is None,
            r.dts is None,
            r.duration is None,
            r.timebase_num == 0,
            r.timebase_den == 0,
    {
        TimeInfo { pts: None, dts: None, duration: None, timebase_num: 0, timebase_den: 0 }
    }
}

/// The millisecond position a timecode denotes at a frame rate, when it
/// is well formed and representable. The first three colon-separated
/// fields are hours, minutes and seconds; exactly four fields make the
/// last a frame count converted at the rate; a dot inside the seconds
/// field separates a milliseconds field. A zero-numerator rate
/// contributes zero for frames; text beyond the used fields is ignored.
pub open spec fn spec_timecode_ms(s: Seq<char>, rate: FrameRate) -> Option<int> {
    let len = s.len() as int;
    let c1 = spec_find(s, ':', 0);
    let c2 = spec_find(s, ':', c1 + 1);
    let c3 = spec_find(s, ':', c2 + 1);
    let c4 = spec_find(s, ':', c3 + 1);
    if c2 >= len {
        None
    } else {
        let p0 = s.subrange(0, c1);
        let p1 = s.subrange(c1 + 1, c2);
        let p2 = s.subrange(c2 + 1, if c3 < len { c3 } else { len });
        if !spec_all_digits(p0) || spec_digits_val(p0) > u64::MAX || !spec_all_digits(p1)
            || spec_digits_val(p1) > u64::MAX {
            None
        } else {
            let hours = spec_digits_val(p0);
            let minutes = spec_digits_val(p1);
            if c3 < len && c4 >= len {
                let p3 = s.subrange(c3 + 1, len);
                if !spec_all_digits(p2) || spec_digits_val(p2) > u64::MAX || !spec_all_digits(p3)
                    || spec_digits_val(p3) > u64::MAX {
                    None
                } else {
                    let secs = spec_digits_val(p2);
                    let frames = spec_digits_val(p3);
                    if rate.numerator != 0 && frames * rate.denominator * 1000 > u64::MAX {
                        None
                    } else {
                        let frac = if rate.numerator == 0 {
                            0
                        } else {
                            frames * rate.denominator * 1000 / (rate.numerator as int)
                        };
                        let total = hours * 3600000 + minutes * 60000 + secs * 1000 + frac;
                        if total > u64::MAX {
                            None
                        } else {
                            Some(total)
                        }
                    }
                }
            } else {
                let d1 = spec_find(p2, '.', 0);
                if d1 < p2.len() {
                    let d2 = spec_find(p2, '.', d1 + 1);
                    let secs_str = p2.subrange(0, d1);
                    let ms_str = p2.subrange(d1 + 1, d2);
                    if !spec_all_digits(secs_str) || spec_digits_val(secs_str) > u64::MAX
                        || !spec_all_digits(ms_str) || spec_digits_val(ms_str) > u64::MAX {
                        None
                    } else {
                        let total = hours * 3600000 + minutes * 60000 + spec_digits_val(secs_str)
                            * 1000 + spec_digits_val(ms_str);
                        if total > u64::MAX {
                            None
                        } else {
                            Some(total)
                        }
                    }
                } else {
                    if !spec_all_digits(p2) || spec_digits_val(p2) > u64::MAX {
                        None
                    } else {
                        let total = hours * 3600000 + minutes * 60000 + spec_digits_val(p2) * 1000;
                        if total > u64::MAX {
                            None
                        } else {
                            Some(total)
                        }
                    }
                }
            }
        }
    }
}

/// Time position on the timeline, with millisecond precision.
#[derive(Debug, Clone, Copy, PartialEq, Eq, Structural, Hash)]
pub struct TimePosition {
    /// Position in milliseconds.
    pub ms: u64,
}

impl TimePosition {
    /// Creates a new time position from milliseconds.
    pub fn from_ms(ms: u64) -> (r: Self)
        ensures
            r.ms == ms,
    {
        TimePosition { ms }
    }

    /// Creates a time position from whole seconds.
    pub fn from_secs(secs: u64) -> (r: Self)
        requires
            secs * 1000 <= u64::MAX,
        ensures
            r.ms == secs * 1000,
    {
        TimePosition { ms: secs * 1000 }
    }

    /// Creates a time position from a frame number and frame rate, or the
    /// zero position when the rate has a zero numerator.
    pub fn from_frame(frame: u64, frame_rate: &FrameRate) -> (r: Self)
        requires
            frame * frame_rate.denominator * 1000 <= u64::MAX,
        ensures
            frame_rate.numerator == 0 ==> r.ms == 0,
            frame_rate.numerator != 0 ==> r.ms == frame * frame_rate.denominator * 1000 / (
            frame_rate.numerator as int),
    {
        if frame_rate.numerator == 0 {
            return TimePosition { ms: 0 };
        }
        let ms = (frame * frame_rate.denominator as u64 * 1000) / frame_rate.numerator as u64;
        TimePosition { ms }
    }

    /// Converts to a frame number at the given frame rate, or 0 when the
    /// rate has a zero denominator.
    pub fn to_frame(&self, frame_rate: &FrameRate) -> (r: u64)
        requires
            self.ms * frame_rate.numerator <= u64::MAX,
        ensures
            frame_rate.denominator == 0 ==> r == 0,
            frame_rate.denominator != 0 ==> r == self.ms * frame_rate.numerator / (
            frame_rate.denominator * 1000),
    {
        if frame_rate.denominator == 0 {
            return 0;
        }
        (self.ms * frame_rate.numerator as u64) / (frame_rate.denominator as u64 * 1000)
    }

    /// Parses a timecode, `HH:MM:SS:FF` or `HH:MM:SS.mmm` or `HH:MM:SS`,
    /// returning `None` on any malformed field, along with any timecode
    /// whose millisecond position cannot be represented. The frames field
    /// is converted at the given frame rate (zero at a zero-numerator
    /// rate); text after a fourth colon or a second dot is ignored, as is
    /// anything following the seconds field when more than four fields
    /// appear.
    pub fn from_timecode(timecode: &str, frame_rate: &FrameRate) -> (r: Option<Self>)
        ensures
            r is Some <==> spec_timecode_ms(timecode@, *frame_rate) is Some,
            r is Some ==> r->0.ms == spec_timecode_ms(timecode@, *frame_rate)->0,
    {
        let len = timecode.unicode_len();
        let c1 = find_char(timecode, ':', 0);
        let c2 = if c1 < len {
            find_char(timecode, ':', c1 + 1)
        } else {
            len
        };
        let c3 = if c2 < len {
            find_char(timecode, ':', c2 + 1)
        } else {
            len
        };
        let c4 = if c3 < len {
            find_char(timecode, ':', c3 + 1)
        } else {
            len
        };
        proof {
            if c1 >= len {
                assert(spec_find(timecode@, ':', c1 + 1) == len);
            }
            if c2 >= len {
                assert(spec_find(timecode@, ':', c2 + 1) == len);
            }
            if c3 >= len {
                assert(spec_find(timecode@, ':', c3 + 1) == len);
            }
        }
        if c2 >= len {
            return None;
        }
        let hours = match parse_u64(timecode.substring_char(0, c1)) {
            Some(v) => v,
            None => {
                return None;
            },
        };
        let minutes = match parse_u64(timecode.substring_char(c1 + 1, c2)) {
            Some(v) => v,
            None => {
                return None;
            },
        };
        let p2_end = if c3 < len {
            c3
        } else {
            len
        };
        let p2s = timecode.substring_char(c2 + 1, p2_end);
        let (seconds, frac): (u64, u64) = if c3 < len && c4 >= len {
            // HH:MM:SS:FF
            let secs = match parse_u64(p2s) {
                Some(v) => v,
                None => {
                    return None;
                },
            };
            let frames = match parse_u64(timecode.substring_char(c3 + 1, len)) {
                Some(v) => v,
                None => {
                    return None;
                },
            };
            if frame_rate.numerator == 0 {
                (secs, 0)
            } else {
                proof {
                    assert(frames * frame_rate.denominator * 1000 <= u128::MAX)
                        by (nonlinear_arith)
                        requires
                            frames <= u64::MAX,
                            frame_rate.denominator <= u32::MAX,
                    ;
                }
                let scaled: u128 = (frames as u128) * (frame_rate.denominator as u128) * 1000;
                if scaled > u64::MAX as u128 {
                    return None;
                }
                let f: u128 = scaled / (frame_rate.numerator as u128);
                (secs, f as u64)
            }
        } else {
            let p2len = p2s.unicode_len();
            let d1 = find_char(p2s, '.', 0);
            if d1 < p2len {
                // SS.mmm
                let d2 = find_char(p2s, '.', d1 + 1);
                let secs = match parse_u64(p2s.substring_char(0, d1)) {
                    Some(v) => v,
                    None => {
                        return None;
                    },
                };
                let ms = match parse_u64(p2s.substring_char(d1 + 1, d2)) {
                    Some(v) => v,
                    None => {
                        return None;
                    },
                };
                (secs, ms)
            } else {
                let secs = match parse_u64(p2s) {
                    Some(v) => v,
                    None => {
                        return None;
                    },
                };
                (secs, 0)
            }
        };
        proof {
            assert(hours * 3600000 + minutes * 60000 + seconds * 1000 + frac <= u128::MAX)
                by (nonlinear_arith)
                requires
                    hours <= u64::MAX,
                    minutes <= u64::MAX,
                    seconds <= u64::MAX,
                    frac <= u64::MAX,
            ;
        }
        let total: u128 = (hours as u128) * 3600000 + (minutes as u128) * 60000 + (
        seconds as u128) * 1000 + frac as u128;
        if total > u64::MAX as u128 {
            return None;
        }
        Some(TimePosition { ms: total as u64 })
    }

    /// Returns the position in whole seconds.
    pub fn as_secs(&self) -> (r: u64)
        ensures
            r == self.ms / 1000,
    {
        self.ms / 1000
    }

    /// Adds another position, saturating at the largest representable value.
    pub fn saturating_add(&self, other: TimePosition) -> (r: Self)
        ensures
            self.ms + other.ms <= u64::MAX ==> r.ms == self.ms + other.ms,
            self.ms + other.ms > u64::MAX ==> r.ms == u64::MAX,
    {
        TimePosition { ms: self.ms.saturating_add(other.ms) }
    }

    /// Subtracts another position, saturating at zero.
    pub fn saturating_sub(&self, other: TimePosition) -> (r: Self)
        ensures
            self.ms >= other.ms ==> r.ms == self.ms - other.ms,
            self.ms < other.ms ==> r.ms == 0,
    {
        TimePosition { ms: self.ms.saturating_sub(other.ms) }
    }
}

impl Default for TimePosition {
    /// The default time position is zero.
    fn default() -> (r: Self)
        ensures
            r.ms == 0,
    {
        TimePosition { ms: 0 }
    }
}

/// Timeline position alias.
pub type TimelinePosition = TimePosition;

/// Aspect ratio as a width/height pair.
#[derive(Debug, Clone, Copy, PartialEq, Eq, Structural, Hash)]
pub struct AspectRatio {
    /// Width component.
    pub width: u32,
    /// Height component.
    pub height: u32,
}

/// Greatest common divisor of two values, with `gcd(a, 0) == a`.
pub open spec fn spec_gcd(a: nat, b: nat) -> nat
    decreases b,
{
    if b == 0 {
        a
    } else {
        spec_gcd(b, a % b)
    }
}

/// Computes the greatest common divisor by Euclid's algorithm.
fn gcd(a: u32, b: u32) -> (r: u32)
    ensures
        r == spec_gcd(a as nat, b as nat),
    decreases b,
{
    if b == 0 {
        a
    } else {
        gcd(b, a % b)
    }
}

/// The gcd of two values is positive when either of them is.
proof fn lemma_gcd_nonzero(a: nat, b: nat)
    ensures
        a != 0 || b != 0 ==> spec_gcd(a, b) != 0,
    decreases b,
{
    if b != 0 {
        lemma_gcd_nonzero(b, a % b);
    }
}

impl AspectRatio {
    /// Creates a new aspect ratio.
    pub fn new(width: u32, height: u32) -> (r: Self)
        ensures
            r.width == width,
            r.height == height,
    {
        AspectRatio { width, height }
    }

    /// Widescreen 16:9 aspect ratio.
    pub fn widescreen_16_9() -> (r: Self)
        ensures
            r == (AspectRatio { width: 16u32, height: 9u32 }),
    {
        AspectRatio { width: 16, height: 9 }
    }

    /// Square 1:1 aspect ratio.
    pub fn square() -> (r: Self)
        ensures
            r == (AspectRatio { width: 1u32, height: 1u32 }),
    {
        AspectRatio { width: 1, height: 1 }
    }

    /// Reduces a resolution to its lowest-terms aspect ratio; a degenerate
    /// resolution yields 16:9.
    pub fn from_resolution(resolution: &Resolution) -> (r: Self)
        ensures
            resolution.width == 0 && resolution.height == 0 ==> r == (AspectRatio {
                width: 16u32,
                height: 9u32,
            }),
            resolution.width != 0 || resolution.height != 0 ==> {
                let g = spec_gcd(resolution.width as nat, resolution.height as nat);
                r.width == resolution.width as nat / g && r.height == resolution.height as nat / g
            },
    {
        let g = gcd(resolution.width, resolution.height);
        if g == 0 {
            proof {
                lemma_gcd_nonzero(resolution.width as nat, resolution.height as nat);
            }
            return AspectRatio { width: 16, height: 9 };
        }
        AspectRatio { width: resolution.width / g, height: resolution.height / g }
    }
}

impl Default for AspectRatio {
    /// The default aspect ratio is 16:9.
    fn default() -> (r: Self)
        ensures
            r == (AspectRatio { width: 16u32, height: 9u32 }),
    {
        AspectRatio { width: 16, height: 9 }
    }
}

/// A span of wall-clock time, in whole seconds.
#[derive(Debug, Clone, Copy, PartialEq, Eq, Structural, PartialOrd, Ord, Hash)]
pub struct Duration {
    /// Length in seconds.
    pub secs: u64,
}

impl Duration {
    /// Creates a duration from whole seconds.
    pub fn from_secs(secs: u64) -> (r: Self)
        ensures
            r.secs == secs,
    {
        Duration { secs }
    }

    /// The zero-length duration.
    pub fn zero() -> (r: Self)
        ensures
            r.secs == 0,
    {
        Duration { secs: 0 }
    }

    /// Returns the length in whole seconds.
    pub fn as_secs(&self) -> (r: u64)
        ensures
            r == self.secs,
    {
        self.secs
    }
}

/// Relies on `std::time::SystemTime::now`: the wall clock read as whole
/// seconds since the Unix epoch, or 0 when the clock reads before the epoch.
/// Nothing is assumed of the value returned.
#[verifier::external_body]
fn unix_now_seconds() -> u64 {
    match std::time::SystemTime::now().duration_since(std::time::UNIX_EPOCH) {
        Ok(d) => d.as_secs(),
        Err(_) => 0,
    }
}

/// Wall-clock timestamp as Unix seconds, used for project bookkeeping such
/// as autosave and modification tracking.
#[derive(Debug, Clone, Copy, PartialEq, Eq, Structural, PartialOrd, Ord, Hash)]
pub struct Timestamp {
    secs: u64,
}

impl Timestamp {
    /// The Unix seconds this timestamp holds.
    pub closed spec fn spec_secs(self) -> u64 {
        self.secs
    }

    /// Creates a new timestamp from Unix seconds.
    pub fn new(secs: u64) -> (r: Self)
        ensures
            r.spec_secs() == secs,
    {
        Timestamp { secs }
    }

    /// Reads the current wall-clock time. Nothing is known of the value
    /// beyond the contracts of the operations on it.
    pub fn now() -> Self {
        Timestamp { secs: unix_now_seconds() }
    }

    /// The timestamp at the Unix epoch.
    pub fn epoch() -> (r: Self)
        ensures
            r.spec_secs() == 0,
    {
        Timestamp { secs: 0 }
    }

    /// Returns the Unix timestamp in seconds.
    pub fn as_secs(&self) -> (r: u64)
        ensures
            r == self.spec_secs(),
    {
        self.secs
    }

    /// Returns the duration since another timestamp, or zero when `other`
    /// is later.
    pub fn elapsed_since(&self, other: Self) -> (r: Duration)
        ensures
            self.spec_secs() >= other.spec_secs() ==> r.secs == self.spec_secs()
                - other.spec_secs(),
            self.spec_secs() < other.spec_secs() ==> r.secs == 0,
    {
        if self.secs >= other.secs {
            Duration { secs: self.secs - other.secs }
        } else {
            Duration { secs: 0 }
        }
    }

    /// Adds a duration, saturating at the largest representable value.
    pub fn add_duration(&self, duration: Duration) -> (r: Self)
        ensures
            self.spec_secs() + duration.secs <= u64::MAX ==> r.spec_secs() == self.spec_secs()
                + duration.secs,
            self.spec_secs() + duration.secs > u64::MAX ==> r.spec_secs() == u64::MAX,
    {
        Timestamp { secs: self.secs.saturating_add(duration.secs) }
    }

    /// Subtracts a duration, saturating at zero.
    pub fn sub_duration(&self, duration: Duration) -> (r: Self)
        ensures
            self.spec_secs() >= duration.secs ==> r.spec_secs() == self.spec_secs()
                - duration.secs,
            self.spec_secs() < duration.secs ==> r.spec_secs() == 0,
    {
        Timestamp { secs: self.secs.saturating_sub(duration.secs) }
    }

    /// Returns whether this timestamp is strictly before another.
    pub fn is_before(&self, other: &Self) -> (r: bool)
        ensures
            r == (self.spec_secs() < other.spec_secs()),
    {
        self.secs < other.secs
    }

    /// Returns whether this timestamp is strictly after another.
    pub fn is_after(&self, other: &Self) -> (r: bool)
        ensures
            r == (self.spec_secs() > other.spec_secs()),
    {
        self.secs > other.secs
    }
}

} // verus!
