//! EVLF layered-video container types.
//!
//! Defines the binary layout of the container header, track headers, frame
//! index entries and branch points, together with a byte-exact, little-endian
//! encoding of the 64-byte container header and its round-trip proof.

use vstd::bytes::{
    lemma_auto_spec_u32_to_from_le_bytes, lemma_auto_spec_u64_to_from_le_bytes,
    spec_u32_from_le_bytes, spec_u32_to_le_bytes, spec_u64_from_le_bytes, spec_u64_to_le_bytes,
    u32_from_le_bytes, u32_to_le_bytes, u64_from_le_bytes, u64_to_le_bytes,
};
use vstd::prelude::*;
use vstd::slice::slice_subrange;

verus! {

/// EVLF magic number: "EVLF" read as a big-endian word.
pub const EVLF_MAGIC: u32 = 0x45564C46;

/// Current format version (1.0.0 packed as major.minor.patch).
pub const EVLF_VERSION: u32 = 0x00010000;

/// Trailer magic: "FLVE" (the header magic reversed).
pub const EVLF_TRAILER_MAGIC: u32 = 0x464C5645;

/// Container header size in bytes.
pub const EVLF_HEADER_SIZE: usize = 64;

/// EVLF container header, a fixed 64-byte binary record.
#[derive(Debug, Clone, Copy, PartialEq, Eq, Structural)]
pub struct EvlfHeader {
    /// Magic number, `EVLF_MAGIC` on every valid container.
    pub magic: u32,
    /// Format version.
    pub version: u32,
    /// Container flag bits.
    pub flags: u32,
    /// Number of tracks.
    pub track_count: u32,
    /// Total frame count.
    pub frame_count: u64,
    /// Duration in milliseconds.
    pub duration_ms: u64,
    /// Video width.
    pub width: u32,
    /// Video height.
    pub height: u32,
    /// Frame rate numerator.
    pub frame_rate_num: u32,
    /// Frame rate denominator.
    pub frame_rate_den: u32,
    /// Absolute byte offset of the metadata section.
    pub metadata_offset: u64,
    /// Absolute byte offset of the frame index.
    pub index_offset: u64,
}

/// The little-endian encoding of a header: each field in declared order.
pub open spec fn spec_header_bytes(h: EvlfHeader) -> Seq<u8> {
    spec_u32_to_le_bytes(h.magic) + spec_u32_to_le_bytes(h.version) + spec_u32_to_le_bytes(h.flags)
        + spec_u32_to_le_bytes(h.track_count) + spec_u64_to_le_bytes(h.frame_count)
        + spec_u64_to_le_bytes(h.duration_ms) + spec_u32_to_le_bytes(h.width)
        + spec_u32_to_le_bytes(h.height) + spec_u32_to_le_bytes(h.frame_rate_num)
        + spec_u32_to_le_bytes(h.frame_rate_den) + spec_u64_to_le_bytes(h.metadata_offset)
        + spec_u64_to_le_bytes(h.index_offset)
}

/// The header decoded from the first 64 bytes of `s`.
pub open spec fn spec_header_from_bytes(s: Seq<u8>) -> EvlfHeader {
    EvlfHeader {
        magic: spec_u32_from_le_bytes(s.subrange(0, 4)),
        version: spec_u32_from_le_bytes(s.subrange(4, 8)),
        flags: spec_u32_from_le_bytes(s.subrange(8, 12)),
        track_count: spec_u32_from_le_bytes(s.subrange(12, 16)),
        frame_count: spec_u64_from_le_bytes(s.subrange(16, 24)),
        duration_ms: spec_u64_from_le_bytes(s.subrange(24, 32)),
        width: spec_u32_from_le_bytes(s.subrange(32, 36)),
        height: spec_u32_from_le_bytes(s.subrange(36, 40)),
        frame_rate_num: spec_u32_from_le_bytes(s.subrange(40, 44)),
        frame_rate_den: spec_u32_from_le_bytes(s.subrange(44, 48)),
        metadata_offset: spec_u64_from_le_bytes(s.subrange(48, 56)),
        index_offset: spec_u64_from_le_bytes(s.subrange(56, 64)),
    }
}

impl EvlfHeader {
    /// Creates a header for a new container: correct magic and version,
    /// the given geometry and rate, and all counters and offsets zero.
    pub fn new(width: u32, height: u32, frame_rate_num: u32, frame_rate_den: u32) -> (r: Self)
        ensures
            r == (EvlfHeader {
                magic: EVLF_MAGIC,
                version: EVLF_VERSION,
                flags: 0u32,
                track_count: 0u32,
                frame_count: 0u64,
                duration_ms: 0u64,
                width,
                height,
                frame_rate_num,
                frame_rate_den,
                metadata_offset: 0u64,
                index_offset: 0u64,
            }),
    {
        EvlfHeader {
            magic: EVLF_MAGIC,
            version: EVLF_VERSION,
            flags: 0,
            track_count: 0,
            frame_count: 0,
            duration_ms: 0,
            width,
            height,
            frame_rate_num,
            frame_rate_den,
            metadata_offset: 0,
            index_offset: 0,
        }
    }

    /// Checks the magic number. Decoding is permissive; callers must reject
    /// a header that fails this check before trusting any other field.
    pub fn is_valid(&self) -> (r: bool)
        ensures
            r == (self.magic == EVLF_MAGIC),
    {
        self.magic == EVLF_MAGIC
    }

    /// Encodes the header to exactly 64 little-endian bytes, each field in
    /// declared order.
    pub fn to_bytes(&self) -> (r: Vec<u8>)
        ensures
            r@ == spec_header_bytes(*self),
            r@.len() == EVLF_HEADER_SIZE,
    {
        proof {
            lemma_auto_spec_u32_to_from_le_bytes();
            lemma_auto_spec_u64_to_from_le_bytes();
        }
        let mut bytes: Vec<u8> = Vec::new();
        let mut part = u32_to_le_bytes(self.magic);
        bytes.append(&mut part);
        let mut part = u32_to_le_bytes(self.version);
        bytes.append(&mut part);
        let mut part = u32_to_le_bytes(self.flags);
        bytes.append(&mut part);
        let mut part = u32_to_le_bytes(self.track_count);
        bytes.append(&mut part);
        let mut part = u64_to_le_bytes(self.frame_count);
        bytes.append(&mut part);
        let mut part = u64_to_le_bytes(self.duration_ms);
        bytes.append(&mut part);
        let mut part = u32_to_le_bytes(self.width);
        bytes.append(&mut part);
        let mut part = u32_to_le_bytes(self.height);
        bytes.append(&mut part);
        let mut part = u32_to_le_bytes(self.frame_rate_num);
        bytes.append(&mut part);
        let mut part = u32_to_le_bytes(self.frame_rate_den);
        bytes.append(&mut part);
        let mut part = u64_to_le_bytes(self.metadata_offset);
        bytes.append(&mut part);
        let mut part = u64_to_le_bytes(self.index_offset);
        bytes.append(&mut part);
        bytes
    }

    /// Decodes a header from the first 64 bytes of a slice. Decoding is
    /// total on any slice of at least 64 bytes and never inspects the
    /// magic; shorter slices yield `None`.
    pub fn from_bytes(bytes: &[u8]) -> (r: Option<Self>)
        ensures
            bytes@.len() < EVLF_HEADER_SIZE ==> r is None,
            bytes@.len() >= EVLF_HEADER_SIZE ==> r == Some(spec_header_from_bytes(bytes@)),
    {
        if bytes.len() < EVLF_HEADER_SIZE {
            return None;
        }
        Some(
            EvlfHeader {
                magic: u32_from_le_bytes(slice_subrange(bytes, 0, 4)),
                version: u32_from_le_bytes(slice_subrange(bytes, 4, 8)),
                flags: u32_from_le_bytes(slice_subrange(bytes, 8, 12)),
                track_count: u32_from_le_bytes(slice_subrange(bytes, 12, 16)),
                frame_count: u64_from_le_bytes(slice_subrange(bytes, 16, 24)),
                duration_ms: u64_from_le_bytes(slice_subrange(bytes, 24, 32)),
                width: u32_from_le_bytes(slice_subrange(bytes, 32, 36)),
                height: u32_from_le_bytes(slice_subrange(bytes, 36, 40)),
                frame_rate_num: u32_from_le_bytes(slice_subrange(bytes, 40, 44)),
                frame_rate_den: u32_from_le_bytes(slice_subrange(bytes, 44, 48)),
                metadata_offset: u64_from_le_bytes(slice_subrange(bytes, 48, 56)),
                index_offset: u64_from_le_bytes(slice_subrange(bytes, 56, 64)),
            },
        )
    }
}

/// Round trip: decoding an encoded header gives it back, field for field.
pub proof fn lemma_header_round_trip(h: EvlfHeader)
    ensures
        spec_header_from_bytes(spec_header_bytes(h)) == h,
{
    lemma_auto_spec_u32_to_from_le_bytes();
    lemma_auto_spec_u64_to_from_le_bytes();
    let s = spec_header_bytes(h);
    assert(s.subrange(0, 4) =~= spec_u32_to_le_bytes(h.magic));
    assert(s.subrange(4, 8) =~= spec_u32_to_le_bytes(h.version));
    assert(s.subrange(8, 12) =~= spec_u32_to_le_bytes(h.flags));
    assert(s.subrange(12, 16) =~= spec_u32_to_le_bytes(h.track_count));
    assert(s.subrange(16, 24) =~= spec_u64_to_le_bytes(h.frame_count));
    assert(s.subrange(24, 32) =~= spec_u64_to_le_bytes(h.duration_ms));
    assert(s.subrange(32, 36) =~= spec_u32_to_le_bytes(h.width));
    assert(s.subrange(36, 40) =~= spec_u32_to_le_bytes(h.height));
    assert(s.subrange(40, 44) =~= spec_u32_to_le_bytes(h.frame_rate_num));
    assert(s.subrange(44, 48) =~= spec_u32_to_le_bytes(h.frame_rate_den));
    assert(s.subrange(48, 56) =~= spec_u64_to_le_bytes(h.metadata_offset));
    assert(s.subrange(56, 64) =~= spec_u64_to_le_bytes(h.index_offset));
}

/// Container flag bits.
#[derive(Debug, Clone, Copy, PartialEq, Eq, Structural)]
pub struct EvlfFlags(pub u32);

impl EvlfFlags {
    /// Has an alpha channel.
    pub const HAS_ALPHA: u32 = 1u32 << 0;

    /// Has audio tracks.
    pub const HAS_AUDIO: u32 = 1u32 << 1;

    /// Has branching/interactivity.
    pub const HAS_BRANCHES: u32 = 1u32 << 2;

    /// Has drill-down metadata.
    pub const HAS_METADATA: u32 = 1u32 << 3;

    /// Uses a GPU-accelerated codec.
    pub const GPU_ACCELERATED: u32 = 1u32 << 4;

    /// HDR content.
    pub const HDR_CONTENT: u32 = 1u32 << 5;

    /// 3D stereoscopic content.
    pub const STEREOSCOPIC_3D: u32 = 1u32 << 6;

    /// Contains AI annotations.
    pub const AI_ANNOTATED: u32 = 1u32 << 7;

    /// Creates an empty flag set.
    pub fn new() -> (r: Self)
        ensures
            r.0 == 0,
    {
        EvlfFlags(0)
    }

    /// Sets the given flag bits, leaving all other bits unchanged.
    pub fn set(&mut self, flag: u32)
        ensures
            final(self).0 == old(self).0 | flag,
    {
        self.0 = self.0 | flag;
    }

    /// Clears the given flag bits, leaving all other bits unchanged.
    pub fn clear(&mut self, flag: u32)
        ensures
            final(self).0 == old(self).0 & !flag,
    {
        self.0 = self.0 & !flag;
    }

    /// Checks whether any of the given flag bits is set.
    pub fn has(&self, flag: u32) -> (r: bool)
        ensures
            r == ((self.0 & flag) != 0),
    {
        (self.0 & flag) != 0
    }
}

impl Default for EvlfFlags {
    /// The default flag set is empty.
    fn default() -> (r: Self)
        ensures
            r.0 == 0,
    {
        EvlfFlags(0)
    }
}

/// Track content type.
#[derive(Debug, Clone, Copy, PartialEq, Eq, Structural)]
pub enum EvlfTrackType {
    /// Primary video stream.
    Video,
    /// Audio stream.
    Audio,
    /// Text/subtitle overlay.
    Text,
    /// Effect/filter layer.
    Effect,
    /// 3D geometry layer.
    Geometry3D,
    /// Vector graphics layer.
    Vector,
    /// Particle system layer.
    Particles,
    /// AI-generated content layer.
    AIContent,
    /// Interactive hotspot layer.
    Interactive,
    /// Metadata-only track.
    Metadata,
}

impl Default for EvlfTrackType {
    /// The default track type is video.
    fn default() -> (r: Self)
        ensures
            r is Video,
    {
        EvlfTrackType::Video
    }
}

/// Per-track flag bits.
#[derive(Debug, Clone, Copy, PartialEq, Eq, Structural)]
pub struct TrackFlags(pub u8);

impl TrackFlags {
    /// Track is enabled.
    pub const ENABLED: u8 = 1u8 << 0;

    /// Track is muted.
    pub const MUTED: u8 = 1u8 << 1;

    /// Track is locked.
    pub const LOCKED: u8 = 1u8 << 2;

    /// Track is soloed.
    pub const SOLO: u8 = 1u8 << 3;

    /// Creates flags with only the enabled bit set.
    pub fn enabled() -> (r: Self)
        ensures
            r.0 == TrackFlags::ENABLED,
    {
        TrackFlags(TrackFlags::ENABLED)
    }
}

impl Default for TrackFlags {
    /// The default track flag set is empty.
    fn default() -> (r: Self)
        ensures
            r.0 == 0,
    {
        TrackFlags(0)
    }
}

/// Blend mode for layer compositing.
#[derive(Debug, Clone, Copy, PartialEq, Eq, Structural)]
pub enum BlendMode {
    /// No blending applied.
    Normal,
    /// Multiplies base and blend colors.
    Multiply,
    /// Inverts, multiplies, then inverts again.
    Screen,
    /// Combines multiply and screen based on the base color.
    Overlay,
    /// Selects the darker of base and blend colors.
    Darken,
    /// Selects the lighter of base and blend colors.
    Lighten,
    /// Brightens the base color based on the blend color.
    ColorDodge,
    /// Darkens the base color based on the blend color.
    ColorBurn,
    /// Like overlay but uses the blend color as base.
    HardLight,
    /// Softer version of hard light.
    SoftLight,
    /// Absolute difference between colors.
    Difference,
    /// Similar to difference but lower contrast.
    Exclusion,
    /// Hue from the blend color with saturation/luminance from the base.
    Hue,
    /// Saturation from the blend color with hue/luminance from the base.
    Saturation,
    /// Hue and saturation from the blend color with luminance from the base.
    Color,
    /// Luminance from the blend color with hue/saturation from the base.
    Luminosity,
    /// Adds base and blend colors.
    Add,
    /// Subtracts the blend color from the base color.
    Subtract,
}

impl Default for BlendMode {
    /// The default blend mode is normal.
    fn default() -> (r: Self)
        ensures
            r is Normal,
    {
        BlendMode::Normal
    }
}

/// Track header record. Track ids are unique within a container and the
/// z-order gives the compositing depth, 0 being the bottom layer.
#[derive(Debug, Clone)]
pub struct EvlfTrackHeader {
    /// Track id.
    pub track_id: u32,
    /// Track type.
    pub track_type: EvlfTrackType,
    /// Track flags.
    pub flags: TrackFlags,
    /// Track name.
    pub name: String,
    /// Codec identifier (fourcc).
    pub codec: u32,
    /// Layer z-order (0 = bottom).
    pub z_order: u32,
    /// Blend mode.
    pub blend_mode: BlendMode,
    /// Opacity (0-255).
    pub opacity: u8,
    /// Absolute byte offset of the track data.
    pub data_offset: u64,
    /// Track data size in bytes.
    pub data_size: u64,
}

impl EvlfTrackHeader {
    /// Creates an enabled video track header with the "h264" fourcc,
    /// bottom z-order, normal blending and full opacity.
    pub fn video(track_id: u32, name: String) -> (r: Self)
        ensures
            r.track_id == track_id,
            r.track_type is Video,
            r.flags.0 == TrackFlags::ENABLED,
            r.name == name,
            r.codec == 0x68323634u32,
            r.z_order == 0,
            r.blend_mode is Normal,
            r.opacity == 255,
            r.data_offset == 0,
            r.data_size == 0,
    {
        EvlfTrackHeader {
            track_id,
            track_type: EvlfTrackType::Video,
            flags: TrackFlags::enabled(),
            name,
            codec: 0x68323634,
            z_order: 0,
            blend_mode: BlendMode::Normal,
            opacity: 255,
            data_offset: 0,
            data_size: 0,
        }
    }

    /// Creates an enabled audio track header with the "aac " fourcc,
    /// bottom z-order, normal blending and full opacity.
    pub fn audio(track_id: u32, name: String) -> (r: Self)
        ensures
            r.track_id == track_id,
            r.track_type is Audio,
            r.flags.0 == TrackFlags::ENABLED,
            r.name == name,
            r.codec == 0x61616320u32,
            r.z_order == 0,
            r.blend_mode is Normal,
            r.opacity == 255,
            r.data_offset == 0,
            r.data_size == 0,
    {
        EvlfTrackHeader {
            track_id,
            track_type: EvlfTrackType::Audio,
            flags: TrackFlags::enabled(),
            name,
            codec: 0x61616320,
            z_order: 0,
            blend_mode: BlendMode::Normal,
            opacity: 255,
            data_offset: 0,
            data_size: 0,
        }
    }
}

/// Frame type of an index entry.
#[derive(Debug, Clone, Copy, PartialEq, Eq, Structural)]
pub enum FrameType {
    /// Keyframe (I-frame).
    Keyframe,
    /// Predictive frame (P-frame).
    Predictive,
    /// Bidirectional frame (B-frame).
    Bidirectional,
    /// Branch point frame; must carry a nonzero branch id.
    BranchPoint,
    /// Merge point frame.
    MergePoint,
}

impl Default for FrameType {
    /// The default frame type is keyframe.
    fn default() -> (r: Self)
        ensures
            r is Keyframe,
    {
        FrameType::Keyframe
    }
}

/// Frame index record. Frame numbers are strictly increasing within a
/// track's index; a `BranchPoint` entry carries a nonzero branch id that
/// is a key into the container's branch point table.
#[derive(Debug, Clone, Copy, PartialEq, Eq, Structural)]
pub struct FrameIndexEntry {
    /// Frame number (0-indexed).
    pub frame_number: u64,
    /// Presentation timestamp in milliseconds.
    pub pts_ms: u64,
    /// Decode timestamp in milliseconds.
    pub dts_ms: u64,
    /// Frame type.
    pub frame_type: FrameType,
    /// Absolute byte offset of the frame data.
    pub data_offset: u64,
    /// Frame data size in bytes.
    pub data_size: u32,
    /// Branch point id (0 = none).
    pub branch_id: u32,
    /// Metadata offset (0 = none).
    pub metadata_offset: u64,
}

impl FrameIndexEntry {
    /// Creates a keyframe entry whose decode timestamp equals its
    /// presentation timestamp and which carries no branch or metadata.
    pub fn keyframe(frame_number: u64, pts_ms: u64, data_offset: u64, data_size: u32) -> (r: Self)
        ensures
            r == (FrameIndexEntry {
                frame_number,
                pts_ms,
                dts_ms: pts_ms,
                frame_type: FrameType::Keyframe,
                data_offset,
                data_size,
                branch_id: 0u32,
                metadata_offset: 0u64,
            }),
    {
        FrameIndexEntry {
            frame_number,
            pts_ms,
            dts_ms: pts_ms,
            frame_type: FrameType::Keyframe,
            data_offset,
            data_size,
            branch_id: 0,
            metadata_offset: 0,
        }
    }
}

/// How a branch point is resolved.
#[derive(Debug, Clone, Copy, PartialEq, Eq, Structural)]
pub enum BranchType {
    /// User choice (interactive).
    UserChoice,
    /// AI decision (agentic).
    AIDecision,
    /// Conditional (expression-based).
    Conditional,
    /// Random (A/B testing).
    Random,
    /// Time-based (scheduled).
    TimeBased,
    /// Context-aware (based on metadata).
    ContextAware,
}

impl Default for BranchType {
    /// The default branch type is user choice.
    fn default() -> (r: Self)
        ensures
            r is UserChoice,
    {
        BranchType::UserChoice
    }
}

/// One fork of a branch point. The weight is advisory, in thousandths, and
/// is only consulted by random or AI resolution; weights need not sum to
/// one whole.
#[derive(Debug, Clone)]
pub struct BranchFork {
    /// Fork identifier.
    pub fork_id: u32,
    /// Target frame number.
    pub target_frame: u64,
    /// Fork label.
    pub label: String,
    /// Fork weight in thousandths.
    pub weight_permille: u32,
}

/// A frame position offering several forward paths.
#[derive(Debug, Clone)]
pub struct BranchPoint {
    /// Branch id; a `FrameIndexEntry` refers to it by this key.
    pub branch_id: u32,
    /// Frame number where the branch occurs.
    pub frame_number: u64,
    /// Branch type.
    pub branch_type: BranchType,
    /// Available forks, in order.
    pub forks: Vec<BranchFork>,
}

impl BranchPoint {
    /// Creates a user-choice branch point.
    pub fn user_choice(branch_id: u32, frame_number: u64, forks: Vec<BranchFork>) -> (r: Self)
        ensures
            r.branch_id == branch_id,
            r.frame_number == frame_number,
            r.branch_type is UserChoice,
            r.forks == forks,
    {
        BranchPoint { branch_id, frame_number, branch_type: BranchType::UserChoice, forks }
    }

    /// Creates an AI-decision branch point.
    pub fn ai_decision(branch_id: u32, frame_number: u64, forks: Vec<BranchFork>) -> (r: Self)
        ensures
            r.branch_id == branch_id,
            r.frame_number == frame_number,
            r.branch_type is AIDecision,
            r.forks == forks,
    {
        BranchPoint { branch_id, frame_number, branch_type: BranchType::AIDecision, forks }
    }
}

} // verus!
