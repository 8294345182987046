//! Non-linear video editing data model: a layered-video container format
//! with byte-exact encoding, keyframe animation tracks, timeline and
//! transition management, and an export job queue, all with verified
//! contracts.

mod animation;
mod assets;
mod audio;
mod clip;
mod codec;
mod color;
mod config;
mod converter;
mod core_types;
mod effects;
mod errors;
mod evlf;
mod frame;
mod grading;
mod export;
mod gpu;
mod markers;
mod meta;
mod pipeline;
mod plugin;
mod preview;
mod project;
mod text;
mod timeline;
mod transitions;

pub use animation::{
    AnimationLayer, AnimationLoopMode, AnimationManager, AnimationSettings, AnimationTrack,
    AnimationTrackId, InterpolationType, Keyframe, TrackSample,
};
pub use assets::AssetLibrary;
pub use audio::{
    AudioBus, AudioBusId, AudioBusType, AudioChannelConfig, AudioEffectType, AudioMixer,
    AudioTrackStrip, PanLaw,
};
pub use clip::{AudioClip, ClipMetadata, ClipState, VideoClip};
pub use codec::{
    Av1Profile, CodecId, CodecParams, DecoderConfig, EncoderConfig, H264Profile, H265Profile,
    HwAccelPreference, ProResVariant, RateControlMode,
};
pub use color::{
    ChromaLocation, Chromaton, ColorModel, ColorPrimaries, ColorRange, ComponentId, Formaton,
    MatrixCoefficients, TransferFunction,
};
pub use config::VideoEditorConfig;
pub use converter::{
    ConversionPhase, InputFormat, InputFormatCategory, OutputFormat, detect_format,
};
pub use core_types::{
    AspectRatio, AudioFormat, Duration, FrameRate, MediaKind, Resolution, TimeInfo, TimePosition,
    TimelinePosition, Timestamp, VideoFormat,
};
pub use effects::{EffectType, EffectsPipeline, VideoEffect};
pub use errors::{VideoEditorError, VideoEditorResult};
pub use export::{
    AudioCodec, AudioEncodingSettings, ContainerFormat, DnxProfile, EncodingPreset, ExportJob,
    ExportJobId, ExportMetadata, ExportPreset, ExportProgress, ExportQueue, ExportSettings,
    ExportStatus, PresetCategory,
    HardwareAccel, PixelFormat, ProResProfile, RateControl, VideoCodec, VideoEncodingSettings,
};
pub use evlf::{
    BlendMode, BranchFork, BranchPoint, BranchType, EVLF_HEADER_SIZE, EVLF_MAGIC,
    EVLF_TRAILER_MAGIC, EVLF_VERSION, EvlfFlags, EvlfHeader, EvlfTrackHeader, EvlfTrackType,
    FrameIndexEntry, FrameType, TrackFlags,
};
pub use frame::{
    AudioInfo, FrameBuffer, FrameBufferPool, FrameData, FrameError, PictureType, PlaneDescriptor,
    VideoFrame, VideoInfo,
};
pub use gpu::GpuPipeline;
pub use grading::{ColorSpace, LutInterpolation};
pub use markers::{Marker, MarkerFilter, MarkerId, MarkerManager, MarkerType};
pub use meta::{
    Annotation, AnnotationType, BoundingBox, FrameMetadata, MetadataIndex, ObjectDetection,
    SceneClassification, SemanticRegion, TrackingState,
};
pub use pipeline::{
    AntialiasingMode, AttachmentConfig, AttachmentFormat, GpuBackend, LoadOp, OptimizationLevel,
    PipelineConfig, QualityPreset, RenderGraph, RenderPass, RenderPassType, ShaderOptions,
    ShaderStage, StoreOp,
};
pub use text::{parse_u64, str_contains, str_eq};
pub use plugin::VideoEditorPlugin;
pub use project::{
    AutosaveInfo, Project, ProjectId, ProjectManager, ProjectMetadata, ProjectSettings,
    ProjectState, ProjectTemplate, ProjectVersion, RecentFile,
};
pub use preview::{
    CachedFrame, FrameCache, InOutPoints, LoopMode, PlaybackSpeed, PlaybackState, PreviewManager,
    PreviewQuality,
};
pub use timeline::{TimelineClip, TimelineManager, TimelineTrack, TrackType};
pub use transitions::{
    ClockDirection, CubeAxis, IrisShape, PageTurnDirection, PushDirection, SlideDirection,
    Transition, TransitionEasing, TransitionId, TransitionManager, TransitionParameters,
    TransitionPlacement, TransitionPreset, TransitionType, WipeDirection, ZoomType,
};
