//! Render pipeline configuration: backend selection, quality presets,
//! anti-aliasing, render passes and shader options.

use vstd::prelude::*;

verus! {

/// GPU backend selection.
#[derive(Debug, Clone, Copy, PartialEq, Eq, Structural, Hash)]
pub enum GpuBackend {
    /// Automatic selection.
    Auto,
    /// Vulkan.
    Vulkan,
    /// DirectX 12.
    Dx12,
    /// Metal.
    Metal,
    /// OpenGL.
    OpenGl,
    /// WebGPU.
    WebGpu,
    /// CPU fallback.
    Cpu,
}

impl GpuBackend {
    /// Returns the backend name.
    pub fn name(&self) -> (r: &'static str)
        ensures
            self is Auto ==> r@ == "Auto"@,
            self is Vulkan ==> r@ == "Vulkan"@,
            self is Dx12 ==> r@ == "DirectX 12"@,
            self is Metal ==> r@ == "Metal"@,
            self is OpenGl ==> r@ == "OpenGL"@,
            self is WebGpu ==> r@ == "WebGPU"@,
            self is Cpu ==> r@ == "CPU"@,
    {
        match self {
            GpuBackend::Auto => "Auto",
            GpuBackend::Vulkan => "Vulkan",
            GpuBackend::Dx12 => "DirectX 12",
            GpuBackend::Metal => "Metal",
            GpuBackend::OpenGl => "OpenGL",
            GpuBackend::WebGpu => "WebGPU",
            GpuBackend::Cpu => "CPU",
        }
    }

    /// Returns whether this is a GPU backend.
    pub fn is_gpu(&self) -> (r: bool)
        ensures
            r == !(self is Cpu),
    {
        !matches!(self, GpuBackend::Cpu)
    }
}

impl Default for GpuBackend {
    /// The default backend is automatic.
    fn default() -> (r: Self)
        ensures
            r is Auto,
    {
        GpuBackend::Auto
    }
}

/// Render quality preset.
#[derive(Debug, Clone, Copy, PartialEq, Eq, Structural, Hash)]
pub enum QualityPreset {
    /// Draft quality, fastest.
    Draft,
    /// Preview quality.
    Preview,
    /// Standard quality.
    Standard,
    /// High quality.
    High,
    /// Ultra quality, highest.
    Ultra,
    /// Custom settings.
    Custom,
}

impl QualityPreset {
    /// Returns the preset name.
    pub fn name(&self) -> (r: &'static str)
        ensures
            self is Draft ==> r@ == "Draft"@,
            self is Preview ==> r@ == "Preview"@,
            self is Standard ==> r@ == "Standard"@,
            self is High ==> r@ == "High"@,
            self is Ultra ==> r@ == "Ultra"@,
            self is Custom ==> r@ == "Custom"@,
    {
        match self {
            QualityPreset::Draft => "Draft",
            QualityPreset::Preview => "Preview",
            QualityPreset::Standard => "Standard",
            QualityPreset::High => "High",
            QualityPreset::Ultra => "Ultra",
            QualityPreset::Custom => "Custom",
        }
    }

    /// Returns the recommended sample count.
    pub fn sample_count(&self) -> (r: u32)
        ensures
            (self is Draft || self is Preview) ==> r == 1,
            (self is Standard || self is Custom) ==> r == 4,
            self is High ==> r == 8,
            self is Ultra ==> r == 16,
    {
        match self {
            QualityPreset::Draft => 1,
            QualityPreset::Preview => 1,
            QualityPreset::Standard => 4,
            QualityPreset::High => 8,
            QualityPreset::Ultra => 16,
            QualityPreset::Custom => 4,
        }
    }

    /// Returns the recommended motion blur sample count.
    pub fn motion_blur_samples(&self) -> (r: u32)
        ensures
            self is Draft ==> r == 0,
            self is Preview ==> r == 4,
            (self is Standard || self is Custom) ==> r == 16,
            self is High ==> r == 32,
            self is Ultra ==> r == 64,
    {
        match self {
            QualityPreset::Draft => 0,
            QualityPreset::Preview => 4,
            QualityPreset::Standard => 16,
            QualityPreset::High => 32,
            QualityPreset::Ultra => 64,
            QualityPreset::Custom => 16,
        }
    }
}

impl Default for QualityPreset {
    /// The default preset is standard.
    fn default() -> (r: Self)
        ensures
            r is Standard,
    {
        QualityPreset::Standard
    }
}

/// Anti-aliasing mode.
#[derive(Debug, Clone, Copy, PartialEq, Eq, Structural, Hash)]
pub enum AntialiasingMode {
    /// No anti-aliasing.
    Off,
    /// MSAA 2x.
    Msaa2x,
    /// MSAA 4x.
    Msaa4x,
    /// MSAA 8x.
    Msaa8x,
    /// MSAA 16x.
    Msaa16x,
    /// FXAA (fast approximate).
    Fxaa,
    /// TAA (temporal).
    Taa,
    /// SMAA (subpixel morphological).
    Smaa,
}

impl AntialiasingMode {
    /// Returns the sample count for MSAA modes.
    pub fn sample_count(&self) -> (r: u32)
        ensures
            (self is Off || self is Fxaa || self is Smaa) ==> r == 1,
            self is Msaa2x ==> r == 2,
            (self is Msaa4x || self is Taa) ==> r == 4,
            self is Msaa8x ==> r == 8,
            self is Msaa16x ==> r == 16,
    {
        match self {
            AntialiasingMode::Off | AntialiasingMode::Fxaa | AntialiasingMode::Smaa => 1,
            AntialiasingMode::Msaa2x => 2,
            AntialiasingMode::Msaa4x | AntialiasingMode::Taa => 4,
            AntialiasingMode::Msaa8x => 8,
            AntialiasingMode::Msaa16x => 16,
        }
    }

    /// Returns whether this mode needs a resolve pass.
    pub fn requires_resolve(&self) -> (r: bool)
        ensures
            r == (self is Msaa2x || self is Msaa4x || self is Msaa8x || self is Msaa16x),
    {
        matches!(
            self,
            AntialiasingMode::Msaa2x | AntialiasingMode::Msaa4x | AntialiasingMode::Msaa8x
                | AntialiasingMode::Msaa16x
        )
    }
}

impl Default for AntialiasingMode {
    /// The default anti-aliasing mode is MSAA 4x.
    fn default() -> (r: Self)
        ensures
            r is Msaa4x,
    {
        AntialiasingMode::Msaa4x
    }
}

/// Render pipeline configuration. Named shader defines are key-value
/// pairs.
#[derive(Debug, Clone)]
pub struct PipelineConfig {
    /// GPU backend to use.
    pub backend: GpuBackend,
    /// Quality preset.
    pub quality: QualityPreset,
    /// Maximum texture resolution.
    pub max_texture_size: u32,
    /// Enable motion blur.
    pub motion_blur_enabled: bool,
    /// Motion blur sample count.
    pub motion_blur_samples: u32,
    /// Enable depth of field.
    pub dof_enabled: bool,
    /// Anti-aliasing mode.
    pub antialiasing: AntialiasingMode,
    /// Enable HDR rendering.
    pub hdr_enabled: bool,
    /// Enable color management.
    pub color_managed: bool,
    /// Cache size in megabytes.
    pub cache_size_mb: u32,
    /// Enable GPU memory pooling.
    pub memory_pooling: bool,
    /// Parallel render threads (0 = automatic).
    pub render_threads: u32,
    /// Enable async compute.
    pub async_compute: bool,
    /// Custom shader defines.
    pub shader_defines: Vec<(String, String)>,
}

impl Default for PipelineConfig {
    /// Default: automatic backend, standard quality, motion blur and
    /// depth of field on, MSAA 4x, HDR and color management on, a 2 GB
    /// cache, pooling and async compute on.
    fn default() -> (r: Self)
        ensures
            r.backend is Auto,
            r.quality is Standard,
            r.max_texture_size == 16384,
            r.motion_blur_enabled,
            r.motion_blur_samples == 16,
            r.dof_enabled,
            r.antialiasing is Msaa4x,
            r.hdr_enabled,
            r.color_managed,
            r.cache_size_mb == 2048,
            r.memory_pooling,
            r.render_threads == 0,
            r.async_compute,
            r.shader_defines@.len() == 0,
    {
        PipelineConfig {
            backend: GpuBackend::Auto,
            quality: QualityPreset::Standard,
            max_texture_size: 16384,
            motion_blur_enabled: true,
            motion_blur_samples: 16,
            dof_enabled: true,
            antialiasing: AntialiasingMode::Msaa4x,
            hdr_enabled: true,
            color_managed: true,
            cache_size_mb: 2048,
            memory_pooling: true,
            render_threads: 0,
            async_compute: true,
            shader_defines: Vec::new(),
        }
    }
}

impl PipelineConfig {
    /// Creates a draft config for fast previews: no motion blur, depth of
    /// field or anti-aliasing, a 512 MB cache.
    pub fn draft() -> (r: Self)
        ensures
            r.quality is Draft,
            !r.motion_blur_enabled,
            r.motion_blur_samples == 0,
            !r.dof_enabled,
            r.antialiasing is Off,
            r.cache_size_mb == 512,
    {
        PipelineConfig {
            quality: QualityPreset::Draft,
            motion_blur_enabled: false,
            motion_blur_samples: 0,
            dof_enabled: false,
            antialiasing: AntialiasingMode::Off,
            cache_size_mb: 512,
            ..PipelineConfig::default()
        }
    }

    /// Creates a high-quality config for final renders.
    pub fn high_quality() -> (r: Self)
        ensures
            r.quality is High,
            r.max_texture_size == 32768,
            r.motion_blur_samples == 32,
            r.antialiasing is Msaa8x,
            r.cache_size_mb == 4096,
    {
        PipelineConfig {
            quality: QualityPreset::High,
            max_texture_size: 32768,
            motion_blur_samples: 32,
            antialiasing: AntialiasingMode::Msaa8x,
            cache_size_mb: 4096,
            ..PipelineConfig::default()
        }
    }

    /// Creates an ultra-quality config.
    pub fn ultra() -> (r: Self)
        ensures
            r.quality is Ultra,
            r.max_texture_size == 65536,
            r.motion_blur_samples == 64,
            r.antialiasing is Msaa16x,
            r.cache_size_mb == 8192,
    {
        PipelineConfig {
            quality: QualityPreset::Ultra,
            max_texture_size: 65536,
            motion_blur_samples: 64,
            antialiasing: AntialiasingMode::Msaa16x,
            cache_size_mb: 8192,
            ..PipelineConfig::default()
        }
    }

    /// Appends a shader define.
    pub fn set_define(&mut self, key: String, value: String)
        ensures
            final(self).shader_defines@ == old(self).shader_defines@.push((key, value)),
            final(self).backend == old(self).backend,
            final(self).quality == old(self).quality,
    {
        self.shader_defines.push((key, value));
    }
}

/// Render pass kind.
#[derive(Debug, Clone, Copy, PartialEq, Eq, Structural, Hash)]
pub enum RenderPassType {
    /// Geometry pass.
    Geometry,
    /// Shadow pass.
    Shadow,
    /// Lighting pass.
    Lighting,
    /// Post-processing pass.
    PostProcess,
    /// Composite pass.
    Composite,
    /// UI overlay pass.
    Ui,
    /// Final output pass.
    Output,
}

/// Render pass configuration.
#[derive(Debug, Clone)]
pub struct RenderPass {
    /// Pass kind.
    pub pass_type: RenderPassType,
    /// Pass name.
    pub name: String,
    /// Whether the pass is enabled.
    pub enabled: bool,
    /// Input attachment names.
    pub inputs: Vec<String>,
    /// Output attachment names.
    pub outputs: Vec<String>,
    /// Pass dependencies by name.
    pub dependencies: Vec<String>,
}

impl RenderPass {
    /// Creates an enabled pass with no attachments.
    pub fn new(pass_type: RenderPassType, name: String) -> (r: Self)
        ensures
            r.pass_type == pass_type,
            r.name == name,
            r.enabled,
            r.inputs@.len() == 0,
            r.outputs@.len() == 0,
            r.dependencies@.len() == 0,
    {
        RenderPass {
            pass_type,
            name,
            enabled: true,
            inputs: Vec::new(),
            outputs: Vec::new(),
            dependencies: Vec::new(),
        }
    }

    /// Adds an input attachment.
    pub fn with_input(self, input: String) -> (r: Self)
        ensures
            r.inputs@ == self.inputs@.push(input),
            r.pass_type == self.pass_type,
            r.name == self.name,
            r.outputs == self.outputs,
    {
        let mut p = self;
        p.inputs.push(input);
        p
    }

    /// Adds an output attachment.
    pub fn with_output(self, output: String) -> (r: Self)
        ensures
            r.outputs@ == self.outputs@.push(output),
            r.pass_type == self.pass_type,
            r.name == self.name,
            r.inputs == self.inputs,
    {
        let mut p = self;
        p.outputs.push(output);
        p
    }
}

/// Attachment format.
#[derive(Debug, Clone, Copy, PartialEq, Eq, Structural, Hash)]
pub enum AttachmentFormat {
    /// RGBA 8-bit unorm.
    Rgba8Unorm,
    /// RGBA 8-bit sRGB.
    Rgba8Srgb,
    /// RGBA 16-bit float.
    Rgba16Float,
    /// RGBA 32-bit float.
    Rgba32Float,
    /// Depth 16-bit.
    Depth16,
    /// Depth 24-bit.
    Depth24,
    /// Depth 32-bit float.
    Depth32Float,
    /// Depth 24 plus stencil 8.
    Depth24Stencil8,
}

impl Default for AttachmentFormat {
    /// The default attachment format is 16-bit float RGBA.
    fn default() -> (r: Self)
        ensures
            r is Rgba16Float,
    {
        AttachmentFormat::Rgba16Float
    }
}

/// Load operation.
#[derive(Debug, Clone, Copy, PartialEq, Eq, Structural, Hash)]
pub enum LoadOp {
    /// Load the existing contents.
    Load,
    /// Clear to a value.
    Clear,
    /// The initial contents do not matter.
    DontCare,
}

impl Default for LoadOp {
    /// The default load operation clears.
    fn default() -> (r: Self)
        ensures
            r is Clear,
    {
        LoadOp::Clear
    }
}

/// Store operation.
#[derive(Debug, Clone, Copy, PartialEq, Eq, Structural, Hash)]
pub enum StoreOp {
    /// Store the contents.
    Store,
    /// The contents do not matter afterwards.
    DontCare,
}

impl Default for StoreOp {
    /// The default store operation stores.
    fn default() -> (r: Self)
        ensures
            r is Store,
    {
        StoreOp::Store
    }
}

/// Attachment configuration.
#[derive(Debug, Clone, Copy, PartialEq, Eq, Structural)]
pub struct AttachmentConfig {
    /// Width (0 = framebuffer width).
    pub width: u32,
    /// Height (0 = framebuffer height).
    pub height: u32,
    /// Pixel format.
    pub format: AttachmentFormat,
    /// Sample count.
    pub samples: u32,
    /// Load operation.
    pub load_op: LoadOp,
    /// Store operation.
    pub store_op: StoreOp,
}

impl Default for AttachmentConfig {
    /// Default: framebuffer-sized 16-bit float RGBA, single sample,
    /// cleared on load and stored.
    fn default() -> (r: Self)
        ensures
            r == (AttachmentConfig {
                width: 0u32,
                height: 0u32,
                format: AttachmentFormat::Rgba16Float,
                samples: 1u32,
                load_op: LoadOp::Clear,
                store_op: StoreOp::Store,
            }),
    {
        AttachmentConfig {
            width: 0,
            height: 0,
            format: AttachmentFormat::Rgba16Float,
            samples: 1,
            load_op: LoadOp::Clear,
            store_op: StoreOp::Store,
        }
    }
}

/// Render graph: passes in execution order and named attachments.
#[derive(Debug, Clone)]
pub struct RenderGraph {
    passes: Vec<RenderPass>,
    order: Vec<usize>,
    attachments: Vec<(String, AttachmentConfig)>,
}

impl RenderGraph {
    /// The passes.
    pub closed spec fn spec_passes(self) -> Seq<RenderPass> {
        self.passes@
    }

    /// The execution order, as indices into the passes.
    pub closed spec fn spec_order(self) -> Seq<usize> {
        self.order@
    }

    /// The named attachments.
    pub closed spec fn spec_attachments(self) -> Seq<(String, AttachmentConfig)> {
        self.attachments@
    }

    /// Creates an empty render graph.
    pub fn new() -> (r: Self)
        ensures
            r.spec_passes().len() == 0,
            r.spec_order().len() == 0,
            r.spec_attachments().len() == 0,
    {
        RenderGraph { passes: Vec::new(), order: Vec::new(), attachments: Vec::new() }
    }

    /// Appends a pass at the end of the execution order.
    pub fn add_pass(&mut self, pass: RenderPass)
        ensures
            final(self).spec_passes() == old(self).spec_passes().push(pass),
            final(self).spec_order() == old(self).spec_order().push(
                old(self).spec_passes().len() as usize,
            ),
            final(self).spec_attachments() == old(self).spec_attachments(),
    {
        self.passes.push(pass);
        let idx = self.passes.len() - 1;
        self.order.push(idx);
    }

    /// Defines a named attachment.
    pub fn define_attachment(&mut self, name: String, config: AttachmentConfig)
        ensures
            final(self).spec_attachments() == old(self).spec_attachments().push((name, config)),
            final(self).spec_passes() == old(self).spec_passes(),
            final(self).spec_order() == old(self).spec_order(),
    {
        self.attachments.push((name, config));
    }

    /// Returns the number of passes.
    pub fn pass_count(&self) -> (r: usize)
        ensures
            r == self.spec_passes().len(),
    {
        self.passes.len()
    }

    /// Returns the pass execution order.
    pub fn execution_order(&self) -> (r: &Vec<usize>)
        ensures
            r@ == self.spec_order(),
    {
        &self.order
    }
}

impl Default for RenderGraph {
    /// The default render graph is empty.
    fn default() -> (r: Self)
        ensures
            r.spec_passes().len() == 0,
    {
        RenderGraph::new()
    }
}

/// Shader stage.
#[derive(Debug, Clone, Copy, PartialEq, Eq, Structural, Hash)]
pub enum ShaderStage {
    /// Vertex shader.
    Vertex,
    /// Fragment/pixel shader.
    Fragment,
    /// Compute shader.
    Compute,
    /// Geometry shader.
    Geometry,
    /// Tessellation control.
    TessControl,
    /// Tessellation evaluation.
    TessEvaluation,
}

impl Default for ShaderStage {
    /// The default stage is the vertex shader.
    fn default() -> (r: Self)
        ensures
            r is Vertex,
    {
        ShaderStage::Vertex
    }
}

/// Shader optimization level.
#[derive(Debug, Clone, Copy, PartialEq, Eq, Structural, Hash)]
pub enum OptimizationLevel {
    /// No optimization.
    Off,
    /// Basic optimization.
    Basic,
    /// Performance optimization.
    Performance,
    /// Size optimization.
    Size,
}

impl Default for OptimizationLevel {
    /// The default level optimizes for performance.
    fn default() -> (r: Self)
        ensures
            r is Performance,
    {
        OptimizationLevel::Performance
    }
}

/// Shader compilation options.
#[derive(Debug, Clone)]
pub struct ShaderOptions {
    /// Shader entry point.
    pub entry_point: String,
    /// Shader stage.
    pub stage: ShaderStage,
    /// Optimization level.
    pub optimize: OptimizationLevel,
    /// Whether debug information is kept.
    pub debug_info: bool,
    /// Preprocessor defines.
    pub defines: Vec<(String, String)>,
}

impl Default for ShaderOptions {
    /// The default options compile a vertex shader optimized for
    /// performance without debug information.
    fn default() -> (r: Self)
        ensures
            r.entry_point@.len() == 0,
            r.stage is Vertex,
            r.optimize is Performance,
            !r.debug_info,
            r.defines@.len() == 0,
    {
        ShaderOptions {
            entry_point: String::new(),
            stage: ShaderStage::Vertex,
            optimize: OptimizationLevel::Performance,
            debug_info: false,
            defines: Vec::new(),
        }
    }
}

} // verus!
