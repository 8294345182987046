//! Input format detection for the converter surface: extension-to-enum
//! mapping for the supported video, image, 3D, vector, audio and project
//! formats. The conversion machinery itself is an external collaborator.

use crate::text::{lower_of, lowercase, str_eq};
use vstd::prelude::*;
use vstd::string::StrSliceExecFns;

verus! {

/// Input format category.
#[derive(Debug, Clone, Copy, PartialEq, Eq, Structural, Hash)]
pub enum InputFormatCategory {
    /// Video/motion formats.
    Video,
    /// Static image formats.
    Image,
    /// 3D scene/model formats.
    Model3D,
    /// Vector graphics formats.
    Vector,
    /// Audio formats.
    Audio,
    /// Project/composition formats.
    Project,
}

/// Specific input format.
#[derive(Debug, Clone, Copy, PartialEq, Eq, Structural, Hash)]
pub enum InputFormat {
    /// MP4 container (H.264/H.265/AAC).
    Mp4,
    /// QuickTime MOV container.
    Mov,
    /// Matroska MKV container.
    Mkv,
    /// AVI container (legacy).
    Avi,
    /// WebM container (VP8/VP9/Opus).
    WebM,
    /// Windows Media Video.
    Wmv,
    /// Flash Video (legacy).
    Flv,
    /// MPEG Transport Stream.
    Ts,
    /// PNG (Portable Network Graphics).
    Png,
    /// JPEG.
    Jpeg,
    /// WebP.
    WebP,
    /// TIFF (Tagged Image File Format).
    Tiff,
    /// OpenEXR (HDR).
    Exr,
    /// Adobe Photoshop Document.
    Psd,
    /// GIF (animated).
    Gif,
    /// BMP (Windows Bitmap).
    Bmp,
    /// TGA (Targa).
    Tga,
    /// HEIF/HEIC.
    Heif,
    /// AVIF (AV1 Image).
    Avif,
    /// JPEG XL.
    Jxl,
    /// glTF 2.0 (JSON).
    Gltf,
    /// GLB (binary glTF).
    Glb,
    /// FBX (Autodesk).
    Fbx,
    /// OBJ (Wavefront).
    Obj,
    /// USD (Universal Scene Description).
    Usd,
    /// USDZ (compressed USD).
    Usdz,
    /// Blender native.
    Blend,
    /// 3DS Max (legacy).
    Max3ds,
    /// Collada DAE.
    Dae,
    /// STL (3D printing).
    Stl,
    /// PLY (point cloud).
    Ply,
    /// SVG (Scalable Vector Graphics).
    Svg,
    /// PDF (vector extraction).
    Pdf,
    /// Adobe Illustrator.
    Ai,
    /// EPS (Encapsulated PostScript).
    Eps,
    /// WAV (uncompressed).
    Wav,
    /// MP3.
    Mp3,
    /// AAC.
    Aac,
    /// FLAC (lossless).
    Flac,
    /// OGG Vorbis.
    Ogg,
    /// Opus.
    Opus,
    /// Premiere Pro.
    Prproj,
    /// After Effects.
    Aep,
    /// Final Cut Pro.
    Fcpxml,
    /// DaVinci Resolve.
    Drp,
}

/// The format a lowercase extension names, if any.
pub open spec fn spec_format_for_extension(s: Seq<char>) -> Option<InputFormat> {
    if s == "mp4"@ || s == "m4v"@ {
        Some(InputFormat::Mp4)
    } else if s == "mov"@ || s == "qt"@ {
        Some(InputFormat::Mov)
    } else if s == "mkv"@ {
        Some(InputFormat::Mkv)
    } else if s == "avi"@ {
        Some(InputFormat::Avi)
    } else if s == "webm"@ {
        Some(InputFormat::WebM)
    } else if s == "wmv"@ {
        Some(InputFormat::Wmv)
    } else if s == "flv"@ {
        Some(InputFormat::Flv)
    } else if s == "ts"@ || s == "mts"@ || s == "m2ts"@ {
        Some(InputFormat::Ts)
    } else if s == "png"@ {
        Some(InputFormat::Png)
    } else if s == "jpg"@ || s == "jpeg"@ {
        Some(InputFormat::Jpeg)
    } else if s == "webp"@ {
        Some(InputFormat::WebP)
    } else if s == "tiff"@ || s == "tif"@ {
        Some(InputFormat::Tiff)
    } else if s == "exr"@ {
        Some(InputFormat::Exr)
    } else if s == "psd"@ {
        Some(InputFormat::Psd)
    } else if s == "gif"@ {
        Some(InputFormat::Gif)
    } else if s == "bmp"@ {
        Some(InputFormat::Bmp)
    } else if s == "tga"@ {
        Some(InputFormat::Tga)
    } else if s == "heif"@ || s == "heic"@ {
        Some(InputFormat::Heif)
    } else if s == "avif"@ {
        Some(InputFormat::Avif)
    } else if s == "jxl"@ {
        Some(InputFormat::Jxl)
    } else if s == "gltf"@ {
        Some(InputFormat::Gltf)
    } else if s == "glb"@ {
        Some(InputFormat::Glb)
    } else if s == "fbx"@ {
        Some(InputFormat::Fbx)
    } else if s == "obj"@ {
        Some(InputFormat::Obj)
    } else if s == "usd"@ || s == "usda"@ || s == "usdc"@ {
        Some(InputFormat::Usd)
    } else if s == "usdz"@ {
        Some(InputFormat::Usdz)
    } else if s == "blend"@ {
        Some(InputFormat::Blend)
    } else if s == "3ds"@ {
        Some(InputFormat::Max3ds)
    } else if s == "dae"@ {
        Some(InputFormat::Dae)
    } else if s == "stl"@ {
        Some(InputFormat::Stl)
    } else if s == "ply"@ {
        Some(InputFormat::Ply)
    } else if s == "svg"@ {
        Some(InputFormat::Svg)
    } else if s == "pdf"@ {
        Some(InputFormat::Pdf)
    } else if s == "ai"@ {
        Some(InputFormat::Ai)
    } else if s == "eps"@ {
        Some(InputFormat::Eps)
    } else if s == "wav"@ {
        Some(InputFormat::Wav)
    } else if s == "mp3"@ {
        Some(InputFormat::Mp3)
    } else if s == "aac"@ || s == "m4a"@ {
        Some(InputFormat::Aac)
    } else if s == "flac"@ {
        Some(InputFormat::Flac)
    } else if s == "ogg"@ {
        Some(InputFormat::Ogg)
    } else if s == "opus"@ {
        Some(InputFormat::Opus)
    } else if s == "prproj"@ {
        Some(InputFormat::Prproj)
    } else if s == "aep"@ {
        Some(InputFormat::Aep)
    } else if s == "fcpxml"@ {
        Some(InputFormat::Fcpxml)
    } else if s == "drp"@ {
        Some(InputFormat::Drp)
    } else {
        None
    }
}

impl InputFormat {
    /// Returns the category this format belongs to.
    pub fn category(&self) -> (r: InputFormatCategory)
        ensures
            self is Mp4 ==> r is Video,
            self is Mov ==> r is Video,
            self is Mkv ==> r is Video,
            self is Avi ==> r is Video,
            self is WebM ==> r is Video,
            self is Wmv ==> r is Video,
            self is Flv ==> r is Video,
            self is Ts ==> r is Video,
            self is Png ==> r is Image,
            self is Jpeg ==> r is Image,
            self is WebP ==> r is Image,
            self is Tiff ==> r is Image,
            self is Exr ==> r is Image,
            self is Psd ==> r is Image,
            self is Gif ==> r is Image,
            self is Bmp ==> r is Image,
            self is Tga ==> r is Image,
            self is Heif ==> r is Image,
            self is Avif ==> r is Image,
            self is Jxl ==> r is Image,
            self is Gltf ==> r is Model3D,
            self is Glb ==> r is Model3D,
            self is Fbx ==> r is Model3D,
            self is Obj ==> r is Model3D,
            self is Usd ==> r is Model3D,
            self is Usdz ==> r is Model3D,
            self is Blend ==> r is Model3D,
            self is Max3ds ==> r is Model3D,
            self is Dae ==> r is Model3D,
            self is Stl ==> r is Model3D,
            self is Ply ==> r is Model3D,
            self is Svg ==> r is Vector,
            self is Pdf ==> r is Vector,
            self is Ai ==> r is Vector,
            self is Eps ==> r is Vector,
            self is Wav ==> r is Audio,
            self is Mp3 ==> r is Audio,
            self is Aac ==> r is Audio,
            self is Flac ==> r is Audio,
            self is Ogg ==> r is Audio,
            self is Opus ==> r is Audio,
            self is Prproj ==> r is Project,
            self is Aep ==> r is Project,
            self is Fcpxml ==> r is Project,
            self is Drp ==> r is Project,
    {
        match self {
            InputFormat::Mp4 => InputFormatCategory::Video,
            InputFormat::Mov => InputFormatCategory::Video,
            InputFormat::Mkv => InputFormatCategory::Video,
            InputFormat::Avi => InputFormatCategory::Video,
            InputFormat::WebM => InputFormatCategory::Video,
            InputFormat::Wmv => InputFormatCategory::Video,
            InputFormat::Flv => InputFormatCategory::Video,
            InputFormat::Ts => InputFormatCategory::Video,
            InputFormat::Png => InputFormatCategory::Image,
            InputFormat::Jpeg => InputFormatCategory::Image,
            InputFormat::WebP => InputFormatCategory::Image,
            InputFormat::Tiff => InputFormatCategory::Image,
            InputFormat::Exr => InputFormatCategory::Image,
            InputFormat::Psd => InputFormatCategory::Image,
            InputFormat::Gif => InputFormatCategory::Image,
            InputFormat::Bmp => InputFormatCategory::Image,
            InputFormat::Tga => InputFormatCategory::Image,
            InputFormat::Heif => InputFormatCategory::Image,
            InputFormat::Avif => InputFormatCategory::Image,
            InputFormat::Jxl => InputFormatCategory::Image,
            InputFormat::Gltf => InputFormatCategory::Model3D,
            InputFormat::Glb => InputFormatCategory::Model3D,
            InputFormat::Fbx => InputFormatCategory::Model3D,
            InputFormat::Obj => InputFormatCategory::Model3D,
            InputFormat::Usd => InputFormatCategory::Model3D,
            InputFormat::Usdz => InputFormatCategory::Model3D,
            InputFormat::Blend => InputFormatCategory::Model3D,
            InputFormat::Max3ds => InputFormatCategory::Model3D,
            InputFormat::Dae => InputFormatCategory::Model3D,
            InputFormat::Stl => InputFormatCategory::Model3D,
            InputFormat::Ply => InputFormatCategory::Model3D,
            InputFormat::Svg => InputFormatCategory::Vector,
            InputFormat::Pdf => InputFormatCategory::Vector,
            InputFormat::Ai => InputFormatCategory::Vector,
            InputFormat::Eps => InputFormatCategory::Vector,
            InputFormat::Wav => InputFormatCategory::Audio,
            InputFormat::Mp3 => InputFormatCategory::Audio,
            InputFormat::Aac => InputFormatCategory::Audio,
            InputFormat::Flac => InputFormatCategory::Audio,
            InputFormat::Ogg => InputFormatCategory::Audio,
            InputFormat::Opus => InputFormatCategory::Audio,
            InputFormat::Prproj => InputFormatCategory::Project,
            InputFormat::Aep => InputFormatCategory::Project,
            InputFormat::Fcpxml => InputFormatCategory::Project,
            InputFormat::Drp => InputFormatCategory::Project,
        }
    }

    /// Returns the canonical file extension for this format.
    pub fn extension(&self) -> (r: &'static str)
        ensures
            self is Mp4 ==> r@ == "mp4"@,
            self is Mov ==> r@ == "mov"@,
            self is Mkv ==> r@ == "mkv"@,
            self is Avi ==> r@ == "avi"@,
            self is WebM ==> r@ == "webm"@,
            self is Wmv ==> r@ == "wmv"@,
            self is Flv ==> r@ == "flv"@,
            self is Ts ==> r@ == "ts"@,
            self is Png ==> r@ == "png"@,
            self is Jpeg ==> r@ == "jpg"@,
            self is WebP ==> r@ == "webp"@,
            self is Tiff ==> r@ == "tiff"@,
            self is Exr ==> r@ == "exr"@,
            self is Psd ==> r@ == "psd"@,
            self is Gif ==> r@ == "gif"@,
            self is Bmp ==> r@ == "bmp"@,
            self is Tga ==> r@ == "tga"@,
            self is Heif ==> r@ == "heif"@,
            self is Avif ==> r@ == "avif"@,
            self is Jxl ==> r@ == "jxl"@,
            self is Gltf ==> r@ == "gltf"@,
            self is Glb ==> r@ == "glb"@,
            self is Fbx ==> r@ == "fbx"@,
            self is Obj ==> r@ == "obj"@,
            self is Usd ==> r@ == "usd"@,
            self is Usdz ==> r@ == "usdz"@,
            self is Blend ==> r@ == "blend"@,
            self is Max3ds ==> r@ == "3ds"@,
            self is Dae ==> r@ == "dae"@,
            self is Stl ==> r@ == "stl"@,
            self is Ply ==> r@ == "ply"@,
            self is Svg ==> r@ == "svg"@,
            self is Pdf ==> r@ == "pdf"@,
            self is Ai ==> r@ == "ai"@,
            self is Eps ==> r@ == "eps"@,
            self is Wav ==> r@ == "wav"@,
            self is Mp3 ==> r@ == "mp3"@,
            self is Aac ==> r@ == "aac"@,
            self is Flac ==> r@ == "flac"@,
            self is Ogg ==> r@ == "ogg"@,
            self is Opus ==> r@ == "opus"@,
            self is Prproj ==> r@ == "prproj"@,
            self is Aep ==> r@ == "aep"@,
            self is Fcpxml ==> r@ == "fcpxml"@,
            self is Drp ==> r@ == "drp"@,
    {
        match self {
            InputFormat::Mp4 => "mp4",
            InputFormat::Mov => "mov",
            InputFormat::Mkv => "mkv",
            InputFormat::Avi => "avi",
            InputFormat::WebM => "webm",
            InputFormat::Wmv => "wmv",
            InputFormat::Flv => "flv",
            InputFormat::Ts => "ts",
            InputFormat::Png => "png",
            InputFormat::Jpeg => "jpg",
            InputFormat::WebP => "webp",
            InputFormat::Tiff => "tiff",
            InputFormat::Exr => "exr",
            InputFormat::Psd => "psd",
            InputFormat::Gif => "gif",
            InputFormat::Bmp => "bmp",
            InputFormat::Tga => "tga",
            InputFormat::Heif => "heif",
            InputFormat::Avif => "avif",
            InputFormat::Jxl => "jxl",
            InputFormat::Gltf => "gltf",
            InputFormat::Glb => "glb",
            InputFormat::Fbx => "fbx",
            InputFormat::Obj => "obj",
            InputFormat::Usd => "usd",
            InputFormat::Usdz => "usdz",
            InputFormat::Blend => "blend",
            InputFormat::Max3ds => "3ds",
            InputFormat::Dae => "dae",
            InputFormat::Stl => "stl",
            InputFormat::Ply => "ply",
            InputFormat::Svg => "svg",
            InputFormat::Pdf => "pdf",
            InputFormat::Ai => "ai",
            InputFormat::Eps => "eps",
            InputFormat::Wav => "wav",
            InputFormat::Mp3 => "mp3",
            InputFormat::Aac => "aac",
            InputFormat::Flac => "flac",
            InputFormat::Ogg => "ogg",
            InputFormat::Opus => "opus",
            InputFormat::Prproj => "prproj",
            InputFormat::Aep => "aep",
            InputFormat::Fcpxml => "fcpxml",
            InputFormat::Drp => "drp",
        }
    }

    /// Detects the format from a file extension, matching
    /// case-insensitively over the known extensions and their aliases.
    pub fn from_extension(ext: &str) -> (r: Option<Self>)
        ensures
            r == spec_format_for_extension(lower_of(ext@)),
    {
        let lower = lowercase(ext);
        let l = lower.as_str();
        if str_eq(l, "mp4") || str_eq(l, "m4v") {
            Some(InputFormat::Mp4)
        } else if str_eq(l, "mov") || str_eq(l, "qt") {
            Some(InputFormat::Mov)
        } else if str_eq(l, "mkv") {
            Some(InputFormat::Mkv)
        } else if str_eq(l, "avi") {
            Some(InputFormat::Avi)
        } else if str_eq(l, "webm") {
            Some(InputFormat::WebM)
        } else if str_eq(l, "wmv") {
            Some(InputFormat::Wmv)
        } else if str_eq(l, "flv") {
            Some(InputFormat::Flv)
        } else if str_eq(l, "ts") || str_eq(l, "mts") || str_eq(l, "m2ts") {
            Some(InputFormat::Ts)
        } else if str_eq(l, "png") {
            Some(InputFormat::Png)
        } else if str_eq(l, "jpg") || str_eq(l, "jpeg") {
            Some(InputFormat::Jpeg)
        } else if str_eq(l, "webp") {
            Some(InputFormat::WebP)
        } else if str_eq(l, "tiff") || str_eq(l, "tif") {
            Some(InputFormat::Tiff)
        } else if str_eq(l, "exr") {
            Some(InputFormat::Exr)
        } else if str_eq(l, "psd") {
            Some(InputFormat::Psd)
        } else if str_eq(l, "gif") {
            Some(InputFormat::Gif)
        } else if str_eq(l, "bmp") {
            Some(InputFormat::Bmp)
        } else if str_eq(l, "tga") {
            Some(InputFormat::Tga)
        } else if str_eq(l, "heif") || str_eq(l, "heic") {
            Some(InputFormat::Heif)
        } else if str_eq(l, "avif") {
            Some(InputFormat::Avif)
        } else if str_eq(l, "jxl") {
            Some(InputFormat::Jxl)
        } else if str_eq(l, "gltf") {
            Some(InputFormat::Gltf)
        } else if str_eq(l, "glb") {
            Some(InputFormat::Glb)
        } else if str_eq(l, "fbx") {
            Some(InputFormat::Fbx)
        } else if str_eq(l, "obj") {
            Some(InputFormat::Obj)
        } else if str_eq(l, "usd") || str_eq(l, "usda") || str_eq(l, "usdc") {
            Some(InputFormat::Usd)
        } else if str_eq(l, "usdz") {
            Some(InputFormat::Usdz)
        } else if str_eq(l, "blend") {
            Some(InputFormat::Blend)
        } else if str_eq(l, "3ds") {
            Some(InputFormat::Max3ds)
        } else if str_eq(l, "dae") {
            Some(InputFormat::Dae)
        } else if str_eq(l, "stl") {
            Some(InputFormat::Stl)
        } else if str_eq(l, "ply") {
            Some(InputFormat::Ply)
        } else if str_eq(l, "svg") {
            Some(InputFormat::Svg)
        } else if str_eq(l, "pdf") {
            Some(InputFormat::Pdf)
        } else if str_eq(l, "ai") {
            Some(InputFormat::Ai)
        } else if str_eq(l, "eps") {
            Some(InputFormat::Eps)
        } else if str_eq(l, "wav") {
            Some(InputFormat::Wav)
        } else if str_eq(l, "mp3") {
            Some(InputFormat::Mp3)
        } else if str_eq(l, "aac") || str_eq(l, "m4a") {
            Some(InputFormat::Aac)
        } else if str_eq(l, "flac") {
            Some(InputFormat::Flac)
        } else if str_eq(l, "ogg") {
            Some(InputFormat::Ogg)
        } else if str_eq(l, "opus") {
            Some(InputFormat::Opus)
        } else if str_eq(l, "prproj") {
            Some(InputFormat::Prproj)
        } else if str_eq(l, "aep") {
            Some(InputFormat::Aep)
        } else if str_eq(l, "fcpxml") {
            Some(InputFormat::Fcpxml)
        } else if str_eq(l, "drp") {
            Some(InputFormat::Drp)
        } else {
            None
        }
    }

    /// Returns whether this format requires an external decoder.
    pub fn requires_external_decoder(&self) -> (r: bool)
        ensures
            self is Aep ==> r,
            self is Ai ==> r,
            self is Blend ==> r,
            self is Drp ==> r,
            self is Fcpxml ==> r,
            self is Prproj ==> r,
            self is Psd ==> r,
            self is Mp4 ==> !r,
            self is Mov ==> !r,
            self is Mkv ==> !r,
            self is Avi ==> !r,
            self is WebM ==> !r,
            self is Wmv ==> !r,
            self is Flv ==> !r,
            self is Ts ==> !r,
            self is Png ==> !r,
            self is Jpeg ==> !r,
            self is WebP ==> !r,
            self is Tiff ==> !r,
            self is Exr ==> !r,
            self is Gif ==> !r,
            self is Bmp ==> !r,
            self is Tga ==> !r,
            self is Heif ==> !r,
            self is Avif ==> !r,
            self is Jxl ==> !r,
            self is Gltf ==> !r,
            self is Glb ==> !r,
            self is Fbx ==> !r,
            self is Obj ==> !r,
            self is Usd ==> !r,
            self is Usdz ==> !r,
            self is Max3ds ==> !r,
            self is Dae ==> !r,
            self is Stl ==> !r,
            self is Ply ==> !r,
            self is Svg ==> !r,
            self is Pdf ==> !r,
            self is Eps ==> !r,
            self is Wav ==> !r,
            self is Mp3 ==> !r,
            self is Aac ==> !r,
            self is Flac ==> !r,
            self is Ogg ==> !r,
            self is Opus ==> !r,
    {
        matches!(
            self,
            InputFormat::Aep | InputFormat::Ai | InputFormat::Blend | InputFormat::Drp | InputFormat::Fcpxml | InputFormat::Prproj | InputFormat::Psd
        )
    }
}

/// The position just after the last dot of a character sequence, or 0
/// when it holds none: the start of the extension suffix.
pub open spec fn spec_suffix_start(s: Seq<char>) -> int
    decreases s.len(),
{
    if s.len() == 0 {
        0
    } else if s.last() == '.' {
        s.len() as int
    } else {
        spec_suffix_start(s.drop_last())
    }
}

/// Detects the input format of a path from the text after its last dot;
/// a path without a dot is tried whole.
pub fn detect_format(path: &str) -> (r: Option<InputFormat>)
    ensures
        r == spec_format_for_extension(
            lower_of(path@.subrange(spec_suffix_start(path@), path@.len() as int)),
        ),
{
    let len = path.unicode_len();
    let mut start: usize = len;
    proof {
        assert(path@.take(len as int) =~= path@);
    }
    loop
        invariant
            0 <= start <= len,
            len == path@.len(),
            spec_suffix_start(path@) == spec_suffix_start(path@.take(start as int)),
        ensures
            len == path@.len(),
            start == spec_suffix_start(path@),
        decreases start,
    {
        if start == 0 {
            break;
        }
        if path.get_char(start - 1) == '.' {
            proof {
                assert(path@.take(start as int).last() == '.');
                assert(spec_suffix_start(path@.take(start as int)) == start);
            }
            break;
        }
        proof {
            assert(path@.take(start as int).last() != '.');
            assert(path@.take(start as int).drop_last() =~= path@.take(start - 1));
        }
        start = start - 1;
    }
    let ext = path.substring_char(start, len);
    InputFormat::from_extension(ext)
}

/// Output format for conversion.
#[derive(Debug, Clone, Copy, PartialEq, Eq, Structural, Hash)]
pub enum OutputFormat {
    /// Layered video container: a video timeline.
    Evlf,
    /// UI composition container.
    Efui,
    /// Single layer extraction.
    UniversalLayer,
}

impl Default for OutputFormat {
    /// The default output is the layered video container.
    fn default() -> (r: Self)
        ensures
            r is Evlf,
    {
        OutputFormat::Evlf
    }
}

/// Conversion phase.
#[derive(Debug, Clone, Copy, PartialEq, Eq, Structural, Hash)]
pub enum ConversionPhase {
    /// Analyzing the input format.
    Analyzing,
    /// Extracting metadata.
    ExtractingMetadata,
    /// Decoding frames.
    Decoding,
    /// Processing/transcoding.
    Processing,
    /// Generating the index.
    GeneratingIndex,
    /// Writing output.
    Writing,
    /// Finalizing.
    Finalizing,
}

} // verus!
