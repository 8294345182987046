//! Color grading surface: working color spaces and LUT interpolation
//! modes. The per-pixel grading mathematics belongs to the rendering
//! side.

use vstd::prelude::*;

verus! {

/// Color space for grading operations.
#[derive(Debug, Clone, Copy, PartialEq, Eq, Structural, Hash)]
pub enum ColorSpace {
    /// Standard sRGB.
    Srgb,
    /// Rec. 709 (HD broadcast).
    Rec709,
    /// Rec. 2020 (UHD/HDR).
    Rec2020,
    /// DCI-P3 (digital cinema).
    DciP3,
    /// ACEScg (VFX working space).
    AcesCg,
    /// ACES 2065-1 (archival).
    Aces2065,
    /// Log encoding (generic).
    Log,
    /// S-Log3 (Sony).
    SLog3,
    /// V-Log (Panasonic).
    VLog,
    /// C-Log (Canon).
    CLog,
    /// ProRes Log.
    ProResLog,
}

impl ColorSpace {
    /// Returns whether this is a log color space.
    pub fn is_log(&self) -> (r: bool)
        ensures
            r == (self is Log || self is SLog3 || self is VLog || self is CLog
                || self is ProResLog),
    {
        matches!(
            self,
            ColorSpace::Log | ColorSpace::SLog3 | ColorSpace::VLog | ColorSpace::CLog
                | ColorSpace::ProResLog
        )
    }
}

impl Default for ColorSpace {
    /// The default color space is sRGB.
    fn default() -> (r: Self)
        ensures
            r is Srgb,
    {
        ColorSpace::Srgb
    }
}

/// LUT interpolation mode.
#[derive(Debug, Clone, Copy, PartialEq, Eq, Structural, Hash)]
pub enum LutInterpolation {
    /// Nearest neighbor (fastest).
    Nearest,
    /// Trilinear interpolation.
    Trilinear,
    /// Tetrahedral interpolation (highest quality).
    Tetrahedral,
}

impl Default for LutInterpolation {
    /// The default interpolation is trilinear.
    fn default() -> (r: Self)
        ensures
            r is Trilinear,
    {
        LutInterpolation::Trilinear
    }
}

} // verus!
