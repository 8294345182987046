//! Color space descriptors: models, primaries, transfer functions and
//! full pixel-format descriptors.

use vstd::prelude::*;

verus! {

/// Color model.
#[derive(Debug, Clone, Copy, PartialEq, Eq, Structural, Hash)]
pub enum ColorModel {
    /// RGB color model.
    Rgb,
    /// YUV/YCbCr color model.
    Yuv,
    /// YCoCg color model.
    YCoCg,
    /// XYZ color model (CIE 1931).
    Xyz,
    /// Lab color model.
    Lab,
    /// HSV color model.
    Hsv,
    /// CMYK color model.
    Cmyk,
    /// Grayscale.
    Gray,
}

impl Default for ColorModel {
    /// The default color model is RGB.
    fn default() -> (r: Self)
        ensures
            r is Rgb,
    {
        ColorModel::Rgb
    }
}

/// Color primaries (chromaticity coordinates).
#[derive(Debug, Clone, Copy, PartialEq, Eq, Structural, Hash)]
pub enum ColorPrimaries {
    /// ITU-R BT.709 (sRGB, Rec.709).
    Bt709,
    /// ITU-R BT.601 PAL.
    Bt601Pal,
    /// ITU-R BT.601 NTSC.
    Bt601Ntsc,
    /// ITU-R BT.2020 (UHD/HDR).
    Bt2020,
    /// DCI-P3 (digital cinema).
    DciP3,
    /// Display P3.
    DisplayP3,
    /// Adobe RGB.
    AdobeRgb,
    /// ACES AP0 primaries.
    AcesAp0,
    /// ACES AP1 working space.
    AcesAp1,
    /// Custom/unknown primaries.
    Unknown,
}

impl ColorPrimaries {
    /// Returns whether this is an HDR-capable color space.
    pub fn is_hdr_capable(&self) -> (r: bool)
        ensures
            r == (self is Bt2020 || self is DciP3 || self is DisplayP3 || self is AcesAp0
                || self is AcesAp1),
    {
        matches!(
            self,
            ColorPrimaries::Bt2020 | ColorPrimaries::DciP3 | ColorPrimaries::DisplayP3
                | ColorPrimaries::AcesAp0 | ColorPrimaries::AcesAp1
        )
    }

    /// Returns the approximate gamut coverage of human vision, percent.
    pub fn gamut_coverage_percent(&self) -> (r: u8)
        ensures
            self is Bt709 ==> r == 36,
            (self is Bt601Pal || self is Bt601Ntsc) ==> r == 35,
            self is Bt2020 ==> r == 76,
            (self is DciP3 || self is DisplayP3) ==> r == 54,
            self is AdobeRgb ==> r == 52,
            self is AcesAp0 ==> r == 100,
            self is AcesAp1 ==> r == 53,
            self is Unknown ==> r == 0,
    {
        match self {
            ColorPrimaries::Bt709 => 36,
            ColorPrimaries::Bt601Pal | ColorPrimaries::Bt601Ntsc => 35,
            ColorPrimaries::Bt2020 => 76,
            ColorPrimaries::DciP3 => 54,
            ColorPrimaries::DisplayP3 => 54,
            ColorPrimaries::AdobeRgb => 52,
            ColorPrimaries::AcesAp0 => 100,
            ColorPrimaries::AcesAp1 => 53,
            ColorPrimaries::Unknown => 0,
        }
    }
}

impl Default for ColorPrimaries {
    /// The default primaries are BT.709.
    fn default() -> (r: Self)
        ensures
            r is Bt709,
    {
        ColorPrimaries::Bt709
    }
}

/// Transfer function (gamma/OETF/EOTF).
#[derive(Debug, Clone, Copy, PartialEq, Eq, Structural, Hash)]
pub enum TransferFunction {
    /// Linear (no transfer function).
    Linear,
    /// sRGB transfer function.
    Srgb,
    /// ITU-R BT.709.
    Bt709,
    /// ITU-R BT.2020 10-bit.
    Bt202010,
    /// ITU-R BT.2020 12-bit.
    Bt202012,
    /// PQ (Perceptual Quantizer), SMPTE ST 2084.
    Pq,
    /// HLG (Hybrid Log-Gamma), ARIB STD-B67.
    Hlg,
    /// Gamma 2.2.
    Gamma22,
    /// Gamma 2.4.
    Gamma24,
    /// Gamma 2.6 (DCI).
    Gamma26,
    /// Log (S-Log3, LogC and similar).
    Log,
    /// Custom/unknown transfer.
    Unknown,
}

impl TransferFunction {
    /// Returns whether this is an HDR transfer function.
    pub fn is_hdr(&self) -> (r: bool)
        ensures
            r == (self is Pq || self is Hlg),
    {
        matches!(self, TransferFunction::Pq | TransferFunction::Hlg)
    }

    /// Returns the nominal peak luminance in nits.
    pub fn peak_luminance_nits(&self) -> (r: u32)
        ensures
            self is Pq ==> r == 10000,
            self is Hlg ==> r == 1000,
            self is Gamma26 ==> r == 48,
            (!(self is Pq) && !(self is Hlg) && !(self is Gamma26)) ==> r == 100,
    {
        match self {
            TransferFunction::Pq => 10000,
            TransferFunction::Hlg => 1000,
            TransferFunction::Gamma26 => 48,
            _ => 100,
        }
    }
}

impl Default for TransferFunction {
    /// The default transfer function is sRGB.
    fn default() -> (r: Self)
        ensures
            r is Srgb,
    {
        TransferFunction::Srgb
    }
}

/// Matrix coefficients for YUV/RGB conversion.
#[derive(Debug, Clone, Copy, PartialEq, Eq, Structural, Hash)]
pub enum MatrixCoefficients {
    /// Identity (RGB).
    Identity,
    /// ITU-R BT.709.
    Bt709,
    /// ITU-R BT.601.
    Bt601,
    /// ITU-R BT.2020 non-constant luminance.
    Bt2020Ncl,
    /// ITU-R BT.2020 constant luminance.
    Bt2020Cl,
    /// SMPTE ST 2085 (ICTCP).
    ICtCp,
    /// Unknown.
    Unknown,
}

impl Default for MatrixCoefficients {
    /// The default matrix is BT.709.
    fn default() -> (r: Self)
        ensures
            r is Bt709,
    {
        MatrixCoefficients::Bt709
    }
}

/// Chroma location for subsampled formats.
#[derive(Debug, Clone, Copy, PartialEq, Eq, Structural, Hash)]
pub enum ChromaLocation {
    /// Left-aligned chroma samples.
    Left,
    /// Center-aligned chroma samples.
    Center,
    /// Top-left aligned.
    TopLeft,
    /// Top aligned.
    Top,
    /// Bottom-left aligned.
    BottomLeft,
    /// Bottom aligned.
    Bottom,
}

impl Default for ChromaLocation {
    /// The default chroma location is left-aligned.
    fn default() -> (r: Self)
        ensures
            r is Left,
    {
        ChromaLocation::Left
    }
}

/// Color range (full versus limited).
#[derive(Debug, Clone, Copy, PartialEq, Eq, Structural, Hash)]
pub enum ColorRange {
    /// Full range (0-255 for 8-bit).
    Full,
    /// Limited/TV range (16-235 for 8-bit luma).
    Limited,
}

impl Default for ColorRange {
    /// The default range is limited.
    fn default() -> (r: Self)
        ensures
            r is Limited,
    {
        ColorRange::Limited
    }
}

/// Component identifier within a pixel format.
#[derive(Debug, Clone, Copy, PartialEq, Eq, Structural, Hash)]
pub enum ComponentId {
    /// Luma (Y).
    Y,
    /// Chroma blue (U/Cb).
    U,
    /// Chroma red (V/Cr).
    V,
    /// Red.
    R,
    /// Green.
    G,
    /// Blue.
    B,
    /// Alpha.
    A,
}

/// Component/channel descriptor.
#[derive(Debug, Clone, Copy, PartialEq, Eq, Structural)]
pub struct Chromaton {
    /// Horizontal subsampling shift (0 = none).
    pub h_ss: u8,
    /// Vertical subsampling shift (0 = none).
    pub v_ss: u8,
    /// Whether the component is packed with others.
    pub packed: bool,
    /// Bit depth of this component.
    pub depth: u8,
    /// Byte offset within a packed pixel (0 for planar).
    pub offset: u8,
    /// Component identifier.
    pub id: ComponentId,
}

impl Chromaton {
    /// Creates a full-resolution planar component.
    pub fn new(id: ComponentId, depth: u8) -> (r: Self)
        ensures
            r == (Chromaton { h_ss: 0u8, v_ss: 0u8, packed: false, depth, offset: 0u8, id }),
    {
        Chromaton { h_ss: 0, v_ss: 0, packed: false, depth, offset: 0, id }
    }

    /// Creates a subsampled planar component.
    pub fn with_subsampling(id: ComponentId, depth: u8, h_ss: u8, v_ss: u8) -> (r: Self)
        ensures
            r == (Chromaton { h_ss, v_ss, packed: false, depth, offset: 0u8, id }),
    {
        Chromaton { h_ss, v_ss, packed: false, depth, offset: 0, id }
    }

    /// Creates a packed component at a byte offset.
    pub fn packed(id: ComponentId, depth: u8, offset: u8) -> (r: Self)
        ensures
            r == (Chromaton { h_ss: 0u8, v_ss: 0u8, packed: true, depth, offset, id }),
    {
        Chromaton { h_ss: 0, v_ss: 0, packed: true, depth, offset, id }
    }

    /// Returns the subsampling factors as (horizontal, vertical).
    pub fn subsampling(&self) -> (r: (u8, u8))
        ensures
            r.0 == self.h_ss,
            r.1 == self.v_ss,
    {
        (self.h_ss, self.v_ss)
    }

    /// Returns the bit depth.
    pub fn depth(&self) -> (r: u8)
        ensures
            r == self.depth,
    {
        self.depth
    }

    /// Returns whether this component is packed.
    pub fn is_packed(&self) -> (r: bool)
        ensures
            r == self.packed,
    {
        self.packed
    }

    /// Returns the component identifier.
    pub fn component_id(&self) -> (r: ComponentId)
        ensures
            r == self.id,
    {
        self.id
    }
}

/// The sum of the component depths.
pub open spec fn spec_total_depth(components: Seq<Chromaton>) -> int
    decreases components.len(),
{
    if components.len() == 0 {
        0
    } else {
        spec_total_depth(components.drop_last()) + components.last().depth
    }
}

/// Complete pixel format descriptor.
#[derive(Debug, Clone)]
pub struct Formaton {
    /// Color model.
    pub model: ColorModel,
    /// Color primaries.
    pub primaries: ColorPrimaries,
    /// Transfer function.
    pub transfer: TransferFunction,
    /// Matrix coefficients.
    pub matrix: MatrixCoefficients,
    /// Chroma location.
    pub chroma_loc: ChromaLocation,
    /// Color range.
    pub range: ColorRange,
    /// Component descriptors.
    pub components: Vec<Chromaton>,
    /// Format name.
    pub name: String,
    /// Whether the format has an alpha channel.
    pub has_alpha: bool,
    /// Whether the format is palette-indexed.
    pub palette: bool,
}

impl Formaton {
    /// Creates a format descriptor over the given components, detecting
    /// the alpha channel, with default colorimetry.
    pub fn new(name: String, model: ColorModel, components: Vec<Chromaton>) -> (r: Self)
        ensures
            r.name == name,
            r.model == model,
            r.components@ == components@,
            r.primaries is Bt709,
            r.transfer is Srgb,
            r.matrix is Bt709,
            r.chroma_loc is Left,
            r.range is Limited,
            r.has_alpha == exists|i: int|
                0 <= i < components@.len() && (#[trigger] components@[i]).id is A,
            !r.palette,
    {
        let mut has_alpha = false;
        let mut i: usize = 0;
        while i < components.len()
            invariant
                0 <= i <= components@.len(),
                has_alpha == exists|k: int|
                    0 <= k < i && (#[trigger] components@[k]).id is A,
            decreases components@.len() - i,
        {
            if matches!(components[i].id, ComponentId::A) {
                has_alpha = true;
            }
            i = i + 1;
        }
        Formaton {
            model,
            primaries: ColorPrimaries::Bt709,
            transfer: TransferFunction::Srgb,
            matrix: MatrixCoefficients::Bt709,
            chroma_loc: ChromaLocation::Left,
            range: ColorRange::Limited,
            components,
            name,
            has_alpha,
            palette: false,
        }
    }

    /// Returns the number of components.
    pub fn component_count(&self) -> (r: usize)
        ensures
            r == self.components@.len(),
    {
        self.components.len()
    }

    /// Returns the component at an index, if any.
    pub fn component(&self, index: usize) -> (r: Option<&Chromaton>)
        ensures
            index < self.components@.len() ==> r == Some(&self.components@[index as int]),
            index >= self.components@.len() ==> r is None,
    {
        if index < self.components.len() {
            Some(&self.components[index])
        } else {
            None
        }
    }

    /// Returns the total bit depth across all components, saturating at
    /// the largest 8-bit value.
    pub fn total_depth(&self) -> (r: u8)
        ensures
            spec_total_depth(self.components@) <= u8::MAX ==> r == spec_total_depth(
                self.components@,
            ),
    {
        let mut total: u8 = 0;
        let mut i: usize = 0;
        while i < self.components.len()
            invariant
                0 <= i <= self.components@.len(),
                spec_total_depth(self.components@.take(i as int)) <= u8::MAX ==> total
                    == spec_total_depth(self.components@.take(i as int)),
                total <= spec_total_depth(self.components@.take(i as int)),
                spec_total_depth(self.components@.take(i as int)) >= 0,
            decreases self.components@.len() - i,
        {
            proof {
                assert(self.components@.take(i + 1).drop_last() =~= self.components@.take(i as int));
                assert(self.components@.take(i + 1).last() == self.components@[i as int]);
            }
            total = total.saturating_add(self.components[i].depth);
            i = i + 1;
        }
        proof {
            assert(self.components@.take(self.components@.len() as int) =~= self.components@);
        }
        total
    }

    /// Returns whether the format has an alpha channel.
    pub fn has_alpha(&self) -> (r: bool)
        ensures
            r == self.has_alpha,
    {
        self.has_alpha
    }

    /// Returns the color model.
    pub fn model(&self) -> (r: ColorModel)
        ensures
            r == self.model,
    {
        self.model
    }

    /// Returns the color primaries.
    pub fn primaries(&self) -> (r: ColorPrimaries)
        ensures
            r == self.primaries,
    {
        self.primaries
    }

    /// Returns the transfer function.
    pub fn transfer(&self) -> (r: TransferFunction)
        ensures
            r == self.transfer,
    {
        self.transfer
    }

    /// Creates the RGB24 format: three 8-bit components.
    pub fn rgb24() -> (r: Self)
        ensures
            r.name@ == "RGB24"@,
            r.model is Rgb,
            r.components@.len() == 3,
            !r.has_alpha,
    {
        let mut components: Vec<Chromaton> = Vec::new();
        components.push(Chromaton::new(ComponentId::R, 8));
        components.push(Chromaton::new(ComponentId::G, 8));
        components.push(Chromaton::new(ComponentId::B, 8));
        Formaton::new(String::from_str("RGB24"), ColorModel::Rgb, components)
    }

    /// Creates the RGBA32 format: four 8-bit components with alpha.
    pub fn rgba32() -> (r: Self)
        ensures
            r.name@ == "RGBA32"@,
            r.model is Rgb,
            r.components@.len() == 4,
            r.has_alpha,
    {
        let mut components: Vec<Chromaton> = Vec::new();
        components.push(Chromaton::new(ComponentId::R, 8));
        components.push(Chromaton::new(ComponentId::G, 8));
        components.push(Chromaton::new(ComponentId::B, 8));
        components.push(Chromaton::new(ComponentId::A, 8));
        proof {
            assert(components@[3].id is A);
        }
        Formaton::new(String::from_str("RGBA32"), ColorModel::Rgb, components)
    }

    /// Creates the planar YUV 4:2:0 format at 8 bits.
    pub fn yuv420p() -> (r: Self)
        ensures
            r.name@ == "YUV420P"@,
            r.model is Yuv,
            r.components@.len() == 3,
            !r.has_alpha,
    {
        let mut components: Vec<Chromaton> = Vec::new();
        components.push(Chromaton::new(ComponentId::Y, 8));
        components.push(Chromaton::with_subsampling(ComponentId::U, 8, 1, 1));
        components.push(Chromaton::with_subsampling(ComponentId::V, 8, 1, 1));
        Formaton::new(String::from_str("YUV420P"), ColorModel::Yuv, components)
    }

    /// Creates the planar YUV 4:2:2 format at 8 bits.
    pub fn yuv422p() -> (r: Self)
        ensures
            r.name@ == "YUV422P"@,
            r.model is Yuv,
            r.components@.len() == 3,
    {
        let mut components: Vec<Chromaton> = Vec::new();
        components.push(Chromaton::new(ComponentId::Y, 8));
        components.push(Chromaton::with_subsampling(ComponentId::U, 8, 1, 0));
        components.push(Chromaton::with_subsampling(ComponentId::V, 8, 1, 0));
        Formaton::new(String::from_str("YUV422P"), ColorModel::Yuv, components)
    }

    /// Creates the planar YUV 4:4:4 format at 8 bits.
    pub fn yuv444p() -> (r: Self)
        ensures
            r.name@ == "YUV444P"@,
            r.model is Yuv,
            r.components@.len() == 3,
    {
        let mut components: Vec<Chromaton> = Vec::new();
        components.push(Chromaton::new(ComponentId::Y, 8));
        components.push(Chromaton::new(ComponentId::U, 8));
        components.push(Chromaton::new(ComponentId::V, 8));
        Formaton::new(String::from_str("YUV444P"), ColorModel::Yuv, components)
    }

    /// Creates the planar YUV 4:2:0 format at 10 bits.
    pub fn yuv420p10() -> (r: Self)
        ensures
            r.name@ == "YUV420P10"@,
            r.model is Yuv,
            r.components@.len() == 3,
    {
        let mut components: Vec<Chromaton> = Vec::new();
        components.push(Chromaton::new(ComponentId::Y, 10));
        components.push(Chromaton::with_subsampling(ComponentId::U, 10, 1, 1));
        components.push(Chromaton::with_subsampling(ComponentId::V, 10, 1, 1));
        Formaton::new(String::from_str("YUV420P10"), ColorModel::Yuv, components)
    }
}

impl Default for Formaton {
    /// The default format is an unknown RGB format with no components.
    fn default() -> (r: Self)
        ensures
            r.name@ == "Unknown"@,
            r.model is Rgb,
            r.components@.len() == 0,
    {
        Formaton::new(String::from_str("Unknown"), ColorModel::Rgb, Vec::new())
    }
}

} // verus!
