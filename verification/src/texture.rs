//! Texture descriptors, dimensionality, channel types and sampler state,
//! together with the size computations the view subsystem needs.

use vstd::prelude::*;

use crate::buffer::Bind;
use crate::state::Comparison;

verus! {

/// A mip level index.
pub type Level = u8;

/// An array layer index.
pub type Layer = u16;

/// Anti-aliasing mode of a renderable image.
#[derive(Clone, Copy, Debug, PartialEq, Eq, Structural)]
pub enum AaMode {
    Single,
    Multi(u8),
}

/// Dimensionality and extent of a texture.
#[derive(Clone, Copy, Debug, PartialEq, Eq, Structural)]
pub enum Kind {
    D1(u16),
    D1Array(u16, Layer),
    D2(u16, u16, AaMode),
    D2Array(u16, u16, Layer, AaMode),
    D3(u16, u16, u16),
    Cube(u16),
    CubeArray(u16, Layer),
}

/// Spatial extent plus anti-aliasing mode.
#[derive(Clone, Copy, Debug, PartialEq, Eq, Structural)]
pub struct Dimensions {
    pub width: u16,
    pub height: u16,
    pub depth: u16,
    pub aa: AaMode,
}

/// One spatial dimension at a given mip level: halved per level, never below
/// one texel.
pub open spec fn spec_level_extent(extent: u16, level: Level) -> u16 {
    if level >= 16 {
        1u16
    } else if extent >> level == 0 {
        1u16
    } else {
        extent >> level
    }
}

fn level_extent(extent: u16, level: Level) -> (e: u16)
    ensures
        e == spec_level_extent(extent, level),
{
    if level >= 16 {
        1
    } else {
        let shifted = extent >> level;
        if shifted == 0 {
            1
        } else {
            shifted
        }
    }
}

impl Kind {
    pub open spec fn spec_dimensions(self) -> Dimensions {
        match self {
            Kind::D1(w) => Dimensions { width: w, height: 1, depth: 1, aa: AaMode::Single },
            Kind::D1Array(w, a) => Dimensions { width: w, height: 1, depth: a, aa: AaMode::Single },
            Kind::D2(w, h, aa) => Dimensions { width: w, height: h, depth: 1, aa },
            Kind::D2Array(w, h, a, aa) => Dimensions { width: w, height: h, depth: a, aa },
            Kind::D3(w, h, d) => Dimensions { width: w, height: h, depth: d, aa: AaMode::Single },
            Kind::Cube(w) => Dimensions { width: w, height: w, depth: 6, aa: AaMode::Single },
            Kind::CubeArray(w, a) => Dimensions { width: w, height: w, depth: a, aa: AaMode::Single },
        }
    }

    /// The extent of the whole texture: width, height, layer or depth count,
    /// and anti-aliasing mode.
    pub fn get_dimensions(self) -> (d: Dimensions)
        ensures
            d == self.spec_dimensions(),
    {
        match self {
            Kind::D1(w) => Dimensions { width: w, height: 1, depth: 1, aa: AaMode::Single },
            Kind::D1Array(w, a) => Dimensions { width: w, height: 1, depth: a, aa: AaMode::Single },
            Kind::D2(w, h, aa) => Dimensions { width: w, height: h, depth: 1, aa },
            Kind::D2Array(w, h, a, aa) => Dimensions { width: w, height: h, depth: a, aa },
            Kind::D3(w, h, d) => Dimensions { width: w, height: h, depth: d, aa: AaMode::Single },
            Kind::Cube(w) => Dimensions { width: w, height: w, depth: 6, aa: AaMode::Single },
            Kind::CubeArray(w, a) => Dimensions {
                width: w,
                height: w,
                depth: a,
                aa: AaMode::Single,
            },
        }
    }

    pub open spec fn spec_level_dimensions(self, level: Level) -> Dimensions {
        let whole = self.spec_dimensions();
        Dimensions {
            width: spec_level_extent(whole.width, level),
            height: spec_level_extent(whole.height, level),
            depth: whole.depth,
            aa: whole.aa,
        }
    }

    /// The extent of one mip level: width and height are halved per level and
    /// clamped at one texel; the layer or depth count is not reduced.
    pub fn get_level_dimensions(self, level: Level) -> (d: Dimensions)
        ensures
            d == self.spec_level_dimensions(level),
    {
        let whole = self.get_dimensions();
        Dimensions {
            width: level_extent(whole.width, level),
            height: level_extent(whole.height, level),
            depth: whole.depth,
            aa: whole.aa,
        }
    }
}

/// How the channels of a surface are to be interpreted.
#[derive(Clone, Copy, Debug, PartialEq, Eq, Structural)]
pub enum ChannelType {
    Int,
    Uint,
    Inorm,
    Unorm,
    Srgb,
}

/// Channel layout and width of a surface or vertex element.
#[derive(Clone, Copy, Debug, PartialEq, Eq, Structural)]
pub enum SurfaceType {
    R8,
    R8_G8,
    R8_G8_B8_A8,
    R16_G16_B16_A16,
    R32_G32_B32_A32,
    D24_S8,
}

/// A complete format: the surface layout plus how its channels are read.
#[derive(Clone, Copy, Debug, PartialEq, Eq, Structural)]
pub struct Format {
    pub surface: SurfaceType,
    pub channel: ChannelType,
}

/// Everything a texture is created from.
#[derive(Clone, Copy, Debug, PartialEq, Eq, Structural)]
pub struct Descriptor {
    pub kind: Kind,
    pub levels: Level,
    pub bind: Bind,
}

/// Texture creation errors: a zero or oversize dimension, with the offending
/// extent (zero stands for a zero mip-level count).
#[derive(Clone, Copy, Debug, PartialEq, Eq, Structural)]
pub enum TextureError {
    Size(u16),
}

/// Target view derivation errors.
#[derive(Clone, Copy, Debug, PartialEq, Eq, Structural)]
pub enum TargetViewError {
    /// The source object's shape does not admit the requested level or layer.
    Unsupported,
}

/// Resource view derivation errors.
#[derive(Clone, Copy, Debug, PartialEq, Eq, Structural)]
pub enum ResourceViewError {
    /// The source object was not created with the bind flag this view needs.
    NoBindFlag,
    /// The view kind is not available on this context.
    Unsupported,
}

/// Texel filtering method of a sampler.
#[derive(Clone, Copy, Debug, PartialEq, Eq, Structural)]
pub enum FilterMethod {
    Scale,
    Mipmap,
    Bilinear,
    Trilinear,
    Anisotropic(u8),
}

/// Texture coordinate wrap mode.
#[derive(Clone, Copy, Debug, PartialEq, Eq, Structural)]
pub enum WrapMode {
    Tile,
    Mirror,
    Clamp,
    Border,
}

/// Filter, wrap and level-of-detail state of a sampler. Levels of detail are
/// fixed-point values in eighths of a mip level.
#[derive(Clone, Copy, Debug, PartialEq, Eq, Structural)]
pub struct SamplerInfo {
    pub filter: FilterMethod,
    pub wrap_u: WrapMode,
    pub wrap_v: WrapMode,
    pub wrap_w: WrapMode,
    pub lod_bias: i16,
    pub lod_min: i16,
    pub lod_max: i16,
    pub comparison: Option<Comparison>,
}

/// A sampler handle that keeps the requested state beside the native name;
/// the name is zero when the context has no sampler objects.
#[derive(Clone, Copy, Debug, PartialEq, Eq, Structural)]
pub struct FatSampler {
    pub object: u32,
    pub info: SamplerInfo,
}

/// Which level and layer a render-target view selects.
#[derive(Clone, Copy, Debug, PartialEq, Eq, Structural)]
pub struct RenderDesc {
    pub channel: ChannelType,
    pub level: Level,
    pub layer: Option<Layer>,
}

/// Which level and layer a depth-stencil view selects.
#[derive(Clone, Copy, Debug, PartialEq, Eq, Structural)]
pub struct DepthStencilDesc {
    pub level: Level,
    pub layer: Option<Layer>,
}

} // verus!
