//! Fixed-function state descriptors: blend, depth, stencil and rasterizer
//! records that a pipeline descriptor carries and the assembler folds into an
//! output-merger record.

use vstd::prelude::*;

verus! {

/// Per-channel color write mask; one bit per channel.
pub type ColorMask = u8;

/// Write mask covering all four color channels.
pub const MASK_ALL: ColorMask = 0xf;

#[derive(Clone, Copy, Debug, PartialEq, Eq, Structural)]
pub enum Comparison {
    Never,
    Less,
    LessEqual,
    Equal,
    GreaterEqual,
    Greater,
    NotEqual,
    Always,
}

#[derive(Clone, Copy, Debug, PartialEq, Eq, Structural)]
pub enum StencilOp {
    Keep,
    Zero,
    Replace,
    IncrementClamp,
    IncrementWrap,
    DecrementClamp,
    DecrementWrap,
    Invert,
}

/// Stencil test configuration for one face.
#[derive(Clone, Copy, Debug, PartialEq, Eq, Structural)]
pub struct StencilSide {
    pub fun: Comparison,
    pub mask_read: u8,
    pub mask_write: u8,
    pub op_fail: StencilOp,
    pub op_depth_fail: StencilOp,
    pub op_pass: StencilOp,
}

impl StencilSide {
    /// The neutral configuration: always pass, full masks, keep everything.
    pub open spec fn spec_default() -> StencilSide {
        StencilSide {
            fun: Comparison::Always,
            mask_read: 0xff,
            mask_write: 0xff,
            op_fail: StencilOp::Keep,
            op_depth_fail: StencilOp::Keep,
            op_pass: StencilOp::Keep,
        }
    }
}

impl Default for StencilSide {
    fn default() -> (s: StencilSide)
        ensures
            s == StencilSide::spec_default(),
    {
        StencilSide {
            fun: Comparison::Always,
            mask_read: 0xff,
            mask_write: 0xff,
            op_fail: StencilOp::Keep,
            op_depth_fail: StencilOp::Keep,
            op_pass: StencilOp::Keep,
        }
    }
}

/// Stencil state for both faces.
#[derive(Clone, Copy, Debug, PartialEq, Eq, Structural)]
pub struct Stencil {
    pub front: StencilSide,
    pub back: StencilSide,
}

/// Depth test state.
#[derive(Clone, Copy, Debug, PartialEq, Eq, Structural)]
pub struct Depth {
    pub fun: Comparison,
    pub write: bool,
}

#[derive(Clone, Copy, Debug, PartialEq, Eq, Structural)]
pub enum Equation {
    Add,
    Sub,
    RevSub,
    Min,
    Max,
}

#[derive(Clone, Copy, Debug, PartialEq, Eq, Structural)]
pub enum BlendValue {
    SourceColor,
    SourceAlpha,
    DestColor,
    DestAlpha,
    ConstColor,
    ConstAlpha,
}

#[derive(Clone, Copy, Debug, PartialEq, Eq, Structural)]
pub enum Factor {
    Zero,
    One,
    SourceAlphaSaturated,
    ZeroPlus(BlendValue),
    OnePlus(BlendValue),
}

/// Blend function for one channel group.
#[derive(Clone, Copy, Debug, PartialEq, Eq, Structural)]
pub struct BlendChannel {
    pub equation: Equation,
    pub source: Factor,
    pub destination: Factor,
}

impl BlendChannel {
    /// The identity blend: add one source, zero destination.
    pub open spec fn spec_default() -> BlendChannel {
        BlendChannel { equation: Equation::Add, source: Factor::One, destination: Factor::Zero }
    }
}

impl Default for BlendChannel {
    fn default() -> (c: BlendChannel)
        ensures
            c == BlendChannel::spec_default(),
    {
        BlendChannel { equation: Equation::Add, source: Factor::One, destination: Factor::Zero }
    }
}

/// Color and alpha blend state of one color target.
#[derive(Clone, Copy, Debug, PartialEq, Eq, Structural)]
pub struct Blend {
    pub color: BlendChannel,
    pub alpha: BlendChannel,
}

#[derive(Clone, Copy, Debug, PartialEq, Eq, Structural)]
pub enum FrontFace {
    Clockwise,
    CounterClockwise,
}

#[derive(Clone, Copy, Debug, PartialEq, Eq, Structural)]
pub enum CullFace {
    Nothing,
    Front,
    Back,
}

#[derive(Clone, Copy, Debug, PartialEq, Eq, Structural)]
pub enum RasterMethod {
    Point,
    Line,
    Fill,
}

/// Depth offset, in fixed units of the native API's bias formula.
#[derive(Clone, Copy, Debug, PartialEq, Eq, Structural)]
pub struct Offset {
    pub slope: i32,
    pub units: i32,
}

/// Primitive rasterization state.
#[derive(Clone, Copy, Debug, PartialEq, Eq, Structural)]
pub struct Rasterizer {
    pub front_face: FrontFace,
    pub cull_face: CullFace,
    pub method: RasterMethod,
    pub offset: Option<Offset>,
    pub samples: bool,
}

} // verus!
