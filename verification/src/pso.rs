//! The pipeline state assembler: folds a declarative pipeline descriptor and
//! a resolved program name into one immutable aggregate of output-merger,
//! depth-stencil and vertex-input state. This step reads descriptor data
//! only — it is a pure function of its inputs.

use vstd::prelude::*;

use crate::state::{
    Blend, BlendChannel, ColorMask, Depth, Rasterizer, Stencil, StencilSide, MASK_ALL,
};
use crate::texture::Format;

verus! {

/// Number of color-target slots a pipeline descriptor carries.
pub const MAX_COLOR_TARGETS: usize = 4;

/// Number of vertex-attribute slots (and vertex-buffer slots) a pipeline
/// descriptor carries.
pub const MAX_VERTEX_ATTRIBUTES: usize = 16;

#[derive(Clone, Copy, Debug, PartialEq, Eq, Structural)]
pub enum Primitive {
    PointList,
    LineList,
    LineStrip,
    TriangleList,
    TriangleStrip,
}

/// One element of vertex data: its format and byte offset inside the buffer.
#[derive(Clone, Copy, Debug, PartialEq, Eq, Structural)]
pub struct Element {
    pub format: Format,
    pub offset: u32,
}

/// Stride and instance rate of one vertex-buffer slot.
#[derive(Clone, Copy, Debug, PartialEq, Eq, Structural)]
pub struct VertexBufferDesc {
    pub stride: u8,
    pub rate: u8,
}

/// A vertex attribute: the vertex-buffer slot it reads and the element
/// layout inside that buffer.
#[derive(Clone, Copy, Debug, PartialEq, Eq, Structural)]
pub struct AttributeDesc {
    pub buffer: u8,
    pub elem: Element,
}

/// Blend and mask configuration of one populated color target.
#[derive(Clone, Copy, Debug, PartialEq, Eq, Structural)]
pub struct ColorTargetInfo {
    pub mask: ColorMask,
    pub color: Option<BlendChannel>,
    pub alpha: Option<BlendChannel>,
}

/// Depth and per-face stencil state as a descriptor supplies it.
#[derive(Clone, Copy, Debug, PartialEq, Eq, Structural)]
pub struct DepthStencilInfo {
    pub depth: Option<Depth>,
    pub front: Option<StencilSide>,
    pub back: Option<StencilSide>,
}

/// A declarative pipeline descriptor. The slot vectors always hold exactly
/// `MAX_COLOR_TARGETS` and `MAX_VERTEX_ATTRIBUTES` entries; the slot index is
/// the bind point.
#[derive(Debug, PartialEq, Eq)]
pub struct Descriptor {
    pub primitive: Primitive,
    pub rasterizer: Rasterizer,
    pub scissor: bool,
    pub depth_stencil: Option<DepthStencilInfo>,
    pub color_targets: Vec<Option<ColorTargetInfo>>,
    pub vertex_buffers: Vec<Option<VertexBufferDesc>>,
    pub attributes: Vec<Option<AttributeDesc>>,
}

impl Descriptor {
    /// The fixed slot counts the assembler iterates over.
    pub open spec fn wf(self) -> bool {
        &&& self.color_targets@.len() == MAX_COLOR_TARGETS
        &&& self.vertex_buffers@.len() == MAX_VERTEX_ATTRIBUTES
        &&& self.attributes@.len() == MAX_VERTEX_ATTRIBUTES
    }

    /// A descriptor with every slot empty and no depth-stencil state.
    pub fn new(primitive: Primitive, rasterizer: Rasterizer, scissor: bool) -> (d: Descriptor)
        ensures
            d.wf(),
            d.primitive == primitive,
            d.rasterizer == rasterizer,
            d.scissor == scissor,
            d.depth_stencil is None,
            d.color_targets@ == Seq::new(
                MAX_COLOR_TARGETS as nat,
                |i: int| Option::<ColorTargetInfo>::None,
            ),
            d.vertex_buffers@ == Seq::new(
                MAX_VERTEX_ATTRIBUTES as nat,
                |i: int| Option::<VertexBufferDesc>::None,
            ),
            d.attributes@ == Seq::new(
                MAX_VERTEX_ATTRIBUTES as nat,
                |i: int| Option::<AttributeDesc>::None,
            ),
    {
        let mut color_targets: Vec<Option<ColorTargetInfo>> = Vec::new();
        for i in 0..MAX_COLOR_TARGETS
            invariant
                color_targets.len() == i,
                forall|j: int| 0 <= j < i ==> color_targets@[j] is None,
        {
            color_targets.push(None);
        }
        let mut vertex_buffers: Vec<Option<VertexBufferDesc>> = Vec::new();
        let mut attributes: Vec<Option<AttributeDesc>> = Vec::new();
        for i in 0..MAX_VERTEX_ATTRIBUTES
            invariant
                vertex_buffers.len() == i,
                attributes.len() == i,
                forall|j: int| 0 <= j < i ==> vertex_buffers@[j] is None,
                forall|j: int| 0 <= j < i ==> attributes@[j] is None,
        {
            vertex_buffers.push(None);
            attributes.push(None);
        }
        proof {
            assert(color_targets@ =~= Seq::new(
                MAX_COLOR_TARGETS as nat,
                |i: int| Option::<ColorTargetInfo>::None,
            ));
            assert(vertex_buffers@ =~= Seq::new(
                MAX_VERTEX_ATTRIBUTES as nat,
                |i: int| Option::<VertexBufferDesc>::None,
            ));
            assert(attributes@ =~= Seq::new(
                MAX_VERTEX_ATTRIBUTES as nat,
                |i: int| Option::<AttributeDesc>::None,
            ));
        }
        Descriptor {
            primitive,
            rasterizer,
            scissor,
            depth_stencil: None,
            color_targets,
            vertex_buffers,
            attributes,
        }
    }
}

/// The resolved per-target color state of the output merger.
#[derive(Clone, Copy, Debug, PartialEq, Eq, Structural)]
pub struct ColorState {
    pub mask: ColorMask,
    pub blend: Option<Blend>,
}

/// The state of an untouched color slot: full write mask, no blending.
pub open spec fn spec_color_default() -> ColorState {
    ColorState { mask: MASK_ALL, blend: None }
}

/// The folded color, depth and stencil output state of a pipeline.
#[derive(Debug, PartialEq, Eq)]
pub struct OutputMerger {
    pub draw_mask: u32,
    pub stencil: Option<Stencil>,
    pub depth: Option<Depth>,
    pub colors: Vec<ColorState>,
}

/// One resolved vertex input: the attribute's element paired with the stride
/// and rate of the vertex-buffer slot it references.
#[derive(Clone, Copy, Debug, PartialEq, Eq, Structural)]
pub struct BufferElement {
    pub desc: VertexBufferDesc,
    pub elem: Element,
}

/// The assembled, immutable pipeline aggregate.
#[derive(Debug, PartialEq, Eq)]
pub struct PipelineState {
    pub program: u32,
    pub primitive: Primitive,
    pub input: Vec<Option<BufferElement>>,
    pub scissor: bool,
    pub rasterizer: Rasterizer,
    pub output: OutputMerger,
}

/// A descriptor shape violation: an attribute references a vertex-buffer slot
/// the descriptor does not populate.
#[derive(Clone, Copy, Debug, PartialEq, Eq, Structural)]
pub struct CreationError;

pub open spec fn spec_side_or_default(side: Option<StencilSide>) -> StencilSide {
    match side {
        Some(s) => s,
        None => StencilSide::spec_default(),
    }
}

pub open spec fn spec_chan_or_default(chan: Option<BlendChannel>) -> BlendChannel {
    match chan {
        Some(c) => c,
        None => BlendChannel::spec_default(),
    }
}

/// The stencil record of the output merger: present exactly when the
/// descriptor supplies stencil state for at least one face; a missing face
/// defaults to the neutral always-pass side.
pub open spec fn spec_stencil(ds: Option<DepthStencilInfo>) -> Option<Stencil> {
    match ds {
        Some(t) => if t.front.is_some() || t.back.is_some() {
            Some(
                Stencil {
                    front: spec_side_or_default(t.front),
                    back: spec_side_or_default(t.back),
                },
            )
        } else {
            None
        },
        None => None,
    }
}

/// The depth record of the output merger, copied independently of stencil.
pub open spec fn spec_depth(ds: Option<DepthStencilInfo>) -> Option<Depth> {
    match ds {
        Some(t) => t.depth,
        None => None,
    }
}

/// The color state of one slot: untouched slots keep the default; populated
/// slots copy their mask and carry blend state exactly when a color or alpha
/// factor is specified, missing factors defaulting to the identity blend.
pub open spec fn spec_color_state(target: Option<ColorTargetInfo>) -> ColorState {
    match target {
        None => spec_color_default(),
        Some(bi) => ColorState {
            mask: bi.mask,
            blend: if bi.color.is_some() || bi.alpha.is_some() {
                Some(
                    Blend {
                        color: spec_chan_or_default(bi.color),
                        alpha: spec_chan_or_default(bi.alpha),
                    },
                )
            } else {
                None
            },
        },
    }
}

/// The draw mask over the first `n` color slots: bit `i` is set exactly when
/// slot `i` is populated.
pub open spec fn spec_draw_mask(targets: Seq<Option<ColorTargetInfo>>, n: nat) -> u32
    decreases n,
{
    if n == 0 {
        0u32
    } else {
        let prev = spec_draw_mask(targets, (n - 1) as nat);
        if targets[n - 1].is_some() {
            prev | (1u32 << ((n - 1) as u32))
        } else {
            prev
        }
    }
}

/// Whether attribute slot `i` is either empty or references a populated
/// vertex-buffer slot.
pub open spec fn spec_attr_ok(
    attrs: Seq<Option<AttributeDesc>>,
    vbufs: Seq<Option<VertexBufferDesc>>,
    i: int,
) -> bool {
    match attrs[i] {
        Some(at) => at.buffer < vbufs.len() && vbufs[at.buffer as int].is_some(),
        None => true,
    }
}

/// Whether every attribute references a populated vertex-buffer slot.
pub open spec fn spec_valid(
    attrs: Seq<Option<AttributeDesc>>,
    vbufs: Seq<Option<VertexBufferDesc>>,
) -> bool {
    forall|i: int| 0 <= i < attrs.len() ==> #[trigger] spec_attr_ok(attrs, vbufs, i)
}

/// The resolved vertex input of slot `i`: the attribute's element paired with
/// the referenced vertex buffer's stride and rate.
pub open spec fn spec_input_at(
    attrs: Seq<Option<AttributeDesc>>,
    vbufs: Seq<Option<VertexBufferDesc>>,
    i: int,
) -> Option<BufferElement> {
    match attrs[i] {
        Some(at) => if at.buffer < vbufs.len() {
            match vbufs[at.buffer as int] {
                Some(vb) => Some(BufferElement { desc: vb, elem: at.elem }),
                None => None,
            }
        } else {
            None
        },
        None => None,
    }
}

fn side_or_default(side: Option<StencilSide>) -> (r: StencilSide)
    ensures
        r == spec_side_or_default(side),
{
    match side {
        Some(s) => s,
        None => StencilSide::default(),
    }
}

fn chan_or_default(chan: Option<BlendChannel>) -> (r: BlendChannel)
    ensures
        r == spec_chan_or_default(chan),
{
    match chan {
        Some(c) => c,
        None => BlendChannel::default(),
    }
}

/// What it means for `ps` to be the aggregate assembled from `program` and
/// `desc`: every field is pinned, so assembly is a pure function of the two
/// inputs and equal inputs yield structurally equal aggregates.
pub open spec fn spec_assembled(program: u32, desc: Descriptor, ps: PipelineState) -> bool {
    &&& ps.program == program
    &&& ps.primitive == desc.primitive
    &&& ps.scissor == desc.scissor
    &&& ps.rasterizer == desc.rasterizer
    &&& ps.output.draw_mask == spec_draw_mask(desc.color_targets@, MAX_COLOR_TARGETS as nat)
    &&& ps.output.stencil == spec_stencil(desc.depth_stencil)
    &&& ps.output.depth == spec_depth(desc.depth_stencil)
    &&& ps.output.colors@ == Seq::new(
        MAX_COLOR_TARGETS as nat,
        |i: int| spec_color_state(desc.color_targets@[i]),
    )
    &&& ps.input@ == Seq::new(
        MAX_VERTEX_ATTRIBUTES as nat,
        |i: int| spec_input_at(desc.attributes@, desc.vertex_buffers@, i),
    )
}

/// Assembly is deterministic: two aggregates assembled from the same program
/// name and the same descriptor agree in every field — scalar fields are
/// equal outright, and the slot tables hold the same entries in the same
/// order.
pub proof fn lemma_assembly_deterministic(
    program: u32,
    desc: Descriptor,
    ps1: PipelineState,
    ps2: PipelineState,
)
    requires
        spec_assembled(program, desc, ps1),
        spec_assembled(program, desc, ps2),
    ensures
        ps1.program == ps2.program,
        ps1.primitive == ps2.primitive,
        ps1.scissor == ps2.scissor,
        ps1.rasterizer == ps2.rasterizer,
        ps1.output.draw_mask == ps2.output.draw_mask,
        ps1.output.stencil == ps2.output.stencil,
        ps1.output.depth == ps2.output.depth,
        ps1.output.colors@ == ps2.output.colors@,
        ps1.input@ == ps2.input@,
{
}

/// Folds a descriptor and a resolved program name into a pipeline aggregate.
/// The result is a pure function of the two inputs: every field is pinned by
/// `spec_assembled`, so equal inputs assemble to structurally equal
/// aggregates. An attribute referencing an unpopulated vertex-buffer slot is
/// the one shape violation and is rejected.
pub fn assemble(program: u32, desc: &Descriptor) -> (r: Result<PipelineState, CreationError>)
    requires
        desc.wf(),
    ensures
        r matches Err(_) <==> !spec_valid(desc.attributes@, desc.vertex_buffers@),
        r matches Ok(ps) ==> spec_assembled(program, *desc, ps),
{
    let stencil: Option<Stencil> = match &desc.depth_stencil {
        Some(t) => if t.front.is_some() || t.back.is_some() {
            Some(Stencil { front: side_or_default(t.front), back: side_or_default(t.back) })
        } else {
            None
        },
        None => None,
    };
    let depth: Option<Depth> = match &desc.depth_stencil {
        Some(t) => t.depth,
        None => None,
    };

    let mut colors: Vec<ColorState> = Vec::new();
    let mut draw_mask: u32 = 0;
    for i in 0..MAX_COLOR_TARGETS
        invariant
            colors.len() == i,
            desc.color_targets@.len() == MAX_COLOR_TARGETS,
            draw_mask == spec_draw_mask(desc.color_targets@, i as nat),
            forall|j: int| 0 <= j < i
                ==> colors@[j] == spec_color_state(desc.color_targets@[j]),
    {
        match desc.color_targets[i] {
            Some(bi) => {
                draw_mask = draw_mask | (1u32 << (i as u32));
                let blend = if bi.color.is_some() || bi.alpha.is_some() {
                    Some(
                        Blend {
                            color: chan_or_default(bi.color),
                            alpha: chan_or_default(bi.alpha),
                        },
                    )
                } else {
                    None
                };
                colors.push(ColorState { mask: bi.mask, blend });
            }
            None => {
                colors.push(ColorState { mask: MASK_ALL, blend: None });
            }
        }
    }

    let mut inputs: Vec<Option<BufferElement>> = Vec::new();
    for i in 0..MAX_VERTEX_ATTRIBUTES
        invariant
            inputs.len() == i,
            desc.vertex_buffers@.len() == MAX_VERTEX_ATTRIBUTES,
            desc.attributes@.len() == MAX_VERTEX_ATTRIBUTES,
            forall|j: int| 0 <= j < i
                ==> inputs@[j] == spec_input_at(desc.attributes@, desc.vertex_buffers@, j),
            forall|j: int| 0 <= j < i
                ==> #[trigger] spec_attr_ok(desc.attributes@, desc.vertex_buffers@, j),
    {
        match desc.attributes[i] {
            Some(at) => {
                let b = at.buffer as usize;
                if b >= MAX_VERTEX_ATTRIBUTES {
                    proof {
                        assert(!spec_attr_ok(desc.attributes@, desc.vertex_buffers@, i as int));
                    }
                    return Err(CreationError);
                }
                match desc.vertex_buffers[b] {
                    Some(vb) => {
                        inputs.push(Some(BufferElement { desc: vb, elem: at.elem }));
                    }
                    None => {
                        proof {
                            assert(!spec_attr_ok(
                                desc.attributes@,
                                desc.vertex_buffers@,
                                i as int,
                            ));
                        }
                        return Err(CreationError);
                    }
                }
            }
            None => {
                inputs.push(None);
            }
        }
    }

    let ps = PipelineState {
        program,
        primitive: desc.primitive,
        input: inputs,
        scissor: desc.scissor,
        rasterizer: desc.rasterizer,
        output: OutputMerger { draw_mask, stencil, depth, colors },
    };
    proof {
        assert(ps.output.colors@ =~= Seq::new(
            MAX_COLOR_TARGETS as nat,
            |i: int| spec_color_state(desc.color_targets@[i]),
        ));
        assert(ps.input@ =~= Seq::new(
            MAX_VERTEX_ATTRIBUTES as nat,
            |i: int| spec_input_at(desc.attributes@, desc.vertex_buffers@, i),
        ));
    }
    Ok(ps)
}

} // verus!
