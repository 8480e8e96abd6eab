//! Program linking and pipeline state assembly.

use gl_factory::device::Device;
use gl_factory::factory::{Capabilities, Factory, PrivateCaps, Share};
use gl_factory::pso::{
    AttributeDesc, ColorTargetInfo, CreationError, Descriptor, Element, Primitive,
    VertexBufferDesc, MAX_COLOR_TARGETS, MAX_VERTEX_ATTRIBUTES,
};
use gl_factory::shade::{ShaderSet, Stage};
use gl_factory::state::{
    Blend, BlendChannel, Comparison, CullFace, Depth, Equation, Factor, FrontFace, RasterMethod,
    Rasterizer, StencilOp, StencilSide, MASK_ALL,
};
use gl_factory::texture::{ChannelType, Format, SurfaceType};

fn share() -> Share {
    Share {
        capabilities: Capabilities { max_texture_size: 1024, constant_buffer_supported: true },
        private_caps: PrivateCaps {
            buffer_storage_supported: false,
            immutable_storage_supported: false,
            sampler_objects_supported: false,
        },
        device: Device::new(),
    }
}

fn rasterizer() -> Rasterizer {
    Rasterizer {
        front_face: FrontFace::CounterClockwise,
        cull_face: CullFace::Back,
        method: RasterMethod::Fill,
        offset: None,
        samples: false,
    }
}

fn element() -> Element {
    Element {
        format: Format { surface: SurfaceType::R8_G8_B8_A8, channel: ChannelType::Unorm },
        offset: 0,
    }
}

fn one_blend_channel() -> BlendChannel {
    BlendChannel { equation: Equation::Add, source: Factor::One, destination: Factor::One }
}

fn stencil_side() -> StencilSide {
    StencilSide {
        fun: Comparison::Equal,
        mask_read: 0x0f,
        mask_write: 0xf0,
        op_fail: StencilOp::Zero,
        op_depth_fail: StencilOp::Invert,
        op_pass: StencilOp::Replace,
    }
}

#[test]
fn program_links_simple_set_in_order() {
    let mut f = Factory::new(share());
    let vs = f.create_shader(Stage::Vertex, &vec![1u8]);
    let ps = f.create_shader(Stage::Pixel, &vec![2u8]);
    let p = f.create_program(&ShaderSet::Simple(vs, ps)).unwrap();
    assert_eq!(p.name, 1);
    assert_eq!(f.share.device.program_shaders(p.name), &vec![vs.name, ps.name]);
}

#[test]
fn program_links_geometry_and_tessellated_sets_in_order() {
    let mut f = Factory::new(share());
    let vs = f.create_shader(Stage::Vertex, &vec![]);
    let gs = f.create_shader(Stage::Geometry, &vec![]);
    let ps = f.create_shader(Stage::Pixel, &vec![]);
    let p = f.create_program(&ShaderSet::Geometry(vs, gs, ps)).unwrap();
    assert_eq!(
        f.share.device.program_shaders(p.name),
        &vec![vs.name, gs.name, ps.name]
    );

    let hs = f.create_shader(Stage::Hull, &vec![]);
    let ds = f.create_shader(Stage::Domain, &vec![]);
    let p = f.create_program(&ShaderSet::Tessellated(vs, hs, ds, ps)).unwrap();
    assert_eq!(p.name, 2);
    assert_eq!(
        f.share.device.program_shaders(p.name),
        &vec![vs.name, hs.name, ds.name, ps.name]
    );
}

#[test]
fn empty_descriptor_assembles_to_defaults() {
    let mut f = Factory::new(share());
    let vs = f.create_shader(Stage::Vertex, &vec![]);
    let ps = f.create_shader(Stage::Pixel, &vec![]);
    let p = f.create_program(&ShaderSet::Simple(vs, ps)).unwrap();
    let desc = Descriptor::new(Primitive::TriangleList, rasterizer(), true);
    let pso = f.create_pipeline_state_raw(&p, &desc).unwrap();
    assert_eq!(pso.program, p.name);
    assert_eq!(pso.primitive, Primitive::TriangleList);
    assert!(pso.scissor);
    assert_eq!(pso.rasterizer, rasterizer());
    assert_eq!(pso.output.draw_mask, 0);
    assert_eq!(pso.output.stencil, None);
    assert_eq!(pso.output.depth, None);
    assert_eq!(pso.output.colors.len(), MAX_COLOR_TARGETS);
    for c in &pso.output.colors {
        assert_eq!(c.mask, MASK_ALL);
        assert_eq!(c.blend, None);
    }
    assert_eq!(pso.input.len(), MAX_VERTEX_ATTRIBUTES);
    assert!(pso.input.iter().all(|i| i.is_none()));
}

#[test]
fn one_color_slot_sets_bit_zero_and_blend() {
    // one populated color slot, full mask, a color blend factor, no
    // depth-stencil state
    let mut f = Factory::new(share());
    let vs = f.create_shader(Stage::Vertex, &vec![]);
    let ps = f.create_shader(Stage::Pixel, &vec![]);
    let p = f.create_program(&ShaderSet::Simple(vs, ps)).unwrap();
    let mut desc = Descriptor::new(Primitive::TriangleList, rasterizer(), false);
    desc.color_targets[0] = Some(ColorTargetInfo {
        mask: MASK_ALL,
        color: Some(one_blend_channel()),
        alpha: None,
    });
    let pso = f.create_pipeline_state_raw(&p, &desc).unwrap();
    assert_eq!(pso.output.draw_mask, 1);
    assert_eq!(
        pso.output.colors[0].blend,
        Some(Blend {
            color: one_blend_channel(),
            // the missing alpha factor defaults to the identity blend
            alpha: BlendChannel {
                equation: Equation::Add,
                source: Factor::One,
                destination: Factor::Zero,
            },
        })
    );
    for slot in 1..MAX_COLOR_TARGETS {
        assert_eq!(pso.output.colors[slot].blend, None);
    }
    assert_eq!(pso.output.stencil, None);
    assert_eq!(pso.output.depth, None);
}

#[test]
fn populated_slot_without_factors_has_mask_but_no_blend() {
    let mut f = Factory::new(share());
    let vs = f.create_shader(Stage::Vertex, &vec![]);
    let ps = f.create_shader(Stage::Pixel, &vec![]);
    let p = f.create_program(&ShaderSet::Simple(vs, ps)).unwrap();
    let mut desc = Descriptor::new(Primitive::LineList, rasterizer(), false);
    desc.color_targets[2] = Some(ColorTargetInfo { mask: 0x3, color: None, alpha: None });
    let pso = f.create_pipeline_state_raw(&p, &desc).unwrap();
    assert_eq!(pso.output.draw_mask, 1 << 2);
    assert_eq!(pso.output.colors[2].mask, 0x3);
    assert_eq!(pso.output.colors[2].blend, None);
}

#[test]
fn stencil_record_defaults_missing_face() {
    let mut f = Factory::new(share());
    let vs = f.create_shader(Stage::Vertex, &vec![]);
    let ps = f.create_shader(Stage::Pixel, &vec![]);
    let p = f.create_program(&ShaderSet::Simple(vs, ps)).unwrap();
    let mut desc = Descriptor::new(Primitive::TriangleStrip, rasterizer(), false);
    desc.depth_stencil = Some(gl_factory::pso::DepthStencilInfo {
        depth: None,
        front: Some(stencil_side()),
        back: None,
    });
    let pso = f.create_pipeline_state_raw(&p, &desc).unwrap();
    let stencil = pso.output.stencil.unwrap();
    assert_eq!(stencil.front, stencil_side());
    // the absent back face becomes the neutral always-pass side
    assert_eq!(stencil.back.fun, Comparison::Always);
    assert_eq!(stencil.back.mask_read, 0xff);
    assert_eq!(stencil.back.op_pass, StencilOp::Keep);
    assert_eq!(pso.output.depth, None);
}

#[test]
fn depth_is_copied_independently_of_stencil() {
    let mut f = Factory::new(share());
    let vs = f.create_shader(Stage::Vertex, &vec![]);
    let ps = f.create_shader(Stage::Pixel, &vec![]);
    let p = f.create_program(&ShaderSet::Simple(vs, ps)).unwrap();
    let mut desc = Descriptor::new(Primitive::TriangleList, rasterizer(), false);
    let depth = Depth { fun: Comparison::LessEqual, write: true };
    desc.depth_stencil = Some(gl_factory::pso::DepthStencilInfo {
        depth: Some(depth),
        front: None,
        back: None,
    });
    let pso = f.create_pipeline_state_raw(&p, &desc).unwrap();
    assert_eq!(pso.output.depth, Some(depth));
    assert_eq!(pso.output.stencil, None);
}

#[test]
fn attributes_resolve_their_vertex_buffer() {
    let mut f = Factory::new(share());
    let vs = f.create_shader(Stage::Vertex, &vec![]);
    let ps = f.create_shader(Stage::Pixel, &vec![]);
    let p = f.create_program(&ShaderSet::Simple(vs, ps)).unwrap();
    let mut desc = Descriptor::new(Primitive::TriangleList, rasterizer(), false);
    let vb = VertexBufferDesc { stride: 16, rate: 0 };
    desc.vertex_buffers[1] = Some(vb);
    desc.attributes[3] = Some(AttributeDesc { buffer: 1, elem: element() });
    let pso = f.create_pipeline_state_raw(&p, &desc).unwrap();
    let input = pso.input[3].unwrap();
    assert_eq!(input.desc, vb);
    assert_eq!(input.elem, element());
    for slot in 0..MAX_VERTEX_ATTRIBUTES {
        if slot != 3 {
            assert_eq!(pso.input[slot], None);
        }
    }
}

#[test]
fn attribute_on_unpopulated_buffer_slot_is_rejected() {
    let mut f = Factory::new(share());
    let vs = f.create_shader(Stage::Vertex, &vec![]);
    let ps = f.create_shader(Stage::Pixel, &vec![]);
    let p = f.create_program(&ShaderSet::Simple(vs, ps)).unwrap();
    let mut desc = Descriptor::new(Primitive::TriangleList, rasterizer(), false);
    desc.attributes[0] = Some(AttributeDesc { buffer: 5, elem: element() });
    assert_eq!(f.create_pipeline_state_raw(&p, &desc), Err(CreationError));
    // a slot index past the table is the same shape violation
    desc.attributes[0] = Some(AttributeDesc { buffer: 200, elem: element() });
    assert_eq!(f.create_pipeline_state_raw(&p, &desc), Err(CreationError));
}

#[test]
fn assembly_is_deterministic() {
    let mut f = Factory::new(share());
    let vs = f.create_shader(Stage::Vertex, &vec![]);
    let ps = f.create_shader(Stage::Pixel, &vec![]);
    let p = f.create_program(&ShaderSet::Simple(vs, ps)).unwrap();
    let mut desc = Descriptor::new(Primitive::TriangleList, rasterizer(), true);
    desc.color_targets[0] = Some(ColorTargetInfo {
        mask: MASK_ALL,
        color: Some(one_blend_channel()),
        alpha: Some(one_blend_channel()),
    });
    desc.vertex_buffers[0] = Some(VertexBufferDesc { stride: 8, rate: 1 });
    desc.attributes[0] = Some(AttributeDesc { buffer: 0, elem: element() });
    desc.depth_stencil = Some(gl_factory::pso::DepthStencilInfo {
        depth: Some(Depth { fun: Comparison::Less, write: false }),
        front: Some(stencil_side()),
        back: Some(stencil_side()),
    });
    let first = f.create_pipeline_state_raw(&p, &desc).unwrap();
    let second = f.create_pipeline_state_raw(&p, &desc).unwrap();
    assert_eq!(first, second);
}

#[test]
fn descriptor_new_populates_fixed_slot_tables() {
    let desc = Descriptor::new(Primitive::PointList, rasterizer(), false);
    assert_eq!(desc.color_targets.len(), MAX_COLOR_TARGETS);
    assert_eq!(desc.vertex_buffers.len(), MAX_VERTEX_ATTRIBUTES);
    assert_eq!(desc.attributes.len(), MAX_VERTEX_ATTRIBUTES);
    assert!(desc.color_targets.iter().all(|t| t.is_none()));
    assert!(desc.depth_stencil.is_none());
}
