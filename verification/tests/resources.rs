//! Buffer, texture, view, sampler and mapping behaviour of the factory.

use gl_factory::buffer::{
    role_to_target, Bind, BindTarget, BufferError, BufferInfo, BufferRole, MapAccess,
    StorageKind, Usage, UsageHint,
};
use gl_factory::device::{Device, TexBacking};
use gl_factory::factory::{Capabilities, Factory, PrivateCaps, Share};
use gl_factory::texture::{
    AaMode, ChannelType, Descriptor, DepthStencilDesc, FilterMethod, Kind, RenderDesc,
    ResourceViewError, SamplerInfo, TargetViewError, TextureError, WrapMode,
};
use gl_factory::{NewTexture, ResourceView, TargetView};

fn share(
    constant_buffer: bool,
    buffer_storage: bool,
    immutable_storage: bool,
    sampler_objects: bool,
) -> Share {
    Share {
        capabilities: Capabilities {
            max_texture_size: 1024,
            constant_buffer_supported: constant_buffer,
        },
        private_caps: PrivateCaps {
            buffer_storage_supported: buffer_storage,
            immutable_storage_supported: immutable_storage,
            sampler_objects_supported: sampler_objects,
        },
        device: Device::new(),
    }
}

fn buffer_info(role: BufferRole, usage: Usage, size: usize, stride: usize) -> BufferInfo {
    BufferInfo { role, usage, bind: Bind::none(), size, stride }
}

fn plain_texture_desc(kind: Kind, levels: u8, shader_resource: bool) -> Descriptor {
    Descriptor {
        kind,
        levels,
        bind: Bind {
            render_target: false,
            depth_stencil: false,
            shader_resource,
            unordered_access: false,
        },
    }
}

fn sampler_info() -> SamplerInfo {
    SamplerInfo {
        filter: FilterMethod::Bilinear,
        wrap_u: WrapMode::Tile,
        wrap_v: WrapMode::Clamp,
        wrap_w: WrapMode::Tile,
        lod_bias: 0,
        lod_min: 0,
        lod_max: 8 * 13,
        comparison: None,
    }
}

#[test]
fn role_binding_points() {
    assert_eq!(role_to_target(BufferRole::Vertex), BindTarget::Array);
    assert_eq!(role_to_target(BufferRole::Index), BindTarget::ElementArray);
    assert_eq!(role_to_target(BufferRole::Uniform), BindTarget::Uniform);
}

#[test]
fn uniform_buffer_without_capability_is_rejected() {
    let mut f = Factory::new(share(false, true, true, true));
    let r = f.create_buffer_raw(buffer_info(BufferRole::Uniform, Usage::Dynamic, 64, 4));
    assert_eq!(r, Err(BufferError::Unsupported));
    // nothing was allocated on the device
    assert_eq!(f.share.device.buffer_count(), 0);
}

#[test]
fn uniform_buffer_with_capability_succeeds() {
    let mut f = Factory::new(share(true, false, false, false));
    let h = f
        .create_buffer_raw(buffer_info(BufferRole::Uniform, Usage::Dynamic, 64, 4))
        .unwrap();
    assert_eq!(h.name, 1);
    assert_eq!(f.share.device.buffer_count(), 1);
}

#[test]
fn dynamic_buffer_without_storage_extension_gets_dynamic_hint() {
    // vertex role, usage dynamic, 256 bytes, buffer-storage absent
    let mut f = Factory::new(share(true, false, false, false));
    let h = f
        .create_buffer_raw(buffer_info(BufferRole::Vertex, Usage::Dynamic, 256, 4))
        .unwrap();
    assert_eq!(
        f.share.device.buffer_storage_kind(h.name),
        Some(StorageKind::Mutable { hint: UsageHint::DynamicDraw })
    );
}

#[test]
fn storage_hints_follow_usage_class() {
    let mut f = Factory::new(share(true, false, false, false));
    let gpu = f
        .create_buffer_raw(buffer_info(BufferRole::Vertex, Usage::GpuOnly, 16, 4))
        .unwrap();
    let con = f
        .create_buffer_raw(buffer_info(BufferRole::Vertex, Usage::Const, 16, 4))
        .unwrap();
    let cpu = f
        .create_buffer_raw(buffer_info(
            BufferRole::Vertex,
            Usage::CpuOnly(MapAccess::RW),
            16,
            4,
        ))
        .unwrap();
    let kind = |name| f.share.device.buffer_storage_kind(name);
    assert_eq!(kind(gpu.name), Some(StorageKind::Mutable { hint: UsageHint::StaticDraw }));
    assert_eq!(kind(con.name), Some(StorageKind::Mutable { hint: UsageHint::StaticDraw }));
    assert_eq!(kind(cpu.name), Some(StorageKind::Mutable { hint: UsageHint::StreamDraw }));
}

#[test]
fn buffer_storage_extension_sets_host_writable_bits() {
    let mut f = Factory::new(share(true, true, false, false));
    let gpu = f
        .create_buffer_raw(buffer_info(BufferRole::Vertex, Usage::GpuOnly, 16, 4))
        .unwrap();
    let dyn_buf = f
        .create_buffer_raw(buffer_info(BufferRole::Vertex, Usage::Dynamic, 16, 4))
        .unwrap();
    assert_eq!(
        f.share.device.buffer_storage_kind(gpu.name),
        Some(StorageKind::Immutable { host_writable: false })
    );
    assert_eq!(
        f.share.device.buffer_storage_kind(dyn_buf.name),
        Some(StorageKind::Immutable { host_writable: true })
    );
}

#[test]
fn const_buffer_uploads_its_data() {
    let mut f = Factory::new(share(true, false, false, false));
    let data = vec![1u8, 2, 3, 4, 5];
    let h = f
        .create_buffer_const_raw(&data, 1, BufferRole::Vertex, Bind::none())
        .unwrap();
    assert_eq!(h.info.usage, Usage::Const);
    assert_eq!(h.info.size, 5);
    let map = f.map_buffer_raw(&h, MapAccess::Readable);
    assert_eq!(f.read_mapped(map, 0, 5), data);
}

#[test]
fn map_write_unmap_then_read_round_trips() {
    let mut f = Factory::new(share(true, false, false, false));
    let h = f
        .create_buffer_raw(buffer_info(BufferRole::Vertex, Usage::Dynamic, 8, 1))
        .unwrap();
    let map = f.map_buffer_raw(&h, MapAccess::Writable);
    assert_eq!(map.target, BindTarget::Array);
    let payload = vec![9u8, 8, 7, 6, 5, 4, 3, 2];
    f.write_mapped(map, 0, &payload);
    f.unmap_buffer_raw(map);
    assert_eq!(f.share.device.buffer_mapped(h.name), None);

    let map = f.map_buffer_raw(&h, MapAccess::Readable);
    assert_eq!(f.read_mapped(map, 0, 8), payload);
    f.unmap_buffer_raw(map);
}

#[test]
fn mapped_write_at_offset_leaves_rest_untouched() {
    let mut f = Factory::new(share(true, false, false, false));
    let h = f
        .create_buffer_raw(buffer_info(BufferRole::Vertex, Usage::Dynamic, 8, 1))
        .unwrap();
    let map = f.map_buffer_raw(&h, MapAccess::RW);
    f.write_mapped(map, 2, &vec![5u8, 6]);
    assert_eq!(f.read_mapped(map, 0, 8), vec![0u8, 0, 5, 6, 0, 0, 0, 0]);
    f.unmap_buffer_raw(map);
}

#[test]
fn update_sub_buffer_writes_through_role_target() {
    let mut f = Factory::new(share(true, false, false, false));
    let h = f
        .create_buffer_raw(buffer_info(BufferRole::Index, Usage::Dynamic, 6, 2))
        .unwrap();
    gl_factory::factory::update_sub_buffer(
        &mut f.share.device,
        h.name,
        &vec![0xaa, 0xbb],
        4,
        BufferRole::Index,
    );
    let map = f.map_buffer_raw(&h, MapAccess::Readable);
    assert_eq!(f.read_mapped(map, 0, 6), vec![0, 0, 0, 0, 0xaa, 0xbb]);
}

#[test]
fn typed_mappings_expose_element_count_not_bytes() {
    let mut f = Factory::new(share(true, false, false, false));
    let h = f
        .create_buffer_raw(buffer_info(BufferRole::Vertex, Usage::Dynamic, 256, 4))
        .unwrap();
    let r = f.map_buffer_readable(&h);
    assert_eq!(r.len, 64);
    assert_eq!(r.raw.access, MapAccess::Readable);
    let w = f.map_buffer_writable(&h);
    assert_eq!(w.len, 64);
    let rw = f.map_buffer_rw(&h);
    assert_eq!(rw.len, 64);
    // a stride that does not divide the size rounds down, never over
    let odd = f
        .create_buffer_raw(buffer_info(BufferRole::Vertex, Usage::Dynamic, 10, 4))
        .unwrap();
    assert_eq!(f.map_buffer_readable(&odd).len, 2);
}

#[test]
fn zero_levels_texture_is_rejected_first() {
    let mut f = Factory::new(share(true, true, true, true));
    let desc = plain_texture_desc(Kind::D2(64, 64, AaMode::Single), 0, true);
    assert_eq!(f.create_texture_raw(desc, None, None), Err(TextureError::Size(0)));
    assert_eq!(f.share.device.texture_count(), 0);
    assert_eq!(f.share.device.surface_count(), 0);
}

#[test]
fn oversize_texture_reports_offending_dimension() {
    let mut f = Factory::new(share(true, true, true, true));
    let wide = plain_texture_desc(Kind::D2(2048, 16, AaMode::Single), 1, true);
    assert_eq!(f.create_texture_raw(wide, None, None), Err(TextureError::Size(2048)));
    let tall = plain_texture_desc(Kind::D2(16, 4096, AaMode::Single), 1, true);
    assert_eq!(f.create_texture_raw(tall, None, None), Err(TextureError::Size(4096)));
    assert_eq!(f.share.device.texture_count(), 0);
    assert_eq!(f.share.device.surface_count(), 0);
}

#[test]
fn texture_at_exactly_the_maximum_size_is_accepted() {
    let mut f = Factory::new(share(true, true, true, true));
    let desc = plain_texture_desc(Kind::D2(1024, 1024, AaMode::Single), 1, true);
    assert!(f.create_texture_raw(desc, None, None).is_ok());
}

#[test]
fn zero_size_buffer_is_created_empty() {
    let mut f = Factory::new(share(true, false, false, false));
    let h = f
        .create_buffer_raw(buffer_info(BufferRole::Vertex, Usage::Dynamic, 0, 1))
        .unwrap();
    assert_eq!(f.share.device.buffer_size(h.name), 0);
}

#[test]
fn plain_render_target_becomes_surface() {
    let mut f = Factory::new(share(true, true, true, true));
    let desc = plain_texture_desc(Kind::D2(64, 64, AaMode::Single), 1, false);
    let h = f.create_texture_raw(desc, None, None).unwrap();
    assert_eq!(h.object, NewTexture::Surface(1));
    assert_eq!(f.share.device.surface_count(), 1);
    assert_eq!(f.share.device.texture_count(), 0);
}

#[test]
fn shader_resource_bind_becomes_sampled_texture() {
    let mut f = Factory::new(share(true, true, true, true));
    let desc = plain_texture_desc(Kind::D2(64, 64, AaMode::Single), 1, true);
    let h = f.create_texture_raw(desc, Some(ChannelType::Unorm), None).unwrap();
    assert_eq!(h.object, NewTexture::Texture(1));
    assert_eq!(
        f.share.device.texture_backing(1),
        TexBacking::Immutable { channel: ChannelType::Unorm }
    );
    assert!(!f.share.device.texture_has_data(1));
}

#[test]
fn initial_data_forces_sampled_texture_and_uploads() {
    // no shader-resource bind, but initial data still asks for a texture
    let mut f = Factory::new(share(true, true, false, true));
    let desc = plain_texture_desc(Kind::D2(2, 1, AaMode::Single), 1, false);
    let h = f
        .create_texture_raw(desc, None, Some(vec![vec![10u8, 20]]))
        .unwrap();
    assert_eq!(h.object, NewTexture::Texture(1));
    // without immutable storage the fallback path is mutable, hint defaults raw
    assert_eq!(
        f.share.device.texture_backing(1),
        TexBacking::Mutable { channel: ChannelType::Uint }
    );
    assert!(f.share.device.texture_has_data(1));
}

#[test]
fn render_target_view_over_surface_is_level_zero_only() {
    let mut f = Factory::new(share(true, true, true, true));
    let desc = plain_texture_desc(Kind::D2(64, 64, AaMode::Single), 1, false);
    let h = f.create_texture_raw(desc, None, None).unwrap();
    let ok = f.view_texture_as_render_target_raw(
        &h,
        RenderDesc { channel: ChannelType::Uint, level: 0, layer: None },
    );
    assert_eq!(ok.unwrap().view, TargetView::Surface(1));
    let level = f.view_texture_as_render_target_raw(
        &h,
        RenderDesc { channel: ChannelType::Uint, level: 1, layer: None },
    );
    assert_eq!(level, Err(TargetViewError::Unsupported));
    let layer = f.view_texture_as_render_target_raw(
        &h,
        RenderDesc { channel: ChannelType::Uint, level: 0, layer: Some(0) },
    );
    assert_eq!(layer, Err(TargetViewError::Unsupported));
}

#[test]
fn render_target_view_over_texture_honors_level_and_layer() {
    let mut f = Factory::new(share(true, true, true, true));
    let desc = plain_texture_desc(Kind::D2(256, 128, AaMode::Single), 4, true);
    let h = f.create_texture_raw(desc, None, None).unwrap();
    let whole = f
        .view_texture_as_render_target_raw(
            &h,
            RenderDesc { channel: ChannelType::Uint, level: 1, layer: None },
        )
        .unwrap();
    assert_eq!(whole.view, TargetView::Texture(1, 1));
    assert_eq!((whole.dimensions.width, whole.dimensions.height), (128, 64));
    let slice = f
        .view_texture_as_render_target_raw(
            &h,
            RenderDesc { channel: ChannelType::Uint, level: 2, layer: Some(3) },
        )
        .unwrap();
    assert_eq!(slice.view, TargetView::TextureLayer(1, 2, 3));
}

#[test]
fn depth_stencil_view_reports_top_level_extent() {
    let mut f = Factory::new(share(true, true, true, true));
    let desc = plain_texture_desc(Kind::D2(256, 128, AaMode::Single), 4, true);
    let h = f.create_texture_raw(desc, None, None).unwrap();
    let v = f
        .view_texture_as_depth_stencil_raw(&h, DepthStencilDesc { level: 1, layer: None })
        .unwrap();
    assert_eq!(v.view, TargetView::Texture(1, 1));
    assert_eq!((v.dimensions.width, v.dimensions.height), (256, 128));
}

#[test]
fn shader_resource_view_fails_on_surface_succeeds_on_texture() {
    let mut f = Factory::new(share(true, true, true, true));
    let surf = f
        .create_texture_raw(plain_texture_desc(Kind::D2(8, 8, AaMode::Single), 1, false), None, None)
        .unwrap();
    assert_eq!(
        f.view_texture_as_shader_resource_raw(&surf),
        Err(ResourceViewError::NoBindFlag)
    );
    let kind = Kind::D2(8, 8, AaMode::Single);
    let tex = f
        .create_texture_raw(plain_texture_desc(kind, 1, true), None, None)
        .unwrap();
    let v = f.view_texture_as_shader_resource_raw(&tex).unwrap();
    assert_eq!(v.view, ResourceView::Texture { object: 1, kind });
}

#[test]
fn buffer_shader_resource_view_creates_backing_texture() {
    let mut f = Factory::new(share(true, false, false, false));
    let h = f
        .create_buffer_raw(buffer_info(BufferRole::Vertex, Usage::Dynamic, 16, 1))
        .unwrap();
    let v = f.view_buffer_as_shader_resource_raw(&h).unwrap();
    assert_eq!(v.view, ResourceView::Buffer { object: 1 });
    assert_eq!(f.share.device.texture_count(), 1);
    assert_eq!(
        f.share.device.texture_backing(1),
        TexBacking::BufferBacked { buffer: h.name }
    );
}

#[test]
fn unordered_access_views_are_unsupported() {
    let mut f = Factory::new(share(true, true, true, true));
    let buf = f
        .create_buffer_raw(buffer_info(BufferRole::Vertex, Usage::Dynamic, 16, 1))
        .unwrap();
    let tex = f
        .create_texture_raw(plain_texture_desc(Kind::D2(8, 8, AaMode::Single), 1, true), None, None)
        .unwrap();
    assert_eq!(
        f.view_buffer_as_unordered_access_raw(&buf),
        Err(ResourceViewError::Unsupported)
    );
    assert_eq!(
        f.view_texture_as_unordered_access_raw(&tex),
        Err(ResourceViewError::Unsupported)
    );
}

#[test]
fn sampler_objects_only_when_supported() {
    let info = sampler_info();
    let mut with = Factory::new(share(true, true, true, true));
    let s = with.create_sampler(info);
    assert_eq!(s.object, 1);
    assert_eq!(s.info, info);
    assert_eq!(with.share.device.sampler_count(), 1);

    let mut without = Factory::new(share(true, true, true, false));
    let s = without.create_sampler(info);
    assert_eq!(s.object, 0);
    assert_eq!(s.info, info);
    assert_eq!(without.share.device.sampler_count(), 0);
}

#[test]
fn kind_dimensions() {
    let d = Kind::Cube(32).get_dimensions();
    assert_eq!((d.width, d.height, d.depth), (32, 32, 6));
    let d = Kind::D1Array(100, 7).get_dimensions();
    assert_eq!((d.width, d.height, d.depth), (100, 1, 7));
    let lvl = Kind::D2(256, 100, AaMode::Single).get_level_dimensions(3);
    assert_eq!((lvl.width, lvl.height), (32, 12));
    // extents clamp at one texel, whatever the level
    let tiny = Kind::D2(1, 2, AaMode::Single).get_level_dimensions(5);
    assert_eq!((tiny.width, tiny.height), (1, 1));
}

#[test]
fn capabilities_are_readable_and_stable() {
    let mut f = Factory::new(share(true, false, false, false));
    assert_eq!(f.get_capabilities().max_texture_size, 1024);
    let _ = f.create_buffer_raw(buffer_info(BufferRole::Vertex, Usage::Dynamic, 4, 1));
    assert!(f.get_capabilities().constant_buffer_supported);
}
