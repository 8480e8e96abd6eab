//! The resource factory: validates descriptors against the shared device
//! context's capabilities, issues the modeled native creation calls, and
//! hands back handles that carry the created object's name and metadata.
//! Handle resolution reads those records directly; nothing persists across
//! one creation call beyond the device's own object store.

use vstd::prelude::*;

use crate::buffer::{
    role_to_target, spec_storage_plan, storage_plan, Bind, BindTarget, BufferError, BufferInfo,
    BufferRole, MapAccess, StorageKind, Usage,
};
use crate::device::{
    spec_allows_read, spec_allows_write, spec_splice, spec_zeroed, BufferObjectView, Device,
    DeviceView, TexBacking, TextureObjectView,
};
use crate::pso;
use crate::pso::{CreationError, PipelineState};
use crate::shade::{spec_stage_names, CreateProgramError, Program, Shader, ShaderSet, Stage};
use crate::texture::{
    ChannelType, DepthStencilDesc, Dimensions, FatSampler, Layer, Level, RenderDesc,
    ResourceViewError, SamplerInfo, TargetViewError, TextureError,
};
use crate::{Buffer, NewTexture, ResourceView, TargetView};

verus! {

/// Public capability flags of a context, immutable for the session.
#[derive(Clone, Copy, Debug, PartialEq, Eq, Structural)]
pub struct Capabilities {
    pub max_texture_size: usize,
    pub constant_buffer_supported: bool,
}

/// Private capability flags that steer which native creation path is taken.
#[derive(Clone, Copy, Debug, PartialEq, Eq, Structural)]
pub struct PrivateCaps {
    pub buffer_storage_supported: bool,
    pub immutable_storage_supported: bool,
    pub sampler_objects_supported: bool,
}

/// The shared device context: the queried capabilities plus the native
/// object store. The capabilities are never mutated after creation; only the
/// store grows.
pub struct Share {
    pub capabilities: Capabilities,
    pub private_caps: PrivateCaps,
    pub device: Device,
}

/// The resource factory over a shared device context.
pub struct Factory {
    pub share: Share,
}

/// A buffer handle: the native name beside the creation info.
#[derive(Clone, Copy, Debug, PartialEq, Eq, Structural)]
pub struct RawBuffer {
    pub name: Buffer,
    pub info: BufferInfo,
}

/// A texture handle: the created object beside its descriptor.
#[derive(Clone, Copy, Debug, PartialEq, Eq, Structural)]
pub struct RawTexture {
    pub object: NewTexture,
    pub desc: crate::texture::Descriptor,
}

/// A shader-resource view handle.
#[derive(Clone, Copy, Debug, PartialEq, Eq)]
pub struct RawShaderResourceView {
    pub view: ResourceView,
}

/// A render-target view handle, carrying the extent of the level it targets.
#[derive(Clone, Copy, Debug, PartialEq, Eq, Structural)]
pub struct RawRenderTargetView {
    pub view: TargetView,
    pub dimensions: Dimensions,
}

/// A depth-stencil view handle.
#[derive(Clone, Copy, Debug, PartialEq, Eq, Structural)]
pub struct RawDepthStencilView {
    pub view: TargetView,
    pub dimensions: Dimensions,
}

/// An unordered-access view handle. No such view can currently be created.
#[derive(Clone, Copy, Debug, PartialEq, Eq, Structural)]
pub struct RawUnorderedAccessView;

/// A live mapping: the buffer it exposes, the binding point it was mapped
/// under (needed to unmap correctly) and the access it was requested with.
/// The mapping is only meaningful between `map_buffer_raw` and
/// `unmap_buffer_raw` on the same buffer.
#[derive(Clone, Copy, Debug, PartialEq, Eq, Structural)]
pub struct RawMapping {
    pub buffer: Buffer,
    pub target: BindTarget,
    pub access: MapAccess,
}

/// A read-only mapping sized to the buffer's element count.
#[derive(Clone, Copy, Debug, PartialEq, Eq, Structural)]
pub struct ReadableMapping {
    pub raw: RawMapping,
    pub len: usize,
}

/// A write-only mapping sized to the buffer's element count.
#[derive(Clone, Copy, Debug, PartialEq, Eq, Structural)]
pub struct WritableMapping {
    pub raw: RawMapping,
    pub len: usize,
}

/// A read-write mapping sized to the buffer's element count.
#[derive(Clone, Copy, Debug, PartialEq, Eq, Structural)]
pub struct RWMapping {
    pub raw: RawMapping,
    pub len: usize,
}

/// The capability flags never change across a factory operation.
pub open spec fn spec_caps_kept(pre: Factory, post: Factory) -> bool {
    &&& post.share.capabilities == pre.share.capabilities
    &&& post.share.private_caps == pre.share.private_caps
}

/// The buffer object a creation call leaves in the store: storage chosen by
/// the capability-driven plan, contents fresh, not mapped.
pub open spec fn spec_fresh_buffer(caps: PrivateCaps, info: BufferInfo) -> BufferObjectView {
    BufferObjectView {
        storage: Some(spec_storage_plan(caps.buffer_storage_supported, info.usage)),
        data: spec_zeroed(info.size as nat),
        mapped: None,
    }
}

/// The effective channel type: the explicit hint if given, else the raw
/// unsigned-integer default — callers relying on it accept an
/// implementation-defined interpretation.
pub open spec fn spec_channel(hint: Option<ChannelType>) -> ChannelType {
    match hint {
        Some(c) => c,
        None => ChannelType::Uint,
    }
}

/// Whether a texture descriptor asks for a sampled texture object rather
/// than a flat renderable surface.
pub open spec fn spec_wants_texture(desc: crate::texture::Descriptor, has_data: bool) -> bool {
    desc.bind.shader_resource || desc.bind.unordered_access || has_data
}

/// How a sampled texture is backed, by capability.
pub open spec fn spec_tex_backing(caps: PrivateCaps, channel: ChannelType) -> TexBacking {
    if caps.immutable_storage_supported {
        TexBacking::Immutable { channel }
    } else {
        TexBacking::Mutable { channel }
    }
}

/// The shape rules of a target view over a created object: a surface has no
/// mip chain and no layer addressing, so only level zero with no layer is
/// honored; a texture honors the level, and a layer selects one array slice.
pub open spec fn spec_view_target(object: NewTexture, level: Level, layer: Option<Layer>)
    -> Result<TargetView, TargetViewError> {
    match object {
        NewTexture::Surface(s) => match layer {
            Some(_) => Err(TargetViewError::Unsupported),
            None => if level != 0 {
                Err(TargetViewError::Unsupported)
            } else {
                Ok(TargetView::Surface(s))
            },
        },
        NewTexture::Texture(t) => match layer {
            Some(l) => Ok(TargetView::TextureLayer(t, level, l)),
            None => Ok(TargetView::Texture(t, level)),
        },
    }
}

/// Binds `buffer` to the target its role maps to and writes `data` into its
/// storage at `offset`.
pub fn update_sub_buffer(
    device: &mut Device,
    buffer: Buffer,
    data: &Vec<u8>,
    offset: usize,
    role: BufferRole,
)
    requires
        1 <= buffer <= old(device)@.buffers.len(),
        offset + data@.len() <= old(device)@.buffers[buffer - 1].data.len(),
    ensures
        final(device)@ == (DeviceView {
            buffers: old(device)@.buffers.update(
                buffer - 1,
                BufferObjectView {
                    data: spec_splice(
                        old(device)@.buffers[buffer - 1].data,
                        offset as int,
                        data@,
                    ),
                    ..old(device)@.buffers[buffer - 1]
                },
            ),
            ..old(device)@
        }),
{
    let target = role_to_target(role);
    device.buffer_sub_data(target, buffer, offset, data);
}

impl Factory {
    /// A factory over the given shared context.
    pub fn new(share: Share) -> (f: Factory)
        ensures
            f.share == share,
    {
        Factory { share }
    }

    /// The public capability flags of the shared context.
    pub fn get_capabilities(&self) -> (c: &Capabilities)
        ensures
            *c == self.share.capabilities,
    {
        &self.share.capabilities
    }

    fn create_buffer_internal(&mut self) -> (name: Buffer)
        requires
            old(self).share.device@.buffers.len() < 0xFFFF_FFFF,
        ensures
            name as int == old(self).share.device@.buffers.len() + 1,
            final(self).share.device@ == (DeviceView {
                buffers: old(self).share.device@.buffers.push(
                    BufferObjectView { storage: None, data: Seq::empty(), mapped: None },
                ),
                ..old(self).share.device@
            }),
            spec_caps_kept(*old(self), *final(self)),
    {
        self.share.device.gen_buffer()
    }

    fn init_buffer(&mut self, buffer: Buffer, info: &BufferInfo)
        requires
            1 <= buffer <= old(self).share.device@.buffers.len(),
        ensures
            final(self).share.device@ == (DeviceView {
                buffers: old(self).share.device@.buffers.update(
                    buffer - 1,
                    BufferObjectView {
                        storage: Some(spec_storage_plan(
                            old(self).share.private_caps.buffer_storage_supported,
                            info.usage,
                        )),
                        data: spec_zeroed(info.size as nat),
                        mapped: old(self).share.device@.buffers[buffer - 1].mapped,
                    },
                ),
                ..old(self).share.device@
            }),
            spec_caps_kept(*old(self), *final(self)),
    {
        let plan = storage_plan(self.share.private_caps.buffer_storage_supported, info.usage);
        match plan {
            StorageKind::Immutable { host_writable } => {
                self.share.device.buffer_storage(buffer, info.size, host_writable);
            }
            StorageKind::Mutable { hint } => {
                self.share.device.buffer_data(buffer, info.size, hint);
            }
        }
    }

    /// Creates a buffer for the given role, usage and size. A uniform-role
    /// request is rejected up front when the context has no constant-buffer
    /// capability, and nothing is allocated in that case; otherwise a fresh
    /// name is allocated and its storage initialized by the capability-driven
    /// plan, with contents left fresh.
    pub fn create_buffer_raw(&mut self, info: BufferInfo) -> (r: Result<RawBuffer, BufferError>)
        requires
            old(self).share.device@.buffers.len() < 0xFFFF_FFFF,
        ensures
            r matches Err(_) <==> (info.role == BufferRole::Uniform
                && !old(self).share.capabilities.constant_buffer_supported),
            r matches Err(e) ==> e == BufferError::Unsupported && *final(self) == *old(self),
            r matches Ok(h) ==> {
                &&& h.info == info
                &&& h.name as int == old(self).share.device@.buffers.len() + 1
                &&& final(self).share.device@ == (DeviceView {
                    buffers: old(self).share.device@.buffers.push(
                        spec_fresh_buffer(old(self).share.private_caps, info),
                    ),
                    ..old(self).share.device@
                })
            },
            spec_caps_kept(*old(self), *final(self)),
    {
        if !self.share.capabilities.constant_buffer_supported
            && matches!(info.role, BufferRole::Uniform) {
            return Err(BufferError::Unsupported);
        }
        let name = self.create_buffer_internal();
        self.init_buffer(name, &info);
        proof {
            assert(self.share.device@.buffers =~= old(self).share.device@.buffers.push(
                spec_fresh_buffer(old(self).share.private_caps, info),
            ));
            assert(self.share.device@ =~~= DeviceView {
                buffers: old(self).share.device@.buffers.push(
                    spec_fresh_buffer(old(self).share.private_caps, info),
                ),
                ..old(self).share.device@
            });
        }
        Ok(RawBuffer { name, info })
    }

    /// Creates a buffer with usage forced to `Const` and uploads `data` into
    /// the fresh storage at offset zero through the role's binding point, so
    /// the created buffer holds exactly `data`.
    pub fn create_buffer_const_raw(
        &mut self,
        data: &Vec<u8>,
        stride: usize,
        role: BufferRole,
        bind: Bind,
    ) -> (r: Result<RawBuffer, BufferError>)
        requires
            old(self).share.device@.buffers.len() < 0xFFFF_FFFF,
        ensures
            r matches Ok(h) && h.info == (BufferInfo {
                role,
                usage: Usage::Const,
                bind,
                size: data.len(),
                stride,
            }) && h.name as int == old(self).share.device@.buffers.len() + 1,
            final(self).share.device@ == (DeviceView {
                buffers: old(self).share.device@.buffers.push(
                    BufferObjectView {
                        storage: Some(spec_storage_plan(
                            old(self).share.private_caps.buffer_storage_supported,
                            Usage::Const,
                        )),
                        data: data@,
                        mapped: None,
                    },
                ),
                ..old(self).share.device@
            }),
            spec_caps_kept(*old(self), *final(self)),
    {
        let name = self.create_buffer_internal();
        let info = BufferInfo { role, usage: Usage::Const, bind, size: data.len(), stride };
        self.init_buffer(name, &info);
        update_sub_buffer(&mut self.share.device, name, data, 0, role);
        proof {
            assert(spec_splice(spec_zeroed(data@.len()), 0, data@) =~= data@);
            assert(self.share.device@.buffers =~= old(self).share.device@.buffers.push(
                BufferObjectView {
                    storage: Some(spec_storage_plan(
                        old(self).share.private_caps.buffer_storage_supported,
                        Usage::Const,
                    )),
                    data: data@,
                    mapped: None,
                },
            ));
            assert(self.share.device@ =~~= DeviceView {
                buffers: old(self).share.device@.buffers.push(
                    BufferObjectView {
                        storage: Some(spec_storage_plan(
                            old(self).share.private_caps.buffer_storage_supported,
                            Usage::Const,
                        )),
                        data: data@,
                        mapped: None,
                    },
                ),
                ..old(self).share.device@
            });
        }
        Ok(RawBuffer { name, info })
    }

    /// Compiles a shader for the given stage. Compilation internals sit below
    /// this layer; the model records the stage under a fresh name.
    pub fn create_shader(&mut self, stage: Stage, _code: &Vec<u8>) -> (s: Shader)
        requires
            old(self).share.device@.shaders.len() < 0xFFFF_FFFF,
        ensures
            s.stage == stage,
            s.name as int == old(self).share.device@.shaders.len() + 1,
            final(self).share.device@ == (DeviceView {
                shaders: old(self).share.device@.shaders.push(stage),
                ..old(self).share.device@
            }),
            spec_caps_kept(*old(self), *final(self)),
    {
        let name = self.share.device.add_shader(stage);
        Shader { name, stage }
    }

    fn create_program_raw(&mut self, shader_set: &ShaderSet) -> (r: Result<
        u32,
        CreateProgramError,
    >)
        requires
            old(self).share.device@.programs.len() < 0xFFFF_FFFF,
        ensures
            r matches Ok(name) && name as int == old(self).share.device@.programs.len() + 1,
            final(self).share.device@ == (DeviceView {
                programs: old(self).share.device@.programs.push(spec_stage_names(*shader_set)),
                ..old(self).share.device@
            }),
            spec_caps_kept(*old(self), *final(self)),
    {
        let mut shaders: Vec<u32> = Vec::new();
        match shader_set {
            ShaderSet::Simple(vs, ps) => {
                shaders.push(vs.name);
                shaders.push(ps.name);
            }
            ShaderSet::Geometry(vs, gs, ps) => {
                shaders.push(vs.name);
                shaders.push(gs.name);
                shaders.push(ps.name);
            }
            ShaderSet::Tessellated(vs, hs, ds, ps) => {
                shaders.push(vs.name);
                shaders.push(hs.name);
                shaders.push(ds.name);
                shaders.push(ps.name);
            }
        }
        proof {
            assert(shaders@ =~= spec_stage_names(*shader_set));
        }
        let name = self.share.device.link_program(shaders);
        Ok(name)
    }

    /// Links a shader set into a program. The shape of the set dictates
    /// exactly which stages participate: the resolved names are handed to the
    /// link step in order, none dropped and none reordered.
    pub fn create_program(&mut self, shader_set: &ShaderSet) -> (r: Result<
        Program,
        CreateProgramError,
    >)
        requires
            old(self).share.device@.programs.len() < 0xFFFF_FFFF,
        ensures
            r matches Ok(p) && p.name as int == old(self).share.device@.programs.len() + 1,
            final(self).share.device@ == (DeviceView {
                programs: old(self).share.device@.programs.push(spec_stage_names(*shader_set)),
                ..old(self).share.device@
            }),
            spec_caps_kept(*old(self), *final(self)),
    {
        match self.create_program_raw(shader_set) {
            Ok(name) => Ok(Program { name }),
            Err(e) => Err(e),
        }
    }

    /// Assembles a pipeline state from a linked program and a descriptor.
    /// This is pure data transformation: no native call is made and the
    /// context is left untouched. A descriptor whose attributes reference an
    /// unpopulated vertex-buffer slot is rejected.
    pub fn create_pipeline_state_raw(
        &mut self,
        program: &Program,
        desc: &pso::Descriptor,
    ) -> (r: Result<PipelineState, CreationError>)
        requires
            desc.wf(),
        ensures
            *final(self) == *old(self),
            r matches Err(_) <==> !pso::spec_valid(desc.attributes@, desc.vertex_buffers@),
            r matches Ok(ps) ==> pso::spec_assembled(program.name, *desc, ps),
    {
        pso::assemble(program.name, desc)
    }

    /// Creates a texture or a renderable surface. A zero mip-level count and
    /// an oversize width or height are rejected before anything is allocated,
    /// naming the offending extent. A descriptor that asks for shader access
    /// or comes with initial data yields a sampled texture, backed immutably
    /// when the capability exists; otherwise a cheaper surface is created.
    /// Initial data is uploaded right after allocation.
    pub fn create_texture_raw(
        &mut self,
        desc: crate::texture::Descriptor,
        hint: Option<ChannelType>,
        data: Option<Vec<Vec<u8>>>,
    ) -> (r: Result<RawTexture, TextureError>)
        requires
            old(self).share.device@.textures.len() < 0xFFFF_FFFF,
            old(self).share.device@.surfaces.len() < 0xFFFF_FFFF,
        ensures
            desc.levels == 0 ==> (r matches Err(e) && e == TextureError::Size(0)),
            r matches Err(_) <==> (desc.levels == 0
                || desc.kind.spec_dimensions().width as int
                    > old(self).share.capabilities.max_texture_size as int
                || desc.kind.spec_dimensions().height as int
                    > old(self).share.capabilities.max_texture_size as int),
            desc.levels != 0
                && desc.kind.spec_dimensions().width as int
                    > old(self).share.capabilities.max_texture_size as int
                ==> (r matches Err(e) && e == TextureError::Size(desc.kind.spec_dimensions().width)),
            desc.levels != 0
                && desc.kind.spec_dimensions().width as int
                    <= old(self).share.capabilities.max_texture_size as int
                && desc.kind.spec_dimensions().height as int
                    > old(self).share.capabilities.max_texture_size as int
                ==> (r matches Err(e) && e == TextureError::Size(desc.kind.spec_dimensions().height)),
            r matches Err(_) ==> *final(self) == *old(self),
            r matches Ok(h) ==> {
                &&& h.desc == desc
                &&& if spec_wants_texture(desc, data is Some) {
                    &&& h.object == NewTexture::Texture(
                        (old(self).share.device@.textures.len() + 1) as u32,
                    )
                    &&& final(self).share.device@ == (DeviceView {
                        textures: old(self).share.device@.textures.push(
                            TextureObjectView {
                                backing: spec_tex_backing(
                                    old(self).share.private_caps,
                                    spec_channel(hint),
                                ),
                                data: match data {
                                    Some(levels) => Some(
                                        levels@.map_values(|level: Vec<u8>| level@),
                                    ),
                                    None => None,
                                },
                            },
                        ),
                        ..old(self).share.device@
                    })
                } else {
                    &&& h.object == NewTexture::Surface(
                        (old(self).share.device@.surfaces.len() + 1) as u32,
                    )
                    &&& final(self).share.device@ == (DeviceView {
                        surfaces: old(self).share.device@.surfaces.push(spec_channel(hint)),
                        ..old(self).share.device@
                    })
                }
            },
            spec_caps_kept(*old(self), *final(self)),
    {
        if desc.levels == 0 {
            return Err(TextureError::Size(0));
        }
        let dim = desc.kind.get_dimensions();
        let max_size = self.share.capabilities.max_texture_size;
        if dim.width as usize > max_size {
            return Err(TextureError::Size(dim.width));
        }
        if dim.height as usize > max_size {
            return Err(TextureError::Size(dim.height));
        }
        let cty = match hint {
            Some(c) => c,
            None => ChannelType::Uint,
        };
        let wants_texture = desc.bind.shader_resource || desc.bind.unordered_access
            || data.is_some();
        let object = if wants_texture {
            let backing = if self.share.private_caps.immutable_storage_supported {
                TexBacking::Immutable { channel: cty }
            } else {
                TexBacking::Mutable { channel: cty }
            };
            let name = self.share.device.gen_texture(backing);
            match data {
                Some(levels) => {
                    self.share.device.texture_data(name, levels);
                }
                None => {}
            }
            NewTexture::Texture(name)
        } else {
            let name = self.share.device.make_surface(cty);
            NewTexture::Surface(name)
        };
        proof {
            if spec_wants_texture(desc, data is Some) {
                assert(self.share.device@.textures =~= old(self).share.device@.textures.push(
                    TextureObjectView {
                        backing: spec_tex_backing(
                            old(self).share.private_caps,
                            spec_channel(hint),
                        ),
                        data: match data {
                            Some(levels) => Some(levels@.map_values(|level: Vec<u8>| level@)),
                            None => None,
                        },
                    },
                ));
                assert(self.share.device@ =~~= DeviceView {
                    textures: self.share.device@.textures,
                    ..old(self).share.device@
                });
            }
        }
        Ok(RawTexture { object, desc })
    }

    fn view_texture_as_target(
        &self,
        htex: &RawTexture,
        level: Level,
        layer: Option<Layer>,
    ) -> (r: Result<TargetView, TargetViewError>)
        ensures
            r == spec_view_target(htex.object, level, layer),
    {
        match (htex.object, layer) {
            (NewTexture::Surface(_), Some(_)) => Err(TargetViewError::Unsupported),
            (NewTexture::Surface(s), None) => if level != 0 {
                Err(TargetViewError::Unsupported)
            } else {
                Ok(TargetView::Surface(s))
            },
            (NewTexture::Texture(t), Some(l)) => Ok(TargetView::TextureLayer(t, level, l)),
            (NewTexture::Texture(t), None) => Ok(TargetView::Texture(t, level)),
        }
    }

    /// Derives a view over a texture or surface for sampling in shaders.
    /// A surface cannot be sampled, so the request fails with `NoBindFlag`;
    /// over a sampled texture it always succeeds.
    pub fn view_texture_as_shader_resource_raw(&mut self, htex: &RawTexture) -> (r: Result<
        RawShaderResourceView,
        ResourceViewError,
    >)
        ensures
            *final(self) == *old(self),
            htex.object matches NewTexture::Surface(_)
                ==> (r matches Err(e) && e == ResourceViewError::NoBindFlag),
            htex.object matches NewTexture::Texture(t)
                ==> (r matches Ok(v) && v.view == (ResourceView::Texture {
                    object: t,
                    kind: htex.desc.kind,
                })),
    {
        match htex.object {
            NewTexture::Surface(_) => Err(ResourceViewError::NoBindFlag),
            NewTexture::Texture(t) => Ok(RawShaderResourceView {
                view: ResourceView::Texture { object: t, kind: htex.desc.kind },
            }),
        }
    }

    /// Derives a texture view over a buffer's storage so shaders can fetch
    /// from it; a fresh texture name is created over the buffer.
    pub fn view_buffer_as_shader_resource_raw(&mut self, hbuf: &RawBuffer) -> (r: Result<
        RawShaderResourceView,
        ResourceViewError,
    >)
        requires
            old(self).share.device@.textures.len() < 0xFFFF_FFFF,
        ensures
            r matches Ok(v) && v.view == (ResourceView::Buffer {
                object: (old(self).share.device@.textures.len() + 1) as u32,
            }),
            final(self).share.device@ == (DeviceView {
                textures: old(self).share.device@.textures.push(
                    TextureObjectView {
                        backing: TexBacking::BufferBacked { buffer: hbuf.name },
                        data: None,
                    },
                ),
                ..old(self).share.device@
            }),
            spec_caps_kept(*old(self), *final(self)),
    {
        let name = self.share.device.gen_texture(TexBacking::BufferBacked { buffer: hbuf.name });
        Ok(RawShaderResourceView { view: ResourceView::Buffer { object: name } })
    }

    /// Unordered-access views over buffers are accepted as a capability but
    /// not provided by this layer: the request always reports `Unsupported`.
    pub fn view_buffer_as_unordered_access_raw(&mut self, _hbuf: &RawBuffer) -> (r: Result<
        RawUnorderedAccessView,
        ResourceViewError,
    >)
        ensures
            *final(self) == *old(self),
            r matches Err(e) && e == ResourceViewError::Unsupported,
    {
        Err(ResourceViewError::Unsupported)
    }

    /// Unordered-access views over textures are accepted as a capability but
    /// not provided by this layer: the request always reports `Unsupported`.
    pub fn view_texture_as_unordered_access_raw(&mut self, _htex: &RawTexture) -> (r: Result<
        RawUnorderedAccessView,
        ResourceViewError,
    >)
        ensures
            *final(self) == *old(self),
            r matches Err(e) && e == ResourceViewError::Unsupported,
    {
        Err(ResourceViewError::Unsupported)
    }

    /// Derives a render-target view. Over a surface only level zero with no
    /// layer is honored; over a texture the level is honored and a layer
    /// selects one array slice. The view carries the extent of the level it
    /// targets.
    pub fn view_texture_as_render_target_raw(&mut self, htex: &RawTexture, desc: RenderDesc)
        -> (r: Result<RawRenderTargetView, TargetViewError>)
        ensures
            *final(self) == *old(self),
            r == match spec_view_target(htex.object, desc.level, desc.layer) {
                Ok(view) => Ok(RawRenderTargetView {
                    view,
                    dimensions: htex.desc.kind.spec_level_dimensions(desc.level),
                }),
                Err(e) => Err::<RawRenderTargetView, TargetViewError>(e),
            },
    {
        match self.view_texture_as_target(htex, desc.level, desc.layer) {
            Ok(view) => {
                let dimensions = htex.desc.kind.get_level_dimensions(desc.level);
                Ok(RawRenderTargetView { view, dimensions })
            }
            Err(e) => Err(e),
        }
    }

    /// Derives a depth-stencil view under the same shape rules as a render
    /// target; the view reports the top-level extent of the source.
    pub fn view_texture_as_depth_stencil_raw(&mut self, htex: &RawTexture, desc: DepthStencilDesc)
        -> (r: Result<RawDepthStencilView, TargetViewError>)
        ensures
            *final(self) == *old(self),
            r == match spec_view_target(htex.object, desc.level, desc.layer) {
                Ok(view) => Ok(RawDepthStencilView {
                    view,
                    dimensions: htex.desc.kind.spec_level_dimensions(0),
                }),
                Err(e) => Err::<RawDepthStencilView, TargetViewError>(e),
            },
    {
        match self.view_texture_as_target(htex, desc.level, desc.layer) {
            Ok(view) => {
                let dimensions = htex.desc.kind.get_level_dimensions(0);
                Ok(RawDepthStencilView { view, dimensions })
            }
            Err(e) => Err(e),
        }
    }

    /// Creates a sampler; this never fails. With sampler-object support a
    /// native object is created; without it the handle is null-backed but
    /// still carries the requested state for later binding decisions.
    pub fn create_sampler(&mut self, info: SamplerInfo) -> (s: FatSampler)
        requires
            old(self).share.device@.samplers < 0xFFFF_FFFF,
        ensures
            s.info == info,
            old(self).share.private_caps.sampler_objects_supported ==> {
                &&& s.object as int == old(self).share.device@.samplers + 1
                &&& final(self).share.device@ == (DeviceView {
                    samplers: (old(self).share.device@.samplers + 1) as u32,
                    ..old(self).share.device@
                })
            },
            !old(self).share.private_caps.sampler_objects_supported ==> {
                &&& s.object == 0
                &&& *final(self) == *old(self)
            },
    {
        let name = if self.share.private_caps.sampler_objects_supported {
            self.share.device.make_sampler()
        } else {
            0
        };
        FatSampler { object: name, info }
    }

    /// Maps a buffer's whole range into host address space under the given
    /// access. The buffer is bound to the array target for the call, and the
    /// returned mapping remembers that binding point.
    pub fn map_buffer_raw(&mut self, buf: &RawBuffer, access: MapAccess) -> (m: RawMapping)
        requires
            1 <= buf.name <= old(self).share.device@.buffers.len(),
        ensures
            m == (RawMapping { buffer: buf.name, target: BindTarget::Array, access }),
            final(self).share.device@ == (DeviceView {
                buffers: old(self).share.device@.buffers.update(
                    buf.name - 1,
                    BufferObjectView {
                        mapped: Some(access),
                        ..old(self).share.device@.buffers[buf.name - 1]
                    },
                ),
                ..old(self).share.device@
            }),
            spec_caps_kept(*old(self), *final(self)),
    {
        self.share.device.map_buffer(buf.name, access);
        RawMapping { buffer: buf.name, target: BindTarget::Array, access }
    }

    /// Releases a mapping on the binding point it remembers. The host pointer
    /// it stood for is dead afterward; the written contents stay.
    pub fn unmap_buffer_raw(&mut self, map: RawMapping)
        requires
            1 <= map.buffer <= old(self).share.device@.buffers.len(),
        ensures
            final(self).share.device@ == (DeviceView {
                buffers: old(self).share.device@.buffers.update(
                    map.buffer - 1,
                    BufferObjectView {
                        mapped: None,
                        ..old(self).share.device@.buffers[map.buffer - 1]
                    },
                ),
                ..old(self).share.device@
            }),
            spec_caps_kept(*old(self), *final(self)),
    {
        self.share.device.unmap_buffer(map.buffer);
    }

    /// Writes bytes at an offset through an active writable mapping.
    pub fn write_mapped(&mut self, map: RawMapping, offset: usize, bytes: &Vec<u8>)
        requires
            1 <= map.buffer <= old(self).share.device@.buffers.len(),
            old(self).share.device@.buffers[map.buffer - 1].mapped matches Some(access)
                && spec_allows_write(access),
            offset + bytes@.len() <= old(self).share.device@.buffers[map.buffer - 1].data.len(),
        ensures
            final(self).share.device@ == (DeviceView {
                buffers: old(self).share.device@.buffers.update(
                    map.buffer - 1,
                    BufferObjectView {
                        data: spec_splice(
                            old(self).share.device@.buffers[map.buffer - 1].data,
                            offset as int,
                            bytes@,
                        ),
                        ..old(self).share.device@.buffers[map.buffer - 1]
                    },
                ),
                ..old(self).share.device@
            }),
            spec_caps_kept(*old(self), *final(self)),
    {
        self.share.device.mapped_write(map.buffer, offset, bytes);
    }

    /// Reads bytes at an offset through an active readable mapping.
    pub fn read_mapped(&self, map: RawMapping, offset: usize, len: usize) -> (out: Vec<u8>)
        requires
            1 <= map.buffer <= self.share.device@.buffers.len(),
            self.share.device@.buffers[map.buffer - 1].mapped matches Some(access)
                && spec_allows_read(access),
            offset + len <= self.share.device@.buffers[map.buffer - 1].data.len(),
        ensures
            out@ == self.share.device@.buffers[map.buffer - 1].data.subrange(
                offset as int,
                offset as int + len as int,
            ),
    {
        self.share.device.mapped_read(map.buffer, offset, len)
    }

    /// Maps a buffer read-only, exposing exactly its declared element count
    /// — never the raw byte length.
    pub fn map_buffer_readable(&mut self, buf: &RawBuffer) -> (m: ReadableMapping)
        requires
            1 <= buf.name <= old(self).share.device@.buffers.len(),
            buf.info.stride > 0,
        ensures
            m.raw == (RawMapping {
                buffer: buf.name,
                target: BindTarget::Array,
                access: MapAccess::Readable,
            }),
            m.len == buf.info.size / buf.info.stride,
            final(self).share.device@ == (DeviceView {
                buffers: old(self).share.device@.buffers.update(
                    buf.name - 1,
                    BufferObjectView {
                        mapped: Some(MapAccess::Readable),
                        ..old(self).share.device@.buffers[buf.name - 1]
                    },
                ),
                ..old(self).share.device@
            }),
            spec_caps_kept(*old(self), *final(self)),
    {
        let raw = self.map_buffer_raw(buf, MapAccess::Readable);
        ReadableMapping { raw, len: buf.info.size / buf.info.stride }
    }

    /// Maps a buffer write-only, exposing exactly its declared element count.
    pub fn map_buffer_writable(&mut self, buf: &RawBuffer) -> (m: WritableMapping)
        requires
            1 <= buf.name <= old(self).share.device@.buffers.len(),
            buf.info.stride > 0,
        ensures
            m.raw == (RawMapping {
                buffer: buf.name,
                target: BindTarget::Array,
                access: MapAccess::Writable,
            }),
            m.len == buf.info.size / buf.info.stride,
            final(self).share.device@ == (DeviceView {
                buffers: old(self).share.device@.buffers.update(
                    buf.name - 1,
                    BufferObjectView {
                        mapped: Some(MapAccess::Writable),
                        ..old(self).share.device@.buffers[buf.name - 1]
                    },
                ),
                ..old(self).share.device@
            }),
            spec_caps_kept(*old(self), *final(self)),
    {
        let raw = self.map_buffer_raw(buf, MapAccess::Writable);
        WritableMapping { raw, len: buf.info.size / buf.info.stride }
    }

    /// Maps a buffer read-write, exposing exactly its declared element count.
    pub fn map_buffer_rw(&mut self, buf: &RawBuffer) -> (m: RWMapping)
        requires
            1 <= buf.name <= old(self).share.device@.buffers.len(),
            buf.info.stride > 0,
        ensures
            m.raw == (RawMapping {
                buffer: buf.name,
                target: BindTarget::Array,
                access: MapAccess::RW,
            }),
            m.len == buf.info.size / buf.info.stride,
            final(self).share.device@ == (DeviceView {
                buffers: old(self).share.device@.buffers.update(
                    buf.name - 1,
                    BufferObjectView {
                        mapped: Some(MapAccess::RW),
                        ..old(self).share.device@.buffers[buf.name - 1]
                    },
                ),
                ..old(self).share.device@
            }),
            spec_caps_kept(*old(self), *final(self)),
    {
        let raw = self.map_buffer_raw(buf, MapAccess::RW);
        RWMapping { raw, len: buf.info.size / buf.info.stride }
    }
}

} // verus!
