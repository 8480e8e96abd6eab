//! An in-memory model of the native object store that the factory drives.
//!
//! It stands in for the live graphics context: names are handed out densely
//! from one per object namespace, and buffer storage contents are tracked
//! byte for byte, so that every creation decision and every mapping operation
//! has an exact meaning to prove against. A real backend performs the same
//! steps through the native call surface; the decision logic above this
//! module is independent of which of the two executes them.

use vstd::prelude::*;

use crate::buffer::{MapAccess, StorageKind, UsageHint, BindTarget};
use crate::shade::Stage;
use crate::texture::ChannelType;

verus! {

/// How a texture object's storage came to be.
#[derive(Clone, Copy, Debug, PartialEq, Eq, Structural)]
pub enum TexBacking {
    /// Immutable storage, fully allocated up front.
    Immutable { channel: ChannelType },
    /// Mutable storage, allocated level by level.
    Mutable { channel: ChannelType },
    /// A texture view over an existing buffer's storage.
    BufferBacked { buffer: u32 },
}

/// One native buffer object.
#[derive(Debug, PartialEq, Eq)]
pub struct BufferObject {
    pub storage: Option<StorageKind>,
    pub data: Vec<u8>,
    pub mapped: Option<MapAccess>,
}

/// The mathematical value of a buffer object.
#[verifier::ext_equal]
pub struct BufferObjectView {
    pub storage: Option<StorageKind>,
    pub data: Seq<u8>,
    pub mapped: Option<MapAccess>,
}

impl View for BufferObject {
    type V = BufferObjectView;

    open spec fn view(&self) -> BufferObjectView {
        BufferObjectView { storage: self.storage, data: self.data@, mapped: self.mapped }
    }
}

/// One native texture object.
#[derive(Debug, PartialEq, Eq)]
pub struct TextureObject {
    pub backing: TexBacking,
    pub data: Option<Vec<Vec<u8>>>,
}

/// The mathematical value of a texture object.
#[verifier::ext_equal]
pub struct TextureObjectView {
    pub backing: TexBacking,
    pub data: Option<Seq<Seq<u8>>>,
}

impl View for TextureObject {
    type V = TextureObjectView;

    open spec fn view(&self) -> TextureObjectView {
        TextureObjectView {
            backing: self.backing,
            data: match self.data {
                Some(levels) => Some(levels@.map_values(|level: Vec<u8>| level@)),
                None => None,
            },
        }
    }
}

/// The mathematical value of the whole object store.
#[verifier::ext_equal]
pub struct DeviceView {
    pub buffers: Seq<BufferObjectView>,
    pub textures: Seq<TextureObjectView>,
    pub surfaces: Seq<ChannelType>,
    pub programs: Seq<Seq<u32>>,
    pub shaders: Seq<Stage>,
    pub samplers: u32,
}

/// The modeled native object store. A name is valid when it lies between one
/// and the count of objects created in its namespace; zero never names an
/// object.
pub struct Device {
    buffers: Vec<BufferObject>,
    textures: Vec<TextureObject>,
    surfaces: Vec<ChannelType>,
    programs: Vec<Vec<u32>>,
    shaders: Vec<Stage>,
    samplers: u32,
}

impl View for Device {
    type V = DeviceView;

    closed spec fn view(&self) -> DeviceView {
        DeviceView {
            buffers: self.buffers@.map_values(|b: BufferObject| b@),
            textures: self.textures@.map_values(|t: TextureObject| t@),
            surfaces: self.surfaces@,
            programs: self.programs@.map_values(|p: Vec<u32>| p@),
            shaders: self.shaders@,
            samplers: self.samplers,
        }
    }
}

/// A run of `n` zero bytes, the model's content of fresh storage.
pub open spec fn spec_zeroed(n: nat) -> Seq<u8> {
    Seq::new(n, |i: int| 0u8)
}

/// `data` with `bytes` written over the range starting at `offset`.
pub open spec fn spec_splice(data: Seq<u8>, offset: int, bytes: Seq<u8>) -> Seq<u8> {
    data.subrange(0, offset) + bytes + data.subrange(offset + bytes.len() as int, data.len() as int)
}

/// Whether a mapping with this access admits host writes.
pub open spec fn spec_allows_write(access: MapAccess) -> bool {
    match access {
        MapAccess::Readable => false,
        MapAccess::Writable => true,
        MapAccess::RW => true,
    }
}

/// Whether a mapping with this access admits host reads.
pub open spec fn spec_allows_read(access: MapAccess) -> bool {
    match access {
        MapAccess::Readable => true,
        MapAccess::Writable => false,
        MapAccess::RW => true,
    }
}

/// Bytes written through a mapping are the bytes a later read of the same
/// range returns: writing `bytes` at `offset` and reading that range back
/// round-trips.
pub proof fn lemma_write_read_round_trip(data: Seq<u8>, offset: int, bytes: Seq<u8>)
    requires
        0 <= offset,
        offset + bytes.len() <= data.len(),
    ensures
        spec_splice(data, offset, bytes).subrange(offset, offset + bytes.len() as int) == bytes,
{
    assert(spec_splice(data, offset, bytes).subrange(offset, offset + bytes.len() as int)
        =~= bytes);
}

/// A write through a mapping leaves every byte outside the written range
/// unchanged.
pub proof fn lemma_write_preserves_rest(data: Seq<u8>, offset: int, bytes: Seq<u8>, i: int)
    requires
        0 <= offset,
        offset + bytes.len() <= data.len(),
        0 <= i < data.len(),
        !(offset <= i < offset + bytes.len()),
    ensures
        spec_splice(data, offset, bytes)[i] == data[i],
{
}

fn zeroed(n: usize) -> (v: Vec<u8>)
    ensures
        v@ == spec_zeroed(n as nat),
{
    let mut v: Vec<u8> = Vec::new();
    for i in 0..n
        invariant
            v.len() == i,
            forall|j: int| 0 <= j < i ==> v@[j] == 0u8,
    {
        v.push(0);
    }
    proof {
        assert(v@ =~= spec_zeroed(n as nat));
    }
    v
}

fn splice_copy(data: &Vec<u8>, offset: usize, bytes: &Vec<u8>) -> (out: Vec<u8>)
    requires
        offset + bytes.len() <= data.len(),
    ensures
        out@ == spec_splice(data@, offset as int, bytes@),
{
    let mut out: Vec<u8> = Vec::new();
    let n = data.len();
    for i in 0..n
        invariant
            out.len() == i,
            n == data.len(),
            offset + bytes.len() <= data.len(),
            forall|j: int| 0 <= j < i
                ==> out@[j] == spec_splice(data@, offset as int, bytes@)[j],
    {
        if i >= offset && i < offset + bytes.len() {
            out.push(bytes[i - offset]);
        } else {
            out.push(data[i]);
        }
    }
    proof {
        assert(out@ =~= spec_splice(data@, offset as int, bytes@));
    }
    out
}

fn read_range(data: &Vec<u8>, offset: usize, len: usize) -> (out: Vec<u8>)
    requires
        offset + len <= data.len(),
    ensures
        out@ == data@.subrange(offset as int, offset as int + len as int),
{
    let mut out: Vec<u8> = Vec::new();
    for i in 0..len
        invariant
            out.len() == i,
            offset + len <= data.len(),
            forall|j: int| 0 <= j < i ==> out@[j] == data@[offset + j],
    {
        out.push(data[offset + i]);
    }
    proof {
        assert(out@ =~= data@.subrange(offset as int, offset as int + len as int));
    }
    out
}

fn buffer_at(v: &mut Vec<BufferObject>, i: usize) -> (b: &mut BufferObject)
    requires
        i < old(v).len(),
    ensures
        *b == old(v)@[i as int],
        final(v)@ == old(v)@.update(i as int, *final(b)),
{
    &mut v[i]
}

impl Device {
    /// A fresh store with nothing created.
    pub fn new() -> (d: Device)
        ensures
            d@ == (DeviceView {
                buffers: Seq::empty(),
                textures: Seq::empty(),
                surfaces: Seq::empty(),
                programs: Seq::empty(),
                shaders: Seq::empty(),
                samplers: 0,
            }),
    {
        let d = Device {
            buffers: Vec::new(),
            textures: Vec::new(),
            surfaces: Vec::new(),
            programs: Vec::new(),
            shaders: Vec::new(),
            samplers: 0,
        };
        proof {
            assert(d@ =~~= DeviceView {
                buffers: Seq::empty(),
                textures: Seq::empty(),
                surfaces: Seq::empty(),
                programs: Seq::empty(),
                shaders: Seq::empty(),
                samplers: 0,
            });
        }
        d
    }

    /// Allocates a fresh buffer name with no storage behind it yet.
    pub fn gen_buffer(&mut self) -> (name: u32)
        requires
            old(self)@.buffers.len() < 0xFFFF_FFFF,
        ensures
            name as int == old(self)@.buffers.len() + 1,
            final(self)@ == (DeviceView {
                buffers: old(self)@.buffers.push(
                    BufferObjectView { storage: None, data: Seq::empty(), mapped: None },
                ),
                ..old(self)@
            }),
    {
        let name = self.buffers.len() as u32 + 1;
        self.buffers.push(BufferObject { storage: None, data: Vec::new(), mapped: None });
        proof {
            assert(self@ =~~= DeviceView {
                buffers: old(self)@.buffers.push(
                    BufferObjectView { storage: None, data: Seq::empty(), mapped: None },
                ),
                ..old(self)@
            });
        }
        name
    }

    /// Allocates immutable storage of `size` bytes for `buffer`; the model's
    /// fresh contents are zero.
    pub fn buffer_storage(&mut self, buffer: u32, size: usize, host_writable: bool)
        requires
            1 <= buffer <= old(self)@.buffers.len(),
        ensures
            final(self)@ == (DeviceView {
                buffers: old(self)@.buffers.update(
                    buffer - 1,
                    BufferObjectView {
                        storage: Some(StorageKind::Immutable { host_writable }),
                        data: spec_zeroed(size as nat),
                        mapped: old(self)@.buffers[buffer - 1].mapped,
                    },
                ),
                ..old(self)@
            }),
    {
        let idx = (buffer - 1) as usize;
        let b = buffer_at(&mut self.buffers, idx);
        b.storage = Some(StorageKind::Immutable { host_writable });
        b.data = zeroed(size);
        proof {
            assert(self@ =~~= DeviceView {
                buffers: old(self)@.buffers.update(
                    buffer - 1,
                    BufferObjectView {
                        storage: Some(StorageKind::Immutable { host_writable }),
                        data: spec_zeroed(size as nat),
                        mapped: old(self)@.buffers[buffer - 1].mapped,
                    },
                ),
                ..old(self)@
            });
        }
    }

    /// Allocates mutable storage of `size` bytes for `buffer` under a usage
    /// hint; the model's fresh contents are zero.
    pub fn buffer_data(&mut self, buffer: u32, size: usize, hint: UsageHint)
        requires
            1 <= buffer <= old(self)@.buffers.len(),
        ensures
            final(self)@ == (DeviceView {
                buffers: old(self)@.buffers.update(
                    buffer - 1,
                    BufferObjectView {
                        storage: Some(StorageKind::Mutable { hint }),
                        data: spec_zeroed(size as nat),
                        mapped: old(self)@.buffers[buffer - 1].mapped,
                    },
                ),
                ..old(self)@
            }),
    {
        let idx = (buffer - 1) as usize;
        let b = buffer_at(&mut self.buffers, idx);
        b.storage = Some(StorageKind::Mutable { hint });
        b.data = zeroed(size);
        proof {
            assert(self@ =~~= DeviceView {
                buffers: old(self)@.buffers.update(
                    buffer - 1,
                    BufferObjectView {
                        storage: Some(StorageKind::Mutable { hint }),
                        data: spec_zeroed(size as nat),
                        mapped: old(self)@.buffers[buffer - 1].mapped,
                    },
                ),
                ..old(self)@
            });
        }
    }

    /// Binds `buffer` to `target` and writes `bytes` into its storage at
    /// `offset`. The binding point chooses the native write path and has no
    /// further observable effect in the model.
    pub fn buffer_sub_data(&mut self, _target: BindTarget, buffer: u32, offset: usize, bytes: &Vec<u8>)
        requires
            1 <= buffer <= old(self)@.buffers.len(),
            offset + bytes@.len() <= old(self)@.buffers[buffer - 1].data.len(),
        ensures
            final(self)@ == (DeviceView {
                buffers: old(self)@.buffers.update(
                    buffer - 1,
                    BufferObjectView {
                        data: spec_splice(
                            old(self)@.buffers[buffer - 1].data,
                            offset as int,
                            bytes@,
                        ),
                        ..old(self)@.buffers[buffer - 1]
                    },
                ),
                ..old(self)@
            }),
    {
        let idx = (buffer - 1) as usize;
        let b = buffer_at(&mut self.buffers, idx);
        let spliced = splice_copy(&b.data, offset, bytes);
        b.data = spliced;
        proof {
            assert(self@ =~~= DeviceView {
                buffers: old(self)@.buffers.update(
                    buffer - 1,
                    BufferObjectView {
                        data: spec_splice(
                            old(self)@.buffers[buffer - 1].data,
                            offset as int,
                            bytes@,
                        ),
                        ..old(self)@.buffers[buffer - 1]
                    },
                ),
                ..old(self)@
            });
        }
    }

    /// Maps `buffer` into host address space under `access`.
    pub fn map_buffer(&mut self, buffer: u32, access: MapAccess)
        requires
            1 <= buffer <= old(self)@.buffers.len(),
        ensures
            final(self)@ == (DeviceView {
                buffers: old(self)@.buffers.update(
                    buffer - 1,
                    BufferObjectView {
                        mapped: Some(access),
                        ..old(self)@.buffers[buffer - 1]
                    },
                ),
                ..old(self)@
            }),
    {
        let idx = (buffer - 1) as usize;
        let b = buffer_at(&mut self.buffers, idx);
        b.mapped = Some(access);
        proof {
            assert(self@ =~~= DeviceView {
                buffers: old(self)@.buffers.update(
                    buffer - 1,
                    BufferObjectView {
                        mapped: Some(access),
                        ..old(self)@.buffers[buffer - 1]
                    },
                ),
                ..old(self)@
            });
        }
    }

    /// Releases the mapping of `buffer`; its contents stay as written.
    pub fn unmap_buffer(&mut self, buffer: u32)
        requires
            1 <= buffer <= old(self)@.buffers.len(),
        ensures
            final(self)@ == (DeviceView {
                buffers: old(self)@.buffers.update(
                    buffer - 1,
                    BufferObjectView { mapped: None, ..old(self)@.buffers[buffer - 1] },
                ),
                ..old(self)@
            }),
    {
        let idx = (buffer - 1) as usize;
        let b = buffer_at(&mut self.buffers, idx);
        b.mapped = None;
        proof {
            assert(self@ =~~= DeviceView {
                buffers: old(self)@.buffers.update(
                    buffer - 1,
                    BufferObjectView { mapped: None, ..old(self)@.buffers[buffer - 1] },
                ),
                ..old(self)@
            });
        }
    }

    /// Writes `bytes` at `offset` through an active writable mapping.
    pub fn mapped_write(&mut self, buffer: u32, offset: usize, bytes: &Vec<u8>)
        requires
            1 <= buffer <= old(self)@.buffers.len(),
            old(self)@.buffers[buffer - 1].mapped matches Some(access)
                && spec_allows_write(access),
            offset + bytes@.len() <= old(self)@.buffers[buffer - 1].data.len(),
        ensures
            final(self)@ == (DeviceView {
                buffers: old(self)@.buffers.update(
                    buffer - 1,
                    BufferObjectView {
                        data: spec_splice(
                            old(self)@.buffers[buffer - 1].data,
                            offset as int,
                            bytes@,
                        ),
                        ..old(self)@.buffers[buffer - 1]
                    },
                ),
                ..old(self)@
            }),
    {
        let idx = (buffer - 1) as usize;
        let b = buffer_at(&mut self.buffers, idx);
        let spliced = splice_copy(&b.data, offset, bytes);
        b.data = spliced;
        proof {
            assert(self@ =~~= DeviceView {
                buffers: old(self)@.buffers.update(
                    buffer - 1,
                    BufferObjectView {
                        data: spec_splice(
                            old(self)@.buffers[buffer - 1].data,
                            offset as int,
                            bytes@,
                        ),
                        ..old(self)@.buffers[buffer - 1]
                    },
                ),
                ..old(self)@
            });
        }
    }

    /// Reads `len` bytes at `offset` through an active readable mapping.
    pub fn mapped_read(&self, buffer: u32, offset: usize, len: usize) -> (out: Vec<u8>)
        requires
            1 <= buffer <= self@.buffers.len(),
            self@.buffers[buffer - 1].mapped matches Some(access) && spec_allows_read(access),
            offset + len <= self@.buffers[buffer - 1].data.len(),
        ensures
            out@ == self@.buffers[buffer - 1].data.subrange(
                offset as int,
                offset as int + len as int,
            ),
    {
        let idx = (buffer - 1) as usize;
        read_range(&self.buffers[idx].data, offset, len)
    }

    /// Allocates a fresh texture name with the given backing and no contents.
    pub fn gen_texture(&mut self, backing: TexBacking) -> (name: u32)
        requires
            old(self)@.textures.len() < 0xFFFF_FFFF,
        ensures
            name as int == old(self)@.textures.len() + 1,
            final(self)@ == (DeviceView {
                textures: old(self)@.textures.push(TextureObjectView { backing, data: None }),
                ..old(self)@
            }),
    {
        let name = self.textures.len() as u32 + 1;
        self.textures.push(TextureObject { backing, data: None });
        proof {
            assert(self@ =~~= DeviceView {
                textures: old(self)@.textures.push(TextureObjectView { backing, data: None }),
                ..old(self)@
            });
        }
        name
    }

    /// Uploads initial contents to `texture`, one byte run per mip level and
    /// face.
    pub fn texture_data(&mut self, texture: u32, data: Vec<Vec<u8>>)
        requires
            1 <= texture <= old(self)@.textures.len(),
        ensures
            final(self)@ == (DeviceView {
                textures: old(self)@.textures.update(
                    texture - 1,
                    TextureObjectView {
                        backing: old(self)@.textures[texture - 1].backing,
                        data: Some(data@.map_values(|level: Vec<u8>| level@)),
                    },
                ),
                ..old(self)@
            }),
    {
        let idx = (texture - 1) as usize;
        let backing = self.textures[idx].backing;
        self.textures.set(idx, TextureObject { backing, data: Some(data) });
        proof {
            assert(self@ =~~= DeviceView {
                textures: old(self)@.textures.update(
                    texture - 1,
                    TextureObjectView {
                        backing: old(self)@.textures[texture - 1].backing,
                        data: Some(data@.map_values(|level: Vec<u8>| level@)),
                    },
                ),
                ..old(self)@
            });
        }
    }

    /// Allocates a fresh renderable surface name.
    pub fn make_surface(&mut self, channel: ChannelType) -> (name: u32)
        requires
            old(self)@.surfaces.len() < 0xFFFF_FFFF,
        ensures
            name as int == old(self)@.surfaces.len() + 1,
            final(self)@ == (DeviceView {
                surfaces: old(self)@.surfaces.push(channel),
                ..old(self)@
            }),
    {
        let name = self.surfaces.len() as u32 + 1;
        self.surfaces.push(channel);
        proof {
            assert(self@ =~~= DeviceView {
                surfaces: old(self)@.surfaces.push(channel),
                ..old(self)@
            });
        }
        name
    }

    /// Allocates a fresh shader name for a stage.
    pub fn add_shader(&mut self, stage: Stage) -> (name: u32)
        requires
            old(self)@.shaders.len() < 0xFFFF_FFFF,
        ensures
            name as int == old(self)@.shaders.len() + 1,
            final(self)@ == (DeviceView {
                shaders: old(self)@.shaders.push(stage),
                ..old(self)@
            }),
    {
        let name = self.shaders.len() as u32 + 1;
        self.shaders.push(stage);
        proof {
            assert(self@ =~~= DeviceView {
                shaders: old(self)@.shaders.push(stage),
                ..old(self)@
            });
        }
        name
    }

    /// Links the ordered shader names into a fresh program.
    pub fn link_program(&mut self, shaders: Vec<u32>) -> (name: u32)
        requires
            old(self)@.programs.len() < 0xFFFF_FFFF,
        ensures
            name as int == old(self)@.programs.len() + 1,
            final(self)@ == (DeviceView {
                programs: old(self)@.programs.push(shaders@),
                ..old(self)@
            }),
    {
        let name = self.programs.len() as u32 + 1;
        self.programs.push(shaders);
        proof {
            assert(self@ =~~= DeviceView {
                programs: old(self)@.programs.push(shaders@),
                ..old(self)@
            });
        }
        name
    }

    /// Allocates a fresh sampler object name.
    pub fn make_sampler(&mut self) -> (name: u32)
        requires
            old(self)@.samplers < 0xFFFF_FFFF,
        ensures
            name as int == old(self)@.samplers + 1,
            final(self)@ == (DeviceView { samplers: (old(self)@.samplers + 1) as u32, ..old(self)@ }),
    {
        self.samplers = self.samplers + 1;
        proof {
            assert(self@ =~~= DeviceView { samplers: (old(self)@.samplers + 1) as u32, ..old(self)@ });
        }
        self.samplers
    }

    /// How many buffer names have been created.
    pub fn buffer_count(&self) -> (n: usize)
        ensures
            n == self@.buffers.len(),
    {
        self.buffers.len()
    }

    /// How many texture names have been created.
    pub fn texture_count(&self) -> (n: usize)
        ensures
            n == self@.textures.len(),
    {
        self.textures.len()
    }

    /// How many surface names have been created.
    pub fn surface_count(&self) -> (n: usize)
        ensures
            n == self@.surfaces.len(),
    {
        self.surfaces.len()
    }

    /// How many programs have been linked.
    pub fn program_count(&self) -> (n: usize)
        ensures
            n == self@.programs.len(),
    {
        self.programs.len()
    }

    /// How many sampler objects have been created.
    pub fn sampler_count(&self) -> (n: u32)
        ensures
            n == self@.samplers,
    {
        self.samplers
    }

    /// The storage a buffer was allocated with, if any yet.
    pub fn buffer_storage_kind(&self, buffer: u32) -> (s: Option<StorageKind>)
        requires
            1 <= buffer <= self@.buffers.len(),
        ensures
            s == self@.buffers[buffer - 1].storage,
    {
        self.buffers[(buffer - 1) as usize].storage
    }

    /// The active mapping of a buffer, if any.
    pub fn buffer_mapped(&self, buffer: u32) -> (m: Option<MapAccess>)
        requires
            1 <= buffer <= self@.buffers.len(),
        ensures
            m == self@.buffers[buffer - 1].mapped,
    {
        self.buffers[(buffer - 1) as usize].mapped
    }

    /// The byte size of a buffer's storage.
    pub fn buffer_size(&self, buffer: u32) -> (n: usize)
        requires
            1 <= buffer <= self@.buffers.len(),
        ensures
            n == self@.buffers[buffer - 1].data.len(),
    {
        self.buffers[(buffer - 1) as usize].data.len()
    }

    /// How a texture's storage was allocated.
    pub fn texture_backing(&self, texture: u32) -> (b: TexBacking)
        requires
            1 <= texture <= self@.textures.len(),
        ensures
            b == self@.textures[texture - 1].backing,
    {
        self.textures[(texture - 1) as usize].backing
    }

    /// Whether initial contents were uploaded to a texture.
    pub fn texture_has_data(&self, texture: u32) -> (b: bool)
        requires
            1 <= texture <= self@.textures.len(),
        ensures
            b == self@.textures[texture - 1].data.is_some(),
    {
        self.textures[(texture - 1) as usize].data.is_some()
    }

    /// The ordered shader names a program was linked from.
    pub fn program_shaders(&self, program: u32) -> (s: &Vec<u32>)
        requires
            1 <= program <= self@.programs.len(),
        ensures
            s@ == self@.programs[program - 1],
    {
        &self.programs[(program - 1) as usize]
    }
}

} // verus!
