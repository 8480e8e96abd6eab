//! A backend-neutral GPU resource factory over a modeled native context.
//!
//! Descriptors for buffers, textures, pipeline state, views and samplers are
//! validated against the queried capabilities of a shared device context and
//! turned into native objects. The native side is an in-memory model
//! ([`device`]) that tracks allocated names and storage contents exactly, so
//! every capability-branching decision and every mapping operation is
//! specified and proved against it.

use vstd::prelude::*;

pub mod buffer;
pub mod device;
pub mod factory;
pub mod pso;
pub mod shade;
pub mod state;
pub mod texture;

verus! {

/// A native buffer name.
pub type Buffer = u32;

/// A created image object: sampled textures keep mip and layer addressing,
/// surfaces are flat renderable memory that cannot be sampled.
#[derive(Clone, Copy, Debug, PartialEq, Eq, Structural)]
pub enum NewTexture {
    Surface(u32),
    Texture(u32),
}

/// A derived view that exposes an object to shaders.
#[derive(Clone, Copy, Debug, PartialEq, Eq)]
pub enum ResourceView {
    /// A texture object backed by a buffer's storage; the view owns the
    /// texture name it created.
    Buffer { object: u32 },
    /// A plain view onto an existing sampled texture.
    Texture { object: u32, kind: crate::texture::Kind },
}

/// A derived view that exposes an object as a render or depth-stencil target,
/// pinned to one mip level and optionally one array layer.
#[derive(Clone, Copy, Debug, PartialEq, Eq, Structural)]
pub enum TargetView {
    Surface(u32),
    Texture(u32, u8),
    TextureLayer(u32, u8, u16),
}

} // verus!
