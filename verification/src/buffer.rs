//! Buffer descriptors and the storage-strategy decision: which native
//! allocation path a buffer takes, derived from the queried capabilities and
//! the requested usage class.

use vstd::prelude::*;

verus! {

/// What a buffer is bound as when it is used.
#[derive(Clone, Copy, Debug, PartialEq, Eq, Structural)]
pub enum BufferRole {
    Vertex,
    Index,
    Uniform,
}

/// Host access mode of a mapping.
#[derive(Clone, Copy, Debug, PartialEq, Eq, Structural)]
pub enum MapAccess {
    Readable,
    Writable,
    RW,
}

/// Expected update frequency of a resource.
#[derive(Clone, Copy, Debug, PartialEq, Eq, Structural)]
pub enum Usage {
    GpuOnly,
    Const,
    Dynamic,
    CpuOnly(MapAccess),
}

/// Bind flags a resource is created with.
#[derive(Clone, Copy, Debug, PartialEq, Eq, Structural)]
pub struct Bind {
    pub render_target: bool,
    pub depth_stencil: bool,
    pub shader_resource: bool,
    pub unordered_access: bool,
}

impl Bind {
    /// No bind flags at all.
    pub fn none() -> (b: Bind)
        ensures
            b == (Bind {
                render_target: false,
                depth_stencil: false,
                shader_resource: false,
                unordered_access: false,
            }),
    {
        Bind {
            render_target: false,
            depth_stencil: false,
            shader_resource: false,
            unordered_access: false,
        }
    }
}

/// Everything a buffer is created from.
#[derive(Clone, Copy, Debug, PartialEq, Eq, Structural)]
pub struct BufferInfo {
    pub role: BufferRole,
    pub usage: Usage,
    pub bind: Bind,
    pub size: usize,
    pub stride: usize,
}

/// The native binding point a buffer role maps to.
#[derive(Clone, Copy, Debug, PartialEq, Eq, Structural)]
pub enum BindTarget {
    Array,
    ElementArray,
    Uniform,
}

pub open spec fn spec_role_to_target(role: BufferRole) -> BindTarget {
    match role {
        BufferRole::Vertex => BindTarget::Array,
        BufferRole::Index => BindTarget::ElementArray,
        BufferRole::Uniform => BindTarget::Uniform,
    }
}

/// Vertex data binds to the array target, index data to the element-array
/// target, uniform data to the uniform target.
pub fn role_to_target(role: BufferRole) -> (t: BindTarget)
    ensures
        t == spec_role_to_target(role),
{
    match role {
        BufferRole::Vertex => BindTarget::Array,
        BufferRole::Index => BindTarget::ElementArray,
        BufferRole::Uniform => BindTarget::Uniform,
    }
}

/// Usage hint handed to a mutable-storage allocation.
#[derive(Clone, Copy, Debug, PartialEq, Eq, Structural)]
pub enum UsageHint {
    StaticDraw,
    DynamicDraw,
    StreamDraw,
}

/// How a buffer's native storage was allocated.
#[derive(Clone, Copy, Debug, PartialEq, Eq, Structural)]
pub enum StorageKind {
    /// Immutable storage from the buffer-storage extension; `host_writable`
    /// records whether the map-write and dynamic-storage bits were set.
    Immutable { host_writable: bool },
    /// Classic mutable storage with a usage hint.
    Mutable { hint: UsageHint },
}

pub open spec fn spec_storage_plan(buffer_storage_supported: bool, usage: Usage) -> StorageKind {
    if buffer_storage_supported {
        StorageKind::Immutable { host_writable: !(usage matches Usage::GpuOnly) }
    } else {
        StorageKind::Mutable {
            hint: match usage {
                Usage::GpuOnly => UsageHint::StaticDraw,
                Usage::Const => UsageHint::StaticDraw,
                Usage::Dynamic => UsageHint::DynamicDraw,
                Usage::CpuOnly(_) => UsageHint::StreamDraw,
            },
        }
    }
}

/// The pure storage decision: with the buffer-storage extension present the
/// allocation is immutable and host-writable unless the buffer is GPU-only;
/// without it the allocation is mutable with a hint derived from the usage
/// class.
pub fn storage_plan(buffer_storage_supported: bool, usage: Usage) -> (p: StorageKind)
    ensures
        p == spec_storage_plan(buffer_storage_supported, usage),
{
    if buffer_storage_supported {
        let host_writable = match usage {
            Usage::GpuOnly => false,
            _ => true,
        };
        StorageKind::Immutable { host_writable }
    } else {
        let hint = match usage {
            Usage::GpuOnly => UsageHint::StaticDraw,
            Usage::Const => UsageHint::StaticDraw,
            Usage::Dynamic => UsageHint::DynamicDraw,
            Usage::CpuOnly(_) => UsageHint::StreamDraw,
        };
        StorageKind::Mutable { hint }
    }
}

/// Buffer creation errors.
#[derive(Clone, Copy, Debug, PartialEq, Eq, Structural)]
pub enum BufferError {
    /// The requested role needs a capability the context does not have.
    Unsupported,
}

} // verus!
