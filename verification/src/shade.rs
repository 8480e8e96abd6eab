//! Shader stages and the fixed shapes a program can be linked from.

use vstd::prelude::*;

verus! {

/// A programmable pipeline stage.
#[derive(Clone, Copy, Debug, PartialEq, Eq, Structural)]
pub enum Stage {
    Vertex,
    Geometry,
    Hull,
    Domain,
    Pixel,
}

/// A compiled shader: the native name together with its stage.
#[derive(Clone, Copy, Debug, PartialEq, Eq, Structural)]
pub struct Shader {
    pub name: u32,
    pub stage: Stage,
}

/// A linked program handle.
#[derive(Clone, Copy, Debug, PartialEq, Eq, Structural)]
pub struct Program {
    pub name: u32,
}

/// The diagnostic a native linker reports when it refuses a program.
pub type CreateProgramError = String;

/// The three shapes a program can be linked from. The shape dictates exactly
/// which stages participate and in what order.
#[derive(Clone, Copy, Debug, PartialEq, Eq, Structural)]
pub enum ShaderSet {
    /// Vertex and pixel stage.
    Simple(Shader, Shader),
    /// Vertex, geometry and pixel stage.
    Geometry(Shader, Shader, Shader),
    /// Vertex, hull, domain and pixel stage.
    Tessellated(Shader, Shader, Shader, Shader),
}

/// The ordered native shader names a set hands to the link step: no stage is
/// dropped and none is reordered.
pub open spec fn spec_stage_names(set: ShaderSet) -> Seq<u32> {
    match set {
        ShaderSet::Simple(vs, ps) => seq![vs.name, ps.name],
        ShaderSet::Geometry(vs, gs, ps) => seq![vs.name, gs.name, ps.name],
        ShaderSet::Tessellated(vs, hs, ds, ps) => seq![vs.name, hs.name, ds.name, ps.name],
    }
}

} // verus!
