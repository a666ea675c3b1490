//! GPU-rendered polylines for a host game engine.
//!
//! The crate models the data an application hands to the renderer: an ordered
//! sequence of 3D points drawn as a connected line strip, and a material
//! (width and color) that styles it. Everything the renderer consumes is
//! produced here as plain values — segment counts and little-endian byte
//! buffers — with contracts that pin the exact bytes down. The host-engine
//! plugin shim that uploads those buffers and registers the draw calls lives
//! outside the library.

use vstd::prelude::*;

pub mod material;
pub mod polyline;

pub use material::Color;
pub use material::PolylineMaterial;
pub use polyline::Polyline;
pub use polyline::Vertex;

verus! {

/// Fixed asset id under which the fragment shader is registered with the
/// host engine's asset store.
pub const FRAG_SHADER_ID: u64 = 12823766040132746065;

/// Fixed asset id under which the vertex shader is registered with the
/// host engine's asset store.
pub const VERT_SHADER_ID: u64 = 10060193527938109963;

/// The two shader ids are distinct, so registering the vertex shader can
/// never overwrite the fragment shader in the asset store, nor the other
/// way round.
pub proof fn lemma_shader_ids_distinct()
    ensures
        FRAG_SHADER_ID != VERT_SHADER_ID,
{
}

/// The pipeline stage a shader program runs at.
#[derive(Clone, Copy, Debug, PartialEq, Eq, Structural)]
pub enum ShaderStage {
    Vertex,
    Fragment,
}

/// One entry of the plugin's registration table: the fixed asset id a
/// shader is stored under, and the stage it runs at.
#[derive(Clone, Copy, Debug, PartialEq, Eq, Structural)]
pub struct ShaderRegistration {
    pub id: u64,
    pub stage: ShaderStage,
}

/// The registration table the plugin walks at startup: the fragment shader
/// first, then the vertex shader, each under its fixed id. The contract
/// pins the whole table, so every walk of it registers the same two
/// shaders, in the same order, under the same two distinct ids.
pub fn shader_registrations() -> (r: Vec<ShaderRegistration>)
    ensures
        r@.len() == 2,
        r@[0] == (ShaderRegistration { id: FRAG_SHADER_ID, stage: ShaderStage::Fragment }),
        r@[1] == (ShaderRegistration { id: VERT_SHADER_ID, stage: ShaderStage::Vertex }),
        r@[0].id != r@[1].id,
{
    let mut r: Vec<ShaderRegistration> = Vec::new();
    r.push(ShaderRegistration { id: FRAG_SHADER_ID, stage: ShaderStage::Fragment });
    r.push(ShaderRegistration { id: VERT_SHADER_ID, stage: ShaderStage::Vertex });
    r
}

} // verus!
