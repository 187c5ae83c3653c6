//! A verified model of a small real-time rendering core: a shader-resource
//! registry handing out stable handles to pipelines and bind groups, meshes
//! that draw themselves into a recorded command stream through that registry,
//! and uniform binders (camera, point light, per-model transform) that mirror
//! what the GPU-side uniform buffers hold.
//!
//! GPU objects themselves are referred to by plain integer resource ids; the
//! embedding application owns the actual device objects and replays recorded
//! command streams against them. Floating-point payloads (vertex attributes,
//! matrix entries) are carried as IEEE 754 bit patterns, so the core never
//! computes with floats and every piece of bookkeeping can be verified.

use vstd::prelude::*;

pub mod material;
pub mod mesh;
pub mod model;
pub mod name_table;
pub mod prospect_app;
pub mod prospect_camera;
pub mod prospect_light;
pub mod prospect_shader_manager;
pub mod prospect_shape;
pub mod prospect_transform;
pub mod render_pass;
pub mod render_pipeline_index;
pub mod surface;
pub mod text;
pub mod vertex;

verus! {

/// Bit pattern of an IEEE 754 single-precision value, carried as a plain
/// integer so that the verified core never computes with floats itself.
pub type FloatBits = u32;

/// Bit pattern of the single-precision value one.
pub const FLOAT_ONE_BITS: FloatBits = 0x3F80_0000;

/// Bit pattern of the single-precision value zero.
pub const FLOAT_ZERO_BITS: FloatBits = 0x0000_0000;

} // verus!
