//! Per-object spatial state: position, Euler rotation in degrees and one
//! uniform scale factor, plus the GPU-friendly uniform layout its matrix is
//! uploaded in. The matrix entries themselves are floating-point work done by
//! the embedding application; the core carries them as bit patterns.

use vstd::prelude::*;

use crate::vertex::Vector3;
use crate::FloatBits;
use crate::FLOAT_ONE_BITS;
use crate::FLOAT_ZERO_BITS;

verus! {

/// The uniform-buffer layout of one model matrix: sixteen single-precision
/// entries, stored transposed for the GPU's row/column convention.
#[derive(Clone, Copy, Debug, PartialEq, Eq)]
pub struct TransformUniform {
    pub model_matrix: [FloatBits; 16],
}

impl TransformUniform {
    /// The zero-initialized uniform a fresh transform buffer holds before the
    /// first upload.
    pub fn zeroed() -> (r: TransformUniform)
        ensures
            r.model_matrix@ == Seq::new(16, |i: int| FLOAT_ZERO_BITS),
    {
        let r = TransformUniform { model_matrix: [FLOAT_ZERO_BITS;16] };
        proof {
            assert(r.model_matrix@ =~= Seq::new(16, |i: int| FLOAT_ZERO_BITS));
        }
        r
    }
}

impl Default for TransformUniform {
    fn default() -> (r: TransformUniform)
        ensures
            r.model_matrix@ == Seq::new(16, |i: int| FLOAT_ZERO_BITS),
    {
        TransformUniform::zeroed()
    }
}

/// A mutable spatial transform: position, Euler rotation in degrees and one
/// uniform scalar scale (non-uniform scaling is deliberately unsupported).
#[derive(Clone, Copy, Debug, PartialEq, Eq, Structural)]
pub struct Transform {
    pub position: Vector3,
    pub rotation: Vector3,
    pub scale: FloatBits,
}

impl Transform {
    /// The identity transform: zero position and rotation, scale one.
    pub fn new() -> (r: Transform)
        ensures
            r.position == (Vector3 {
                x: FLOAT_ZERO_BITS,
                y: FLOAT_ZERO_BITS,
                z: FLOAT_ZERO_BITS,
            }),
            r.rotation == (Vector3 {
                x: FLOAT_ZERO_BITS,
                y: FLOAT_ZERO_BITS,
                z: FLOAT_ZERO_BITS,
            }),
            r.scale == FLOAT_ONE_BITS,
    {
        Transform { position: Vector3::zero(), rotation: Vector3::zero(), scale: FLOAT_ONE_BITS }
    }
}

} // verus!
