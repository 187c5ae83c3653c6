//! The camera binder: CPU-side view state (eye, rotation, projection
//! parameters), the uniform derived from it, and the mirror of what the
//! GPU-side uniform buffer holds. The view-projection matrix itself is
//! floating-point work done by the embedding application each frame; the core
//! records the freshly computed matrix bits, embeds the eye position, and
//! uploads the combined uniform, so staleness between a state change and the
//! next `process_frame` is exactly observable.

use vstd::prelude::*;

use crate::render_pass::Command;
use crate::render_pass::RenderPass;
use crate::vertex::Vector3;
use crate::FloatBits;
use crate::FLOAT_ONE_BITS;
use crate::FLOAT_ZERO_BITS;

verus! {

/// Bit pattern of the single-precision value ninety, the default field of
/// view in degrees.
pub const FLOAT_NINETY_BITS: FloatBits = 0x42B4_0000;

/// Bit pattern of the single-precision value one tenth, the default near
/// plane.
pub const FLOAT_TENTH_BITS: FloatBits = 0x3DCC_CCCD;

/// Bit pattern of the single-precision value one hundred, the default far
/// plane.
pub const FLOAT_HUNDRED_BITS: FloatBits = 0x42C8_0000;

/// How the camera projects: perspective with a field of view in degrees, or
/// orthographic with right, left, top and bottom bounds.
#[derive(Clone, Copy, Debug, PartialEq, Eq, Structural)]
pub enum ProjectionType {
    Perspective(FloatBits),
    Orthographic(FloatBits, FloatBits, FloatBits, FloatBits),
}

/// The sixteen entries of the identity matrix, as bit patterns.
pub open spec fn identity_matrix_bits() -> Seq<FloatBits> {
    Seq::new(
        16,
        |i: int|
            if i == 0 || i == 5 || i == 10 || i == 15 {
                FLOAT_ONE_BITS
            } else {
                FLOAT_ZERO_BITS
            },
    )
}

/// The camera uniform as laid out for the GPU: the view-projection matrix and
/// the eye position padded to four components.
#[derive(Clone, Copy, Debug, PartialEq, Eq)]
pub struct CamUniform {
    pub mat: [FloatBits; 16],
    pub pos: [FloatBits; 4],
}

impl CamUniform {
    /// The identity uniform a fresh camera buffer holds before the first
    /// frame.
    pub fn new() -> (r: CamUniform)
        ensures
            r.mat@ == identity_matrix_bits(),
            r.pos@ == Seq::new(4, |i: int| FLOAT_ZERO_BITS),
    {
        let r = CamUniform {
            mat: [
                FLOAT_ONE_BITS,
                FLOAT_ZERO_BITS,
                FLOAT_ZERO_BITS,
                FLOAT_ZERO_BITS,
                FLOAT_ZERO_BITS,
                FLOAT_ONE_BITS,
                FLOAT_ZERO_BITS,
                FLOAT_ZERO_BITS,
                FLOAT_ZERO_BITS,
                FLOAT_ZERO_BITS,
                FLOAT_ONE_BITS,
                FLOAT_ZERO_BITS,
                FLOAT_ZERO_BITS,
                FLOAT_ZERO_BITS,
                FLOAT_ZERO_BITS,
                FLOAT_ONE_BITS,
            ],
            pos: [FLOAT_ZERO_BITS;4],
        };
        proof {
            assert(r.mat@ =~= identity_matrix_bits());
            assert(r.pos@ =~= Seq::new(4, |i: int| FLOAT_ZERO_BITS));
        }
        r
    }

    /// Replaces the matrix and embeds the eye position, zero-padded.
    pub fn update_proj(&mut self, mat: [FloatBits; 16], pos: Vector3)
        ensures
            final(self).mat == mat,
            final(self).pos@ == seq![pos.x, pos.y, pos.z, FLOAT_ZERO_BITS],
    {
        self.mat = mat;
        self.pos = [pos.x, pos.y, pos.z, FLOAT_ZERO_BITS];
        proof {
            assert(self.pos@ =~= seq![pos.x, pos.y, pos.z, FLOAT_ZERO_BITS]);
        }
    }
}

/// The camera: public view state mutated by input code, the staged uniform,
/// and the mirror of the GPU-side uniform buffer.
pub struct ProspectCamera {
    pub eye: Vector3,
    pub znear: FloatBits,
    pub zfar: FloatBits,
    pub projection_type: ProjectionType,
    pub rotation: Vector3,
    uniform: CamUniform,
    uploaded: CamUniform,
    buffer: u64,
    bind_group: u64,
    layout: u64,
}

impl ProspectCamera {
    /// The eye position.
    pub closed spec fn spec_eye(&self) -> Vector3 {
        self.eye
    }

    /// The rotation, pitch, yaw and roll.
    pub closed spec fn spec_rotation(&self) -> Vector3 {
        self.rotation
    }

    /// The near plane.
    pub closed spec fn spec_znear(&self) -> FloatBits {
        self.znear
    }

    /// The far plane.
    pub closed spec fn spec_zfar(&self) -> FloatBits {
        self.zfar
    }

    /// The projection variant and its parameters.
    pub closed spec fn spec_projection_type(&self) -> ProjectionType {
        self.projection_type
    }

    /// The staged CPU-side uniform.
    pub closed spec fn spec_uniform(&self) -> CamUniform {
        self.uniform
    }

    /// What the GPU-side uniform buffer holds.
    pub closed spec fn spec_gpu_uniform(&self) -> CamUniform {
        self.uploaded
    }

    /// The uniform buffer's resource id.
    pub closed spec fn spec_buffer(&self) -> u64 {
        self.buffer
    }

    /// The camera bind group's resource id.
    pub closed spec fn spec_bind_group(&self) -> u64 {
        self.bind_group
    }

    /// The camera bind-group layout's resource id.
    pub closed spec fn spec_layout(&self) -> u64 {
        self.layout
    }

    /// A fresh camera over the given GPU resources: eye at the origin, no
    /// rotation, a ninety-degree perspective projection, near plane one
    /// tenth, far plane one hundred, and the identity uniform staged and
    /// uploaded.
    pub fn new(buffer: u64, bind_group: u64, layout: u64) -> (r: ProspectCamera)
        ensures
            r.spec_eye() == (Vector3 {
                x: FLOAT_ZERO_BITS,
                y: FLOAT_ZERO_BITS,
                z: FLOAT_ZERO_BITS,
            }),
            r.spec_rotation() == (Vector3 {
                x: FLOAT_ZERO_BITS,
                y: FLOAT_ZERO_BITS,
                z: FLOAT_ZERO_BITS,
            }),
            r.spec_projection_type() == ProjectionType::Perspective(FLOAT_NINETY_BITS),
            r.spec_znear() == FLOAT_TENTH_BITS,
            r.spec_zfar() == FLOAT_HUNDRED_BITS,
            r.spec_uniform().mat@ == identity_matrix_bits(),
            r.spec_uniform().pos@ == Seq::new(4, |i: int| FLOAT_ZERO_BITS),
            r.spec_gpu_uniform() == r.spec_uniform(),
            r.spec_buffer() == buffer,
            r.spec_bind_group() == bind_group,
            r.spec_layout() == layout,
    {
        let uniform = CamUniform::new();
        ProspectCamera {
            eye: Vector3::zero(),
            projection_type: ProjectionType::Perspective(FLOAT_NINETY_BITS),
            znear: FLOAT_TENTH_BITS,
            zfar: FLOAT_HUNDRED_BITS,
            uniform,
            uploaded: uniform,
            rotation: Vector3::zero(),
            buffer,
            bind_group,
            layout,
        }
    }

    /// Moves the eye. Neither the staged uniform nor the GPU-side mirror
    /// moves with it: both stay exactly as they were until the next
    /// `process_frame`.
    pub fn set_eye(&mut self, eye: Vector3)
        ensures
            final(self).spec_eye() == eye,
            final(self).spec_rotation() == old(self).spec_rotation(),
            final(self).spec_znear() == old(self).spec_znear(),
            final(self).spec_zfar() == old(self).spec_zfar(),
            final(self).spec_projection_type() == old(self).spec_projection_type(),
            final(self).spec_uniform() == old(self).spec_uniform(),
            final(self).spec_gpu_uniform() == old(self).spec_gpu_uniform(),
            final(self).spec_buffer() == old(self).spec_buffer(),
            final(self).spec_bind_group() == old(self).spec_bind_group(),
            final(self).spec_layout() == old(self).spec_layout(),
    {
        self.eye = eye;
    }

    /// Turns the camera. As with `set_eye`, the uniforms stay stale until the
    /// next `process_frame`.
    pub fn set_rotation(&mut self, rotation: Vector3)
        ensures
            final(self).spec_rotation() == rotation,
            final(self).spec_eye() == old(self).spec_eye(),
            final(self).spec_znear() == old(self).spec_znear(),
            final(self).spec_zfar() == old(self).spec_zfar(),
            final(self).spec_projection_type() == old(self).spec_projection_type(),
            final(self).spec_uniform() == old(self).spec_uniform(),
            final(self).spec_gpu_uniform() == old(self).spec_gpu_uniform(),
            final(self).spec_buffer() == old(self).spec_buffer(),
            final(self).spec_bind_group() == old(self).spec_bind_group(),
            final(self).spec_layout() == old(self).spec_layout(),
    {
        self.rotation = rotation;
    }

    /// Advances one frame: stores the rotation as wrapped by the embedding
    /// application, stages the freshly computed view-projection matrix with
    /// the current eye position, and uploads the staged uniform to the
    /// GPU-side buffer mirror.
    pub fn process_frame(&mut self, rotation: Vector3, matrix: [FloatBits; 16])
        ensures
            final(self).spec_eye() == old(self).spec_eye(),
            final(self).spec_znear() == old(self).spec_znear(),
            final(self).spec_zfar() == old(self).spec_zfar(),
            final(self).spec_projection_type() == old(self).spec_projection_type(),
            final(self).spec_rotation() == rotation,
            final(self).spec_uniform().mat == matrix,
            final(self).spec_uniform().pos@ == seq![
                old(self).spec_eye().x,
                old(self).spec_eye().y,
                old(self).spec_eye().z,
                FLOAT_ZERO_BITS,
            ],
            final(self).spec_gpu_uniform() == final(self).spec_uniform(),
            final(self).spec_buffer() == old(self).spec_buffer(),
            final(self).spec_bind_group() == old(self).spec_bind_group(),
            final(self).spec_layout() == old(self).spec_layout(),
    {
        self.rotation = rotation;
        let eye = self.eye;
        self.uniform.update_proj(matrix, eye);
        self.uploaded = self.uniform;
    }

    /// The bind-group layout's resource id, needed at pipeline-construction
    /// time.
    pub fn get_layout(&self) -> (r: u64)
        ensures
            r == self.spec_layout(),
    {
        self.layout
    }

    /// The uniform buffer's resource id.
    pub fn buffer_id(&self) -> (r: u64)
        ensures
            r == self.spec_buffer(),
    {
        self.buffer
    }

    /// The staged CPU-side uniform.
    pub fn uniform(&self) -> (r: CamUniform)
        ensures
            r == self.spec_uniform(),
    {
        self.uniform
    }

    /// What the GPU-side uniform buffer holds.
    pub fn gpu_uniform(&self) -> (r: CamUniform)
        ensures
            r == self.spec_gpu_uniform(),
    {
        self.uploaded
    }

    /// Records attaching the camera's bind group at the given slot.
    pub fn bind(&self, render_pass: &mut RenderPass, binding: u32)
        ensures
            final(render_pass)@ == old(render_pass)@.push(
                (Command::SetBindGroup {
                    slot: binding,
                    group: self.spec_bind_group(),
                    offsets: Seq::<u32>::empty(),
                }),
            ),
    {
        let offsets: &[u32] = &[];
        render_pass.set_bind_group(binding, self.bind_group, offsets);
        proof {
            assert(offsets@ =~= Seq::<u32>::empty());
        }
    }
}

} // verus!
