//! The point-light binder: position and colour, and the mirror of the padded
//! uniform the GPU-side buffer holds. Uniform blocks require sixteen-byte
//! alignment per field group, so the layout carries two padding words that
//! never hold data.

use vstd::prelude::*;

use crate::prospect_shader_manager::ProspectBindGroupIndex;
use crate::prospect_shader_manager::ProspectShaderManager;
use crate::text::decimal_of;
use crate::vertex::Vector3;
use crate::FloatBits;
use crate::FLOAT_ONE_BITS;
use crate::FLOAT_ZERO_BITS;

verus! {

/// The uniform-buffer layout of one point light: position and colour, each
/// padded to sixteen bytes.
#[derive(Clone, Copy, Debug, PartialEq, Eq)]
pub struct LightUniform {
    pub position: [FloatBits; 3],
    pub padding0: u32,
    pub color: [FloatBits; 3],
    pub padding1: u32,
}

/// Whether a uniform value is exactly the padded layout of the given
/// position and colour.
pub open spec fn light_uniform_matches(u: LightUniform, position: Vector3, colour: Vector3) -> bool {
    u.position@ == seq![position.x, position.y, position.z] && u.color@ == seq![
        colour.x,
        colour.y,
        colour.z,
    ] && u.padding0 == 0 && u.padding1 == 0
}

impl Default for LightUniform {
    fn default() -> (r: LightUniform)
        ensures
            light_uniform_matches(
                r,
                (Vector3 { x: FLOAT_ZERO_BITS, y: FLOAT_ZERO_BITS, z: FLOAT_ZERO_BITS }),
                (Vector3 { x: FLOAT_ZERO_BITS, y: FLOAT_ZERO_BITS, z: FLOAT_ZERO_BITS }),
            ),
    {
        let r = LightUniform {
            position: [FLOAT_ZERO_BITS;3],
            padding0: 0,
            color: [FLOAT_ZERO_BITS;3],
            padding1: 0,
        };
        proof {
            assert(r.position@ =~= seq![FLOAT_ZERO_BITS, FLOAT_ZERO_BITS, FLOAT_ZERO_BITS]);
            assert(r.color@ =~= seq![FLOAT_ZERO_BITS, FLOAT_ZERO_BITS, FLOAT_ZERO_BITS]);
        }
        r
    }
}

/// One point light: public position and colour mutated by simulation code,
/// its bind-group handle in the registry, and the mirror of the GPU-side
/// uniform buffer.
pub struct ProspectPointLight {
    pub colour: Vector3,
    pub position: Vector3,
    index: ProspectBindGroupIndex,
    buffer: u64,
    layout: u64,
    uploaded: LightUniform,
}

impl ProspectPointLight {
    /// The light's position.
    pub closed spec fn spec_position(&self) -> Vector3 {
        self.position
    }

    /// The light's colour.
    pub closed spec fn spec_colour(&self) -> Vector3 {
        self.colour
    }

    /// The handle under which the light's bind group is registered.
    pub closed spec fn spec_index(&self) -> Seq<char> {
        self.index@
    }

    /// The uniform buffer's resource id.
    pub closed spec fn spec_buffer(&self) -> u64 {
        self.buffer
    }

    /// The bind-group layout's resource id.
    pub closed spec fn spec_layout(&self) -> u64 {
        self.layout
    }

    /// What the GPU-side uniform buffer holds.
    pub closed spec fn spec_gpu_uniform(&self) -> LightUniform {
        self.uploaded
    }

    /// A fresh white light at the origin over the given GPU resources. Its
    /// pre-built bind group is registered in the registry under a
    /// registry-chosen name, and the zeroed uniform is what the buffer holds
    /// until the first `process_frame`.
    pub fn new(
        manager: &mut ProspectShaderManager,
        bind_group: u64,
        buffer: u64,
        layout: u64,
    ) -> (r: ProspectPointLight)
        requires
            old(manager).wf(),
            old(manager).auto_counter() < u64::MAX,
        ensures
            final(manager).wf(),
            final(manager).pipelines_view() == old(manager).pipelines_view(),
            final(manager).auto_counter() == old(manager).auto_counter() + 1,
            final(manager).bind_groups_view() == old(manager).bind_groups_view().insert(
                decimal_of(old(manager).auto_counter() as nat),
                bind_group,
            ),
            r.spec_index() == decimal_of(old(manager).auto_counter() as nat),
            r.spec_colour() == (Vector3 {
                x: FLOAT_ONE_BITS,
                y: FLOAT_ONE_BITS,
                z: FLOAT_ONE_BITS,
            }),
            r.spec_position() == (Vector3 {
                x: FLOAT_ZERO_BITS,
                y: FLOAT_ZERO_BITS,
                z: FLOAT_ZERO_BITS,
            }),
            light_uniform_matches(
                r.spec_gpu_uniform(),
                (Vector3 { x: FLOAT_ZERO_BITS, y: FLOAT_ZERO_BITS, z: FLOAT_ZERO_BITS }),
                (Vector3 { x: FLOAT_ZERO_BITS, y: FLOAT_ZERO_BITS, z: FLOAT_ZERO_BITS }),
            ),
            r.spec_buffer() == buffer,
            r.spec_layout() == layout,
    {
        let index = manager.auto_add_bind_group(bind_group);
        ProspectPointLight {
            colour: Vector3::new3(FLOAT_ONE_BITS, FLOAT_ONE_BITS, FLOAT_ONE_BITS),
            position: Vector3::zero(),
            index,
            buffer,
            layout,
            uploaded: LightUniform::default(),
        }
    }

    /// A copy of the light's bind-group handle.
    pub fn copy_index(&self) -> (r: ProspectBindGroupIndex)
        ensures
            r@ == self.spec_index(),
    {
        self.index.clone()
    }

    /// The light's bind-group handle.
    pub fn get_bind_index(&self) -> (r: &ProspectBindGroupIndex)
        ensures
            r@ == self.spec_index(),
    {
        &self.index
    }

    /// The padded uniform for the light's current position and colour.
    pub fn generate_data(&self) -> (r: LightUniform)
        ensures
            light_uniform_matches(r, self.spec_position(), self.spec_colour()),
    {
        let r = LightUniform {
            position: [self.position.x, self.position.y, self.position.z],
            padding0: 0,
            color: [self.colour.x, self.colour.y, self.colour.z],
            padding1: 0,
        };
        proof {
            assert(r.position@ =~= seq![self.position.x, self.position.y, self.position.z]);
            assert(r.color@ =~= seq![self.colour.x, self.colour.y, self.colour.z]);
        }
        r
    }

    /// Moves the light. The GPU-side mirror stays as it was until the next
    /// `process_frame`.
    pub fn set_position(&mut self, position: Vector3)
        ensures
            final(self).spec_position() == position,
            final(self).spec_colour() == old(self).spec_colour(),
            final(self).spec_index() == old(self).spec_index(),
            final(self).spec_buffer() == old(self).spec_buffer(),
            final(self).spec_layout() == old(self).spec_layout(),
            final(self).spec_gpu_uniform() == old(self).spec_gpu_uniform(),
    {
        self.position = position;
    }

    /// Recolours the light. The GPU-side mirror stays as it was until the
    /// next `process_frame`.
    pub fn set_colour(&mut self, colour: Vector3)
        ensures
            final(self).spec_colour() == colour,
            final(self).spec_position() == old(self).spec_position(),
            final(self).spec_index() == old(self).spec_index(),
            final(self).spec_buffer() == old(self).spec_buffer(),
            final(self).spec_layout() == old(self).spec_layout(),
            final(self).spec_gpu_uniform() == old(self).spec_gpu_uniform(),
    {
        self.colour = colour;
    }

    /// Re-uploads the padded uniform for the current position and colour to
    /// the GPU-side buffer mirror.
    pub fn process_frame(&mut self)
        ensures
            final(self).spec_position() == old(self).spec_position(),
            final(self).spec_colour() == old(self).spec_colour(),
            final(self).spec_index() == old(self).spec_index(),
            final(self).spec_buffer() == old(self).spec_buffer(),
            final(self).spec_layout() == old(self).spec_layout(),
            light_uniform_matches(
                final(self).spec_gpu_uniform(),
                old(self).spec_position(),
                old(self).spec_colour(),
            ),
    {
        let data = self.generate_data();
        self.uploaded = data;
    }

    /// The bind-group layout's resource id, needed at pipeline-construction
    /// time.
    pub fn get_layout(&self) -> (r: u64)
        ensures
            r == self.spec_layout(),
    {
        self.layout
    }

    /// The uniform buffer's resource id.
    pub fn buffer_id(&self) -> (r: u64)
        ensures
            r == self.spec_buffer(),
    {
        self.buffer
    }

    /// What the GPU-side uniform buffer holds.
    pub fn gpu_uniform(&self) -> (r: LightUniform)
        ensures
            r == self.spec_gpu_uniform(),
    {
        self.uploaded
    }
}

} // verus!
