//! The per-model transform binder: couples a mutable spatial transform to a
//! dedicated uniform buffer and bind group, and drives a mesh's draw once the
//! freshly computed model matrix is uploaded. The matrix entries are
//! floating-point work done by the embedding application from the public
//! transform; the binder records them, uploads the uniform mirror, binds the
//! transform bind group, and delegates to the mesh.

use vstd::prelude::*;

use crate::mesh::Meshable;
use crate::prospect_camera::ProspectCamera;
use crate::prospect_shader_manager::ProspectBindGroupIndex;
use crate::prospect_shader_manager::ProspectShaderManager;
use crate::prospect_transform::Transform;
use crate::prospect_transform::TransformUniform;
use crate::render_pass::Command;
use crate::render_pass::RenderPass;
use crate::text::decimal_of;
use crate::vertex::Vector3;
use crate::FLOAT_ONE_BITS;
use crate::FLOAT_ZERO_BITS;

verus! {

/// The conventional slot the transform bind group is attached at; camera,
/// texture and light take the slots below it.
pub const TRANSFORM_BIND_SLOT: u32 = 3;

/// A drawable object: a spatial transform bound to its own uniform buffer and
/// bind group.
pub struct Model3D {
    pub transform: Transform,
    matrix_buffer: u64,
    bind_group: ProspectBindGroupIndex,
    uploaded: TransformUniform,
}

impl Model3D {
    /// The model's spatial transform.
    pub closed spec fn spec_transform(&self) -> Transform {
        self.transform
    }

    /// The transform uniform buffer's resource id.
    pub closed spec fn spec_matrix_buffer(&self) -> u64 {
        self.matrix_buffer
    }

    /// The name under which the transform bind group is registered.
    pub closed spec fn spec_bind_index(&self) -> Seq<char> {
        self.bind_group@
    }

    /// What the GPU-side transform uniform buffer holds.
    pub closed spec fn spec_gpu_uniform(&self) -> TransformUniform {
        self.uploaded
    }

    /// Exactly the command binding this model's transform bind group at the
    /// given slot records, when the handle resolves; no command when it
    /// dangles.
    pub open spec fn transform_bind_commands(
        &self,
        registry: &ProspectShaderManager,
        slot: u32,
    ) -> Seq<Command> {
        if registry.bind_groups_view().contains_key(self.spec_bind_index()) {
            seq![
                (Command::SetBindGroup {
                    slot,
                    group: registry.bind_groups_view()[self.spec_bind_index()],
                    offsets: Seq::<u32>::empty(),
                }),
            ]
        } else {
            Seq::<Command>::empty()
        }
    }

    /// A fresh model with the identity transform over the given GPU
    /// resources: a zero-initialized transform uniform buffer, and its
    /// pre-built bind group registered under a registry-chosen name.
    pub fn new(
        manager: &mut ProspectShaderManager,
        transform_bind_group: u64,
        matrix_buffer: u64,
    ) -> (r: Model3D)
        requires
            old(manager).wf(),
            old(manager).auto_counter() < u64::MAX,
        ensures
            final(manager).wf(),
            final(manager).pipelines_view() == old(manager).pipelines_view(),
            final(manager).auto_counter() == old(manager).auto_counter() + 1,
            final(manager).bind_groups_view() == old(manager).bind_groups_view().insert(
                decimal_of(old(manager).auto_counter() as nat),
                transform_bind_group,
            ),
            r.spec_bind_index() == decimal_of(old(manager).auto_counter() as nat),
            r.spec_transform() == (Transform {
                position: Vector3 { x: FLOAT_ZERO_BITS, y: FLOAT_ZERO_BITS, z: FLOAT_ZERO_BITS },
                rotation: Vector3 { x: FLOAT_ZERO_BITS, y: FLOAT_ZERO_BITS, z: FLOAT_ZERO_BITS },
                scale: FLOAT_ONE_BITS,
            }),
            r.spec_gpu_uniform().model_matrix@ == Seq::new(16, |i: int| FLOAT_ZERO_BITS),
            r.spec_matrix_buffer() == matrix_buffer,
    {
        let bind_group = manager.auto_add_bind_group(transform_bind_group);
        Model3D {
            transform: Transform::new(),
            matrix_buffer,
            bind_group,
            uploaded: TransformUniform::zeroed(),
        }
    }

    /// The handle of the model's transform bind group.
    pub fn bind_index(&self) -> (r: &ProspectBindGroupIndex)
        ensures
            r@ == self.spec_bind_index(),
    {
        &self.bind_group
    }

    /// What the GPU-side transform uniform buffer holds.
    pub fn gpu_uniform(&self) -> (r: TransformUniform)
        ensures
            r == self.spec_gpu_uniform(),
    {
        self.uploaded
    }

    /// The transform uniform buffer's resource id.
    pub fn matrix_buffer(&self) -> (r: u64)
        ensures
            r == self.spec_matrix_buffer(),
    {
        self.matrix_buffer
    }

    /// Uploads the freshly computed model matrix, binds the transform bind
    /// group at the conventional slot, and delegates the draw to the mesh.
    pub fn draw(
        &mut self,
        render_pass: &mut RenderPass,
        manager: &ProspectShaderManager,
        cam: &ProspectCamera,
        mesh: &impl Meshable,
        matrix: TransformUniform,
    )
        requires
            manager.wf(),
            mesh.draw_requires(),
        ensures
            final(self).spec_transform() == old(self).spec_transform(),
            final(self).spec_matrix_buffer() == old(self).spec_matrix_buffer(),
            final(self).spec_bind_index() == old(self).spec_bind_index(),
            final(self).spec_gpu_uniform() == matrix,
            final(render_pass)@ == old(render_pass)@ + old(self).transform_bind_commands(
                manager,
                TRANSFORM_BIND_SLOT,
            ) + mesh.draw_commands(manager, cam),
    {
        self.draw_custom_bind_index(render_pass, manager, cam, mesh, matrix, TRANSFORM_BIND_SLOT);
    }

    /// As `draw`, but binds the transform bind group at a caller-chosen slot.
    pub fn draw_custom_bind_index(
        &mut self,
        render_pass: &mut RenderPass,
        manager: &ProspectShaderManager,
        cam: &ProspectCamera,
        mesh: &impl Meshable,
        matrix: TransformUniform,
        index: u32,
    )
        requires
            manager.wf(),
            mesh.draw_requires(),
        ensures
            final(self).spec_transform() == old(self).spec_transform(),
            final(self).spec_matrix_buffer() == old(self).spec_matrix_buffer(),
            final(self).spec_bind_index() == old(self).spec_bind_index(),
            final(self).spec_gpu_uniform() == matrix,
            final(render_pass)@ == old(render_pass)@ + old(self).transform_bind_commands(
                manager,
                index,
            ) + mesh.draw_commands(manager, cam),
    {
        self.uploaded = matrix;
        let offsets: &[u32] = &[];
        manager.apply_bind_group(render_pass, &self.bind_group, index, offsets);
        proof {
            assert(offsets@ =~= Seq::<u32>::empty());
            assert(render_pass@ =~= old(render_pass)@ + old(self).transform_bind_commands(
                manager,
                index,
            ));
        }
        mesh.draw(render_pass, manager, cam);
        proof {
            assert(render_pass@ =~= old(render_pass)@ + old(self).transform_bind_commands(
                manager,
                index,
            ) + mesh.draw_commands(manager, cam));
        }
    }
}

} // verus!
