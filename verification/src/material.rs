//! Materials: what a drawable binds at the texture slot — nothing, or one
//! texture bind group.

use vstd::prelude::*;

use crate::render_pass::Command;
use crate::render_pass::RenderPass;

verus! {

/// The slot texture bind groups are attached at by this material.
pub const MATERIAL_BIND_SLOT: u32 = 0;

/// A drawable's material: blank, or one texture bind group named by its
/// resource id.
#[derive(Clone, Copy, Debug, PartialEq, Eq, Structural)]
pub enum Material {
    BlankMaterial,
    TexturedMaterial(u64),
}

impl Material {
    /// Records binding the material's texture group; a blank material leaves
    /// the stream untouched.
    pub fn apply_to_render_pass(&self, render_pass: &mut RenderPass)
        ensures
            *self is BlankMaterial ==> final(render_pass)@ == old(render_pass)@,
            forall|group: u64|
                *self == Material::TexturedMaterial(group) ==> final(render_pass)@ == old(
                    render_pass,
                )@.push(
                    (Command::SetBindGroup {
                        slot: MATERIAL_BIND_SLOT,
                        group,
                        offsets: Seq::<u32>::empty(),
                    }),
                ),
    {
        match self {
            Material::BlankMaterial => {},
            Material::TexturedMaterial(group) => {
                let offsets: &[u32] = &[];
                render_pass.set_bind_group(MATERIAL_BIND_SLOT, *group, offsets);
                proof {
                    assert(offsets@ =~= Seq::<u32>::empty());
                }
            },
        }
    }
}

impl Default for Material {
    fn default() -> (r: Material)
        ensures
            r == Material::BlankMaterial,
    {
        Material::BlankMaterial
    }
}

} // verus!
