//! Meshes: the owner of one piece of geometry's vertex and index buffers,
//! the pipeline handle it draws with, and its slot-to-bind-group mapping.
//! Drawing records the pipeline, every bound slot, the camera, the two
//! buffers and one indexed draw call, in that order, into the command stream,
//! resolving every handle through the registry.

use vstd::prelude::*;

use crate::prospect_camera::ProspectCamera;
use crate::prospect_shader_manager::ProspectBindGroupIndex;
use crate::prospect_shader_manager::ProspectShaderIndex;
use crate::prospect_shader_manager::ProspectShaderManager;
use crate::prospect_shape::ProspectShape;
use crate::render_pass::Command;
use crate::render_pass::RenderPass;
use crate::vertex::Vertex;

verus! {

/// Why mesh construction was refused.
#[derive(Clone, Copy, Debug, PartialEq, Eq, Structural)]
pub enum MeshError {
    /// The shape carried no vertices; a mesh's vertex buffer is never empty.
    EmptyVertexList,
}

/// The reversed trivial index sequence over `n` vertices:
/// `[n - 1, n - 2, ..., 1, 0]`.
pub open spec fn reversed_indices(n: nat) -> Seq<u32> {
    Seq::new(n, |i: int| (n - 1 - i) as u32)
}

/// The index data a shape stands for: its own indices when it carries some,
/// and the reversed trivial sequence over its vertices otherwise.
pub open spec fn shape_index_data(shape: &ProspectShape) -> Seq<u32> {
    match shape.indices {
        Some(v) => v@,
        None => reversed_indices(shape.vertices@.len()),
    }
}

/// Copies a vector of plain values.
fn copy_vec<T: Copy>(src: &Vec<T>) -> (r: Vec<T>)
    ensures
        r@ == src@,
{
    let n = src.len();
    let mut r: Vec<T> = Vec::new();
    let mut i: usize = 0;
    while i < n
        invariant
            n == src@.len(),
            0 <= i <= n,
            r@ == src@.subrange(0, i as int),
        decreases n - i,
    {
        r.push(src[i]);
        proof {
            assert(r@ =~= src@.subrange(0, i + 1));
        }
        i += 1;
    }
    proof {
        assert(r@ =~= src@);
    }
    r
}

/// A mesh: geometry buffers, the pipeline handle it draws with, and its
/// slot-to-bind-group mapping. Immutable once its slots are attached; a
/// changed mesh is replaced wholesale.
pub struct Mesh {
    vertices: Vec<Vertex>,
    indices: Vec<u32>,
    vertex_buffer: u64,
    index_buffer: u64,
    index_count: u32,
    render_pipeline: ProspectShaderIndex,
    bind_groups: Vec<(u32, ProspectBindGroupIndex)>,
}

/// The commands that attaching each slot of `slots` in order records, when
/// each handle is resolved through the registry and dangling handles are
/// skipped.
pub open spec fn bind_group_commands(
    slots: Seq<(u32, Seq<char>)>,
    registry: &ProspectShaderManager,
) -> Seq<Command>
    decreases slots.len(),
{
    if slots.len() == 0 {
        Seq::empty()
    } else {
        bind_group_commands(slots.drop_last(), registry) + (
        if registry.bind_groups_view().contains_key(slots.last().1) {
            seq![
                (Command::SetBindGroup {
                    slot: slots.last().0,
                    group: registry.bind_groups_view()[slots.last().1],
                    offsets: Seq::<u32>::empty(),
                }),
            ]
        } else {
            Seq::<Command>::empty()
        })
    }
}

/// Anything that can draw itself into a command stream, given the registry
/// that resolves its handles and the camera of the pass.
pub trait Meshable {
    /// Whether this drawable is ready to draw.
    spec fn draw_requires(&self) -> bool;

    /// Exactly the commands one draw records.
    spec fn draw_commands(&self, registry: &ProspectShaderManager, cam: &ProspectCamera) -> Seq<
        Command,
    >;

    /// Draws into the command stream: appends exactly `draw_commands`.
    fn draw(
        &self,
        render_pass: &mut RenderPass,
        registry: &ProspectShaderManager,
        cam: &ProspectCamera,
    )
        requires
            self.draw_requires(),
            registry.wf(),
        ensures
            final(render_pass)@ == old(render_pass)@ + self.draw_commands(registry, cam),
    ;
}

impl Mesh {
    /// The vertex buffer's contents, in the order the shape gave them.
    pub closed spec fn spec_vertices(&self) -> Seq<Vertex> {
        self.vertices@
    }

    /// The index buffer's contents.
    pub closed spec fn spec_indices(&self) -> Seq<u32> {
        self.indices@
    }

    /// The vertex buffer's resource id.
    pub closed spec fn spec_vertex_buffer(&self) -> u64 {
        self.vertex_buffer
    }

    /// The index buffer's resource id.
    pub closed spec fn spec_index_buffer(&self) -> u64 {
        self.index_buffer
    }

    /// How many indices one draw covers.
    pub closed spec fn spec_index_count(&self) -> u32 {
        self.index_count
    }

    /// The name of the pipeline this mesh draws with.
    pub closed spec fn spec_pipeline(&self) -> Seq<char> {
        self.render_pipeline@
    }

    /// The slot-to-bind-group mapping, in attachment order.
    pub closed spec fn spec_slots(&self) -> Seq<(u32, Seq<char>)> {
        self.bind_groups@.map_values(|e: (u32, ProspectBindGroupIndex)| (e.0, e.1@))
    }

    /// The vertex buffer is never empty, the draw covers exactly the index
    /// buffer, and no slot is attached twice.
    pub closed spec fn wf(&self) -> bool {
        self.vertices@.len() > 0 && self.index_count == self.indices@.len() && (forall|
            i: int,
            j: int,
        |
            #![trigger self.bind_groups@[i].0, self.bind_groups@[j].0]
            0 <= i < j < self.bind_groups@.len() ==> self.bind_groups@[i].0
                != self.bind_groups@[j].0)
    }

    /// Builds a mesh from vertex and index data already in buffer order,
    /// refusing empty vertex data.
    pub fn new(
        vertices: Vec<Vertex>,
        indices: Vec<u32>,
        vertex_buffer: u64,
        index_buffer: u64,
        pipeline: &ProspectShaderIndex,
    ) -> (r: Result<Mesh, MeshError>)
        requires
            indices@.len() <= 0xFFFF_FFFF,
        ensures
            match r {
                Ok(m) => vertices@.len() > 0 && m.wf() && m.spec_vertices() == vertices@
                    && m.spec_indices() == indices@ && m.spec_index_count() == indices@.len()
                    && m.spec_pipeline() == pipeline@ && m.spec_slots() == Seq::<(
                    u32,
                    Seq<char>,
                )>::empty() && m.spec_vertex_buffer() == vertex_buffer && m.spec_index_buffer()
                    == index_buffer,
                Err(e) => vertices@.len() == 0 && e == MeshError::EmptyVertexList,
            },
    {
        if vertices.len() == 0 {
            return Err(MeshError::EmptyVertexList);
        }
        let count = indices.len() as u32;
        let m = Mesh {
            vertices,
            indices,
            vertex_buffer,
            index_buffer,
            index_count: count,
            render_pipeline: pipeline.clone(),
            bind_groups: Vec::new(),
        };
        proof {
            assert(m.spec_slots() =~= Seq::<(u32, Seq<char>)>::empty());
        }
        Ok(m)
    }

    /// Builds a mesh from a shape: the shape's vertices go to the vertex
    /// buffer unchanged, and its indices, or the reversed trivial sequence
    /// over all vertices when it carries none, go to the index buffer.
    /// A shape with no vertices is refused.
    pub fn from_shape(
        shape: &ProspectShape,
        vertex_buffer: u64,
        index_buffer: u64,
        pipeline: &ProspectShaderIndex,
    ) -> (r: Result<Mesh, MeshError>)
        requires
            shape.vertices@.len() <= 0xFFFF_FFFF,
            shape.indices matches Some(v) ==> v@.len() <= 0xFFFF_FFFF,
        ensures
            match r {
                Ok(m) => shape.vertices@.len() > 0 && m.wf() && m.spec_vertices()
                    == shape.vertices@ && m.spec_indices() == shape_index_data(shape)
                    && m.spec_index_count() == shape_index_data(shape).len() && m.spec_pipeline()
                    == pipeline@ && m.spec_slots() == Seq::<(u32, Seq<char>)>::empty()
                    && m.spec_vertex_buffer() == vertex_buffer && m.spec_index_buffer()
                    == index_buffer,
                Err(e) => shape.vertices@.len() == 0 && e == MeshError::EmptyVertexList,
            },
    {
        if shape.vertices.len() == 0 {
            return Err(MeshError::EmptyVertexList);
        }
        let vertices = copy_vec(&shape.vertices);
        let indices: Vec<u32> = match &shape.indices {
            Some(given) => copy_vec(given),
            None => {
                let l = vertices.len() as u32;
                let mut generated: Vec<u32> = Vec::new();
                let mut i: u32 = 0;
                while i < l
                    invariant
                        0 <= i <= l,
                        l == vertices@.len(),
                        generated@ == reversed_indices(l as nat).subrange(0, i as int),
                    decreases l - i,
                {
                    generated.push(l - i - 1);
                    proof {
                        assert(generated@ =~= reversed_indices(l as nat).subrange(0, i + 1));
                    }
                    i += 1;
                }
                proof {
                    assert(generated@ =~= reversed_indices(l as nat));
                }
                generated
            },
        };
        Mesh::new(vertices, indices, vertex_buffer, index_buffer, pipeline)
    }

    /// Attaches a bind group at a slot, replacing what the slot held.
    pub fn set_bind_group(&mut self, loc: u32, bind_group: &ProspectBindGroupIndex)
        requires
            old(self).wf(),
        ensures
            final(self).wf(),
            final(self).spec_vertices() == old(self).spec_vertices(),
            final(self).spec_indices() == old(self).spec_indices(),
            final(self).spec_index_count() == old(self).spec_index_count(),
            final(self).spec_pipeline() == old(self).spec_pipeline(),
            final(self).spec_vertex_buffer() == old(self).spec_vertex_buffer(),
            final(self).spec_index_buffer() == old(self).spec_index_buffer(),
            (forall|i: int|
                0 <= i < old(self).spec_slots().len() ==> old(self).spec_slots()[i].0 != loc)
                ==> final(self).spec_slots() == old(self).spec_slots().push((loc, bind_group@)),
            forall|i: int|
                0 <= i < old(self).spec_slots().len() && old(self).spec_slots()[i].0 == loc
                    ==> final(self).spec_slots() == old(self).spec_slots().update(
                    i,
                    (loc, bind_group@),
                ),
    {
        let n = self.bind_groups.len();
        let mut i: usize = 0;
        while i < n
            invariant
                n == self.bind_groups@.len(),
                0 <= i <= n,
                self == old(self),
                old(self).wf(),
                forall|j: int| 0 <= j < i ==> self.bind_groups@[j].0 != loc,
            decreases n - i,
        {
            if self.bind_groups[i].0 == loc {
                proof {
                    assert(old(self).spec_slots()[i as int].0 == loc);
                }
                self.bind_groups[i] = (loc, bind_group.clone());
                proof {
                    assert(self.spec_slots() =~= old(self).spec_slots().update(
                        i as int,
                        (loc, bind_group@),
                    ));
                    assert forall|j: int| 0 <= j < self.bind_groups@.len() implies (
                    self.bind_groups@[j].0 == old(self).bind_groups@[j].0) by {
                        if j != i as int {
                            assert(self.bind_groups@[j] == old(self).bind_groups@[j]);
                        }
                    }
                    assert forall|j: int, k: int|
                        0 <= j < k < self.bind_groups@.len() implies (self.bind_groups@[j].0
                        != self.bind_groups@[k].0) by {
                        assert(old(self).bind_groups@[j].0 != old(self).bind_groups@[k].0);
                    }
                    assert forall|i2: int|
                        0 <= i2 < old(self).spec_slots().len() && old(self).spec_slots()[i2].0
                            == loc implies i2 == i as int by {
                        assert(old(self).spec_slots()[i2].0 == old(self).bind_groups@[i2].0);
                        let idx = i as int;
                        if i2 != idx {
                            assert(old(self).bind_groups@[i2].0 != old(self).bind_groups@[idx].0);
                        }
                    }
                }
                return ;
            }
            i += 1;
        }
        self.bind_groups.push((loc, bind_group.clone()));
        proof {
            assert(self.spec_slots() =~= old(self).spec_slots().push((loc, bind_group@)));
        }
    }

    /// Exactly the command binding this mesh's pipeline records, when the
    /// handle resolves; no command when it dangles.
    pub open spec fn pipeline_commands(&self, registry: &ProspectShaderManager) -> Seq<Command> {
        if registry.pipelines_view().contains_key(self.spec_pipeline()) {
            seq![
                (Command::SetPipeline {
                    pipeline: registry.pipelines_view()[self.spec_pipeline()],
                }),
            ]
        } else {
            Seq::<Command>::empty()
        }
    }

    /// The fixed tail of every draw: the camera at slot zero, the two
    /// geometry buffers, and one indexed draw over the whole index buffer
    /// with one instance.
    pub open spec fn fixed_tail_commands(&self, cam: &ProspectCamera) -> Seq<Command> {
        seq![
            (Command::SetBindGroup {
                slot: 0,
                group: cam.spec_bind_group(),
                offsets: Seq::<u32>::empty(),
            }),
            (Command::SetVertexBuffer { slot: 0, buffer: self.spec_vertex_buffer() }),
            (Command::SetIndexBuffer { buffer: self.spec_index_buffer() }),
            (Command::DrawIndexed {
                first_index: 0,
                index_end: self.spec_index_count(),
                base_vertex: 0,
                first_instance: 0,
                instance_end: 1,
            }),
        ]
    }

    /// The vertex buffer's contents.
    pub fn vertex_data(&self) -> (r: &Vec<Vertex>)
        ensures
            r@ == self.spec_vertices(),
    {
        &self.vertices
    }

    /// The index buffer's contents.
    pub fn index_data(&self) -> (r: &Vec<u32>)
        ensures
            r@ == self.spec_indices(),
    {
        &self.indices
    }

    /// How many indices one draw covers.
    pub fn get_index_count(&self) -> (r: u32)
        ensures
            r == self.spec_index_count(),
    {
        self.index_count
    }

    /// The handle of the pipeline this mesh draws with.
    pub fn pipeline_handle(&self) -> (r: &ProspectShaderIndex)
        ensures
            r@ == self.spec_pipeline(),
    {
        &self.render_pipeline
    }
}

impl Meshable for Mesh {
    open spec fn draw_requires(&self) -> bool {
        self.wf()
    }

    open spec fn draw_commands(&self, registry: &ProspectShaderManager, cam: &ProspectCamera) -> Seq<
        Command,
    > {
        self.pipeline_commands(registry) + bind_group_commands(self.spec_slots(), registry)
            + self.fixed_tail_commands(cam)
    }

    fn draw(
        &self,
        render_pass: &mut RenderPass,
        registry: &ProspectShaderManager,
        cam: &ProspectCamera,
    ) {
        registry.apply_render_pipeline(&self.render_pipeline, render_pass);
        proof {
            assert(render_pass@ =~= old(render_pass)@ + self.pipeline_commands(registry));
            assert(bind_group_commands(self.spec_slots().subrange(0, 0), registry)
                =~= Seq::<Command>::empty());
        }
        let n = self.bind_groups.len();
        let mut i: usize = 0;
        while i < n
            invariant
                n == self.bind_groups@.len(),
                0 <= i <= n,
                registry.wf(),
                render_pass@ == old(render_pass)@ + self.pipeline_commands(registry)
                    + bind_group_commands(self.spec_slots().subrange(0, i as int), registry),
            decreases n - i,
        {
            let loc = self.bind_groups[i].0;
            let offsets: &[u32] = &[];
            registry.apply_bind_group(render_pass, &self.bind_groups[i].1, loc, offsets);
            proof {
                let slots = self.spec_slots();
                assert(slots.subrange(0, i + 1).drop_last() =~= slots.subrange(0, i as int));
                assert(slots.subrange(0, i + 1).last() == slots[i as int]);
                assert(offsets@ =~= Seq::<u32>::empty());
                assert(render_pass@ =~= old(render_pass)@ + self.pipeline_commands(registry)
                    + bind_group_commands(slots.subrange(0, i + 1), registry));
            }
            i += 1;
        }
        proof {
            assert(self.spec_slots().subrange(0, n as int) =~= self.spec_slots());
        }
        cam.bind(render_pass, 0);
        render_pass.set_vertex_buffer(0, self.vertex_buffer);
        render_pass.set_index_buffer(self.index_buffer);
        render_pass.draw_indexed(0, self.index_count, 0, 0, 1);
        proof {
            assert(render_pass@ =~= old(render_pass)@ + self.draw_commands(registry, cam));
        }
    }
}

} // verus!
