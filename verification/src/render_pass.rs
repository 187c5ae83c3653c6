//! The per-frame command stream, modeled as a recorded sequence of GPU
//! commands. GPU objects are referred to by plain resource ids; the embedding
//! application replays a recorded stream against the real graphics API.

use vstd::prelude::*;

verus! {

/// One recorded command, at the specification level.
pub enum Command {
    SetPipeline { pipeline: u64 },
    SetBindGroup { slot: u32, group: u64, offsets: Seq<u32> },
    SetVertexBuffer { slot: u32, buffer: u64 },
    SetIndexBuffer { buffer: u64 },
    DrawIndexed {
        first_index: u32,
        index_end: u32,
        base_vertex: i32,
        first_instance: u32,
        instance_end: u32,
    },
}

/// One recorded command, as stored.
#[derive(Clone, Debug, PartialEq)]
pub enum RenderCommand {
    SetPipeline { pipeline: u64 },
    SetBindGroup { slot: u32, group: u64, offsets: Vec<u32> },
    SetVertexBuffer { slot: u32, buffer: u64 },
    SetIndexBuffer { buffer: u64 },
    DrawIndexed {
        first_index: u32,
        index_end: u32,
        base_vertex: i32,
        first_instance: u32,
        instance_end: u32,
    },
}

impl View for RenderCommand {
    type V = Command;

    open spec fn view(&self) -> Command {
        match self {
            RenderCommand::SetPipeline { pipeline } => Command::SetPipeline { pipeline: *pipeline },
            RenderCommand::SetBindGroup { slot, group, offsets } => Command::SetBindGroup {
                slot: *slot,
                group: *group,
                offsets: offsets@,
            },
            RenderCommand::SetVertexBuffer { slot, buffer } => Command::SetVertexBuffer {
                slot: *slot,
                buffer: *buffer,
            },
            RenderCommand::SetIndexBuffer { buffer } => Command::SetIndexBuffer { buffer: *buffer },
            RenderCommand::DrawIndexed {
                first_index,
                index_end,
                base_vertex,
                first_instance,
                instance_end,
            } => Command::DrawIndexed {
                first_index: *first_index,
                index_end: *index_end,
                base_vertex: *base_vertex,
                first_instance: *first_instance,
                instance_end: *instance_end,
            },
        }
    }
}

/// A recording command stream: the ordered commands of one render pass.
pub struct RenderPass {
    commands: Vec<RenderCommand>,
}

impl View for RenderPass {
    type V = Seq<Command>;

    closed spec fn view(&self) -> Seq<Command> {
        Seq::new(self.commands@.len(), |i: int| self.commands@[i]@)
    }
}

impl RenderPass {
    /// Opens an empty command stream.
    pub fn new() -> (r: RenderPass)
        ensures
            r@ == Seq::<Command>::empty(),
    {
        let r = RenderPass { commands: Vec::new() };
        proof {
            assert(r@ =~= Seq::<Command>::empty());
        }
        r
    }

    /// Records binding a pipeline.
    pub fn set_pipeline(&mut self, pipeline: u64)
        ensures
            final(self)@ == old(self)@.push((Command::SetPipeline { pipeline })),
    {
        self.commands.push(RenderCommand::SetPipeline { pipeline });
        proof {
            assert(self@ =~= old(self)@.push((Command::SetPipeline { pipeline })));
        }
    }

    /// Records attaching a bind group at a slot, with per-draw dynamic
    /// offsets.
    pub fn set_bind_group(&mut self, slot: u32, group: u64, offsets: &[u32])
        ensures
            final(self)@ == old(self)@.push(
                (Command::SetBindGroup { slot, group, offsets: offsets@ }),
            ),
    {
        self.commands.push(
            RenderCommand::SetBindGroup {
                slot,
                group,
                offsets: vstd::slice::slice_to_vec(offsets),
            },
        );
        proof {
            assert(self@ =~= old(self)@.push(
                (Command::SetBindGroup { slot, group, offsets: offsets@ }),
            ));
        }
    }

    /// Records binding a vertex buffer at a vertex-buffer slot.
    pub fn set_vertex_buffer(&mut self, slot: u32, buffer: u64)
        ensures
            final(self)@ == old(self)@.push((Command::SetVertexBuffer { slot, buffer })),
    {
        self.commands.push(RenderCommand::SetVertexBuffer { slot, buffer });
        proof {
            assert(self@ =~= old(self)@.push((Command::SetVertexBuffer { slot, buffer })));
        }
    }

    /// Records binding the index buffer.
    pub fn set_index_buffer(&mut self, buffer: u64)
        ensures
            final(self)@ == old(self)@.push((Command::SetIndexBuffer { buffer })),
    {
        self.commands.push(RenderCommand::SetIndexBuffer { buffer });
        proof {
            assert(self@ =~= old(self)@.push((Command::SetIndexBuffer { buffer })));
        }
    }

    /// Records one indexed draw over the index range
    /// `first_index..index_end` and the instance range
    /// `first_instance..instance_end`.
    pub fn draw_indexed(
        &mut self,
        first_index: u32,
        index_end: u32,
        base_vertex: i32,
        first_instance: u32,
        instance_end: u32,
    )
        ensures
            final(self)@ == old(self)@.push(
                (Command::DrawIndexed {
                    first_index,
                    index_end,
                    base_vertex,
                    first_instance,
                    instance_end,
                }),
            ),
    {
        self.commands.push(
            RenderCommand::DrawIndexed {
                first_index,
                index_end,
                base_vertex,
                first_instance,
                instance_end,
            },
        );
        proof {
            assert(self@ =~= old(self)@.push(
                (Command::DrawIndexed {
                    first_index,
                    index_end,
                    base_vertex,
                    first_instance,
                    instance_end,
                }),
            ));
        }
    }

    /// How many commands are recorded.
    pub fn len(&self) -> (r: usize)
        ensures
            r == self@.len(),
    {
        self.commands.len()
    }

    /// The recorded commands, oldest first.
    pub fn commands(&self) -> (r: &Vec<RenderCommand>)
        ensures
            r@.len() == self@.len(),
            forall|i: int| 0 <= i < r@.len() ==> r@[i]@ == self@[i],
    {
        &self.commands
    }
}

} // verus!
