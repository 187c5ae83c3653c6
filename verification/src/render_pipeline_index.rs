//! A pipeline-only registry variant with an explicit named-conflict policy:
//! registering a second pipeline under a taken name is rejected outright.

use vstd::prelude::*;

use crate::name_table::NameTable;
use crate::render_pass::Command;
use crate::render_pass::RenderPass;

verus! {

/// Handle naming a pipeline registered in a [`RenderPipelineIndex`].
#[derive(Debug)]
pub struct RenderPipelineKey {
    name: String,
}

impl View for RenderPipelineKey {
    type V = Seq<char>;

    closed spec fn view(&self) -> Seq<char> {
        self.name@
    }
}

impl Clone for RenderPipelineKey {
    fn clone(&self) -> (r: Self)
        ensures
            r == *self,
    {
        RenderPipelineKey { name: self.name.clone() }
    }
}

impl PartialEq for RenderPipelineKey {
    fn eq(&self, other: &Self) -> (r: bool) {
        self.name == other.name
    }
}

impl vstd::std_specs::cmp::PartialEqSpecImpl for RenderPipelineKey {
    open spec fn obeys_eq_spec() -> bool {
        true
    }

    open spec fn eq_spec(&self, other: &Self) -> bool {
        self@ == other@
    }
}

/// A registry of render pipelines alone, keyed by name.
pub struct RenderPipelineIndex {
    pipelines: NameTable,
}

impl RenderPipelineIndex {
    /// The registered pipelines: name to resource id.
    pub closed spec fn pipelines_view(&self) -> Map<Seq<char>, u64> {
        self.pipelines@
    }

    pub closed spec fn wf(&self) -> bool {
        self.pipelines.wf()
    }

    pub fn new() -> (r: RenderPipelineIndex)
        ensures
            r.wf(),
            r.pipelines_view() == Map::<Seq<char>, u64>::empty(),
    {
        RenderPipelineIndex { pipelines: NameTable::new() }
    }

    /// Registers a built pipeline under the shader's declared name. A name
    /// that is already taken is a named conflict: nothing is stored, no
    /// handle is handed out, and the registry is unchanged.
    pub fn add_shader(&mut self, name: String, pipeline: u64) -> (r: Option<RenderPipelineKey>)
        requires
            old(self).wf(),
        ensures
            final(self).wf(),
            match r {
                Some(h) => !old(self).pipelines_view().contains_key(name@) && h@ == name@
                    && final(self).pipelines_view() == old(self).pipelines_view().insert(
                    name@,
                    pipeline,
                ),
                None => old(self).pipelines_view().contains_key(name@) && final(self).pipelines_view() == old(self).pipelines_view(),
            },
    {
        let handle = RenderPipelineKey { name: name.clone() };
        if self.pipelines.insert_new(name, pipeline) {
            Some(handle)
        } else {
            None
        }
    }

    /// Binds the pipeline a handle names on the command stream; a handle that
    /// does not resolve leaves the stream untouched.
    pub fn apply_render_pipeline(&self, key: &RenderPipelineKey, render_pass: &mut RenderPass)
        requires
            self.wf(),
        ensures
            self.pipelines_view().contains_key(key@) ==> final(render_pass)@ == old(
                render_pass,
            )@.push((Command::SetPipeline { pipeline: self.pipelines_view()[key@] })),
            !self.pipelines_view().contains_key(key@) ==> final(render_pass)@ == old(
                render_pass,
            )@,
    {
        let pipeline = self.pipelines.get(&key.name);
        if let Some(id) = pipeline {
            render_pass.set_pipeline(id);
        }
    }

    /// Whether a pipeline handle currently resolves.
    pub fn resolves_pipeline(&self, key: &RenderPipelineKey) -> (r: bool)
        requires
            self.wf(),
        ensures
            r == self.pipelines_view().contains_key(key@),
    {
        self.pipelines.contains(&key.name)
    }
}

} // verus!
