//! The shader-resource registry: the owner of all registered render pipelines
//! and bind groups, keyed by stable, cheap-to-copy handles. Registered
//! resources stay resolvable for the registry's whole lifetime; applying a
//! handle that does not resolve is a silent no-op on the command stream (the
//! soft-skip policy for dangling handles).

use vstd::prelude::*;

use crate::name_table::NameTable;
use crate::render_pass::Command;
use crate::render_pass::RenderPass;
use crate::text::decimal_of;
use crate::text::u64_to_decimal;

verus! {

/// Handle naming a registered render pipeline. Purely a lookup key: equality
/// is by name, and the handle never owns the pipeline it names.
#[derive(Debug)]
pub struct ProspectShaderIndex {
    name: String,
}

impl View for ProspectShaderIndex {
    type V = Seq<char>;

    closed spec fn view(&self) -> Seq<char> {
        self.name@
    }
}

impl Clone for ProspectShaderIndex {
    fn clone(&self) -> (r: Self)
        ensures
            r == *self,
    {
        ProspectShaderIndex { name: self.name.clone() }
    }
}

impl PartialEq for ProspectShaderIndex {
    fn eq(&self, other: &Self) -> (r: bool) {
        self.name == other.name
    }
}

impl vstd::std_specs::cmp::PartialEqSpecImpl for ProspectShaderIndex {
    open spec fn obeys_eq_spec() -> bool {
        true
    }

    open spec fn eq_spec(&self, other: &Self) -> bool {
        self@ == other@
    }
}

/// Handle naming a registered bind group. Purely a lookup key, like
/// [`ProspectShaderIndex`].
#[derive(Debug)]
pub struct ProspectBindGroupIndex {
    name: String,
}

impl View for ProspectBindGroupIndex {
    type V = Seq<char>;

    closed spec fn view(&self) -> Seq<char> {
        self.name@
    }
}

impl Clone for ProspectBindGroupIndex {
    fn clone(&self) -> (r: Self)
        ensures
            r == *self,
    {
        ProspectBindGroupIndex { name: self.name.clone() }
    }
}

impl PartialEq for ProspectBindGroupIndex {
    fn eq(&self, other: &Self) -> (r: bool) {
        self.name == other.name
    }
}

impl vstd::std_specs::cmp::PartialEqSpecImpl for ProspectBindGroupIndex {
    open spec fn obeys_eq_spec() -> bool {
        true
    }

    open spec fn eq_spec(&self, other: &Self) -> bool {
        self@ == other@
    }
}

/// The registry of render pipelines and bind groups, keyed by name. It owns
/// the GPU-side objects, referred to here by plain resource ids; meshes and
/// binders hold handles, never the resources themselves.
pub struct ProspectShaderManager {
    pipelines: NameTable,
    bind_groups: NameTable,
    auto_name_counter: u64,
}

impl ProspectShaderManager {
    /// The registered pipelines: name to resource id.
    pub closed spec fn pipelines_view(&self) -> Map<Seq<char>, u64> {
        self.pipelines@
    }

    /// The registered bind groups: name to resource id.
    pub closed spec fn bind_groups_view(&self) -> Map<Seq<char>, u64> {
        self.bind_groups@
    }

    /// The counter from which the next registry-chosen bind-group name is
    /// minted. Monotonic, and deliberately decoupled from the collection's
    /// size, so that minted names never depend on what else was registered.
    pub closed spec fn auto_counter(&self) -> u64 {
        self.auto_name_counter
    }

    pub closed spec fn wf(&self) -> bool {
        self.pipelines.wf() && self.bind_groups.wf()
    }

    pub fn new() -> (r: ProspectShaderManager)
        ensures
            r.wf(),
            r.pipelines_view() == Map::<Seq<char>, u64>::empty(),
            r.bind_groups_view() == Map::<Seq<char>, u64>::empty(),
            r.auto_counter() == 0,
    {
        ProspectShaderManager {
            pipelines: NameTable::new(),
            bind_groups: NameTable::new(),
            auto_name_counter: 0,
        }
    }

    /// Registers a built render pipeline under the shader's declared name and
    /// hands out the handle under which it stays resolvable. A name that is
    /// already taken is rejected: the registry is left unchanged and no
    /// handle is handed out.
    pub fn add_shader(&mut self, name: String, pipeline: u64) -> (r: Option<ProspectShaderIndex>)
        requires
            old(self).wf(),
        ensures
            final(self).wf(),
            final(self).bind_groups_view() == old(self).bind_groups_view(),
            final(self).auto_counter() == old(self).auto_counter(),
            match r {
                Some(h) => !old(self).pipelines_view().contains_key(name@) && h@ == name@
                    && final(self).pipelines_view() == old(self).pipelines_view().insert(
                    name@,
                    pipeline,
                ),
                None => old(self).pipelines_view().contains_key(name@) && final(self).pipelines_view() == old(self).pipelines_view(),
            },
    {
        let handle = ProspectShaderIndex { name: name.clone() };
        if self.pipelines.insert_new(name, pipeline) {
            Some(handle)
        } else {
            None
        }
    }

    /// Binds the pipeline a handle names as the active one on the command
    /// stream; a handle that does not resolve leaves the stream untouched.
    pub fn apply_render_pipeline(
        &self,
        key: &ProspectShaderIndex,
        render_pass: &mut RenderPass,
    )
        requires
            self.wf(),
        ensures
            self.pipelines_view().contains_key(key@) ==> final(render_pass)@ == old(
                render_pass,
            )@.push((Command::SetPipeline { pipeline: self.pipelines_view()[key@] })),
            !self.pipelines_view().contains_key(key@) ==> final(render_pass)@ == old(
                render_pass,
            )@,
    {
        let pipeline = self.pipelines.get(&key.name);
        if let Some(id) = pipeline {
            render_pass.set_pipeline(id);
        }
    }

    /// Stores a built bind group under an explicit name and hands out its
    /// handle. Re-registering under a name that is already taken replaces the
    /// stored bind group (the hot-reload path) while every handle to that
    /// name keeps resolving.
    pub fn add_bind_group(&mut self, name: String, bind_group: u64) -> (r: ProspectBindGroupIndex)
        requires
            old(self).wf(),
        ensures
            final(self).wf(),
            final(self).pipelines_view() == old(self).pipelines_view(),
            final(self).auto_counter() == old(self).auto_counter(),
            r@ == name@,
            final(self).bind_groups_view() == old(self).bind_groups_view().insert(
                name@,
                bind_group,
            ),
    {
        let handle = ProspectBindGroupIndex { name: name.clone() };
        self.bind_groups.insert_or_replace(name, bind_group);
        handle
    }

    /// Stores a built bind group under a registry-chosen name, minted in
    /// decimal from the monotonic counter.
    pub fn auto_add_bind_group(&mut self, bind_group: u64) -> (r: ProspectBindGroupIndex)
        requires
            old(self).wf(),
            old(self).auto_counter() < u64::MAX,
        ensures
            final(self).wf(),
            final(self).pipelines_view() == old(self).pipelines_view(),
            final(self).auto_counter() == old(self).auto_counter() + 1,
            r@ == decimal_of(old(self).auto_counter() as nat),
            final(self).bind_groups_view() == old(self).bind_groups_view().insert(
                decimal_of(old(self).auto_counter() as nat),
                bind_group,
            ),
    {
        let name = u64_to_decimal(self.auto_name_counter);
        self.auto_name_counter = self.auto_name_counter + 1;
        self.add_bind_group(name, bind_group)
    }

    /// Attaches the bind group a handle names at the given slot on the
    /// command stream; a handle that does not resolve leaves the stream
    /// untouched.
    pub fn apply_bind_group(
        &self,
        render_pass: &mut RenderPass,
        key: &ProspectBindGroupIndex,
        loc: u32,
        offsets: &[u32],
    )
        requires
            self.wf(),
        ensures
            self.bind_groups_view().contains_key(key@) ==> final(render_pass)@ == old(
                render_pass,
            )@.push(
                (Command::SetBindGroup {
                    slot: loc,
                    group: self.bind_groups_view()[key@],
                    offsets: offsets@,
                }),
            ),
            !self.bind_groups_view().contains_key(key@) ==> final(render_pass)@ == old(
                render_pass,
            )@,
    {
        let bind_group = self.bind_groups.get(&key.name);
        if let Some(id) = bind_group {
            render_pass.set_bind_group(loc, id, offsets);
        }
    }

    /// The counter the next registry-chosen name is minted from.
    pub fn auto_counter_value(&self) -> (r: u64)
        ensures
            r == self.auto_counter(),
    {
        self.auto_name_counter
    }

    /// Whether a pipeline handle currently resolves.
    pub fn resolves_pipeline(&self, key: &ProspectShaderIndex) -> (r: bool)
        requires
            self.wf(),
        ensures
            r == self.pipelines_view().contains_key(key@),
    {
        self.pipelines.contains(&key.name)
    }

    /// Whether a bind-group handle currently resolves.
    pub fn resolves_bind_group(&self, key: &ProspectBindGroupIndex) -> (r: bool)
        requires
            self.wf(),
        ensures
            r == self.bind_groups_view().contains_key(key@),
    {
        self.bind_groups.contains(&key.name)
    }
}

/// Handle stability: registration only ever grows the registry's resolution
/// maps, so a handle that resolved before any later registration still
/// resolves after it, to the same resource, and a freshly handed-out handle
/// resolves at once. Together with the registration contracts (each one
/// states that its map is the old map with one binding inserted, or replaced
/// under the same name) this pins every handle for the registry's lifetime.
pub proof fn lemma_handle_stability(
    resolution: Map<Seq<char>, u64>,
    registered: Seq<char>,
    resource: u64,
    handle: Seq<char>,
)
    requires
        resolution.contains_key(handle),
    ensures
        resolution.insert(registered, resource).contains_key(handle),
        resolution.insert(registered, resource).contains_key(registered),
        registered != handle ==> resolution.insert(registered, resource)[handle]
            == resolution[handle],
{
}

} // verus!
