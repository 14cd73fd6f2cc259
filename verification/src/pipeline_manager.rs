//! Graphics and compute pipelines: their descriptions, the cache key of a
//! description, what a pipeline is built from, and the cache of pipelines
//! built so far.

use vstd::prelude::*;
use std::collections::HashMap;
use std::collections::hash_map::DefaultHasher;
use std::hash::{Hash, Hasher};
use std::sync::Arc;
use vstd::std_specs::hash::DefaultHasherAdditionalSpecFns;
use crate::pipeline::{
    BlendType, ComputePipelineDescription, DepthStencilType, FixedFunctionState, RasterizationType,
    SetBindings, blend_attachment, compute_bindings, depth_stencil_state, descriptor_set_slots,
    distinct_sets, fixed_function_state, highest_set, merge_graphics_bindings, merged_set,
    rasterization_state, sets_map, with_stage, DescriptorBinding,
};
use crate::shader::{Shader, ShaderManager};

verus! {

broadcast use vstd::std_specs::hash::group_hash_axioms;

/// What hashing `name` as a `str` adds to a hasher that has seen `prior`.
pub uninterp spec fn str_hash_writes(prior: Seq<Seq<u8>>, name: Seq<char>) -> Seq<Seq<u8>>;

/// `<str as Hash>::hash` into a `DefaultHasher`. The hasher's new state is
/// taken as a function of its old state and the string; what is written
/// is not stated here.
#[verifier::external_body]
pub(crate) fn hash_str_into(name: &str, state: &mut DefaultHasher)
    ensures
        final(state)@ == str_hash_writes(old(state)@, name@),
{
    name.hash(state);
}

/// The cache key of a pipeline known by `name`.
pub open spec fn name_key(name: Seq<char>) -> u64 {
    DefaultHasher::spec_finish(str_hash_writes(Seq::empty(), name))
}

/// A pipeline is cached under the hash of its name.
pub fn name_hash(name: &str) -> (key: u64)
    ensures
        key == name_key(name@),
{
    let mut hasher = DefaultHasher::new();
    hash_str_into(name, &mut hasher);
    hasher.finish()
}

#[derive(Clone, Copy, Debug, PartialEq, Eq, Structural)]
pub struct VertexInputBindingDescription {
    pub binding: u32,
    pub stride: u32,
    pub input_rate: i32,
}

#[derive(Clone, Copy, Debug, PartialEq, Eq, Structural)]
pub struct VertexInputAttributeDescription {
    pub location: u32,
    pub binding: u32,
    pub format: i32,
    pub offset: u32,
}

/// A graphics pipeline: vertex input, dynamic states, fixed-function
/// choices, a name, and its two shaders.
pub struct PipelineDescription {
    pub vertex_binding_descriptions: Vec<VertexInputBindingDescription>,
    pub vertex_attribute_descriptions: Vec<VertexInputAttributeDescription>,
    pub dynamic_states: Vec<i32>,
    pub rasterization: RasterizationType,
    pub depth_stencil: DepthStencilType,
    pub blend: BlendType,
    pub name: String,
    pub vertex_shader: Arc<Shader>,
    pub fragment_shader: Arc<Shader>,
}

impl PipelineDescription {
    pub fn new(
        vertex_binding_descriptions: Vec<VertexInputBindingDescription>,
        vertex_attribute_descriptions: Vec<VertexInputAttributeDescription>,
        dynamic_states: Vec<i32>,
        rasterization: RasterizationType,
        depth_stencil: DepthStencilType,
        blend: BlendType,
        name: &str,
        vertex_shader: Arc<Shader>,
        fragment_shader: Arc<Shader>,
    ) -> (description: PipelineDescription)
        ensures
            description.vertex_binding_descriptions@ == vertex_binding_descriptions@,
            description.vertex_attribute_descriptions@ == vertex_attribute_descriptions@,
            description.dynamic_states@ == dynamic_states@,
            description.rasterization == rasterization,
            description.depth_stencil == depth_stencil,
            description.blend == blend,
            description.name@ == name@,
            description.vertex_shader == vertex_shader,
            description.fragment_shader == fragment_shader,
    {
        PipelineDescription {
            vertex_binding_descriptions,
            vertex_attribute_descriptions,
            dynamic_states,
            rasterization,
            depth_stencil,
            blend,
            name: name.to_owned(),
            vertex_shader,
            fragment_shader,
        }
    }

    pub fn get_name(&self) -> (name: &str)
        ensures
            name@ == self.name@,
    {
        self.name.as_str()
    }
}

/// The shaders' descriptor sets can make a pipeline layout: no set number
/// twice in one shader, and none at the largest `u32`.
pub open spec fn usable_sets(sets: Seq<SetBindings>) -> bool {
    &&& distinct_sets(sets)
    &&& forall|i: int| 0 <= i < sets.len() ==> #[trigger] sets[i].set < u32::MAX
}

/// What a graphics pipeline is built from: its cache key, its descriptor
/// sets (vertex and fragment bindings merged), the layout slot of each set
/// number, and its fixed-function state.
pub struct GraphicsPipelinePlan {
    pub key: u64,
    pub bindings: Vec<SetBindings>,
    pub set_slots: Vec<Option<usize>>,
    pub fixed_function: FixedFunctionState,
}

/// What a compute pipeline is built from.
pub struct ComputePipelinePlan {
    pub key: u64,
    pub bindings: Vec<SetBindings>,
    pub set_slots: Vec<Option<usize>>,
}

/// The slots of `slots` are those of the sets in `bindings`.
pub open spec fn slots_match(slots: Seq<Option<usize>>, bindings: Seq<SetBindings>) -> bool {
    &&& slots.len() == highest_set(bindings) + 1
    &&& forall|s: int| 0 <= s < slots.len() ==> match #[trigger] slots[s] {
        Some(k) => k < bindings.len() && bindings[k as int].set == s,
        None => !sets_map(bindings).contains_key(s as u32),
    }
}

/// `plan` is what `description` is built from: its key, the vertex and
/// fragment bindings merged set by set, a layout slot per set number, and
/// the fixed-function state of its choices.
pub open spec fn plans_graphics_pipeline(plan: GraphicsPipelinePlan, description: PipelineDescription) -> bool {
    let vertex = sets_map(description.vertex_shader.descriptor_bindings@);
    let fragment = sets_map(description.fragment_shader.descriptor_bindings@);
    &&& plan.key == name_key(description.name@)
    &&& distinct_sets(plan.bindings@)
    &&& forall|s: u32| #[trigger] sets_map(plan.bindings@).contains_key(s)
        <==> vertex.contains_key(s) || fragment.contains_key(s)
    &&& forall|s: u32| #[trigger] sets_map(plan.bindings@).contains_key(s)
        ==> sets_map(plan.bindings@)[s] == merged_set(vertex, fragment, s)
    &&& slots_match(plan.set_slots@, plan.bindings@)
    &&& plan.fixed_function.rasterization == rasterization_state(description.rasterization)
    &&& plan.fixed_function.depth_stencil == depth_stencil_state(description.depth_stencil)
    &&& plan.fixed_function.blend.attachments@ == seq![blend_attachment(description.blend)]
    &&& !plan.fixed_function.blend.logic_op_enable
    &&& plan.fixed_function.blend.logic_op == (if description.blend == BlendType::Disabled {
        crate::vk::LOGIC_OP_NO_OP
    } else {
        crate::vk::LOGIC_OP_CLEAR
    })
    &&& plan.fixed_function.blend.blend_constant == (if description.blend == BlendType::Disabled { 0u32 } else { 1u32 })
}

/// `plan` is what a compute pipeline of `description` with `shader` is
/// built from: its key, the shader's sets for the compute stage, and a
/// layout slot per set number.
pub open spec fn plans_compute_pipeline(plan: ComputePipelinePlan, description: ComputePipelineDescription, shader: Shader) -> bool {
    &&& plan.key == name_key(description.compute_name@)
    &&& plan.bindings@.len() == shader.descriptor_bindings@.len()
    &&& forall|i: int| 0 <= i < plan.bindings@.len() ==> #[trigger] plan.bindings@[i].set == shader.descriptor_bindings@[i].set
        && plan.bindings@[i].bindings@ == shader.descriptor_bindings@[i].bindings@.map_values(
            |b: DescriptorBinding| with_stage(b, crate::vk::SHADER_STAGE_COMPUTE))
    &&& slots_match(plan.set_slots@, plan.bindings@)
}

/// Plans a graphics pipeline. Alpha blending has no settings and is not
/// accepted.
pub fn plan_graphics_pipeline(description: &PipelineDescription) -> (plan: GraphicsPipelinePlan)
    requires
        description.blend != BlendType::Alpha,
        usable_sets(description.vertex_shader.descriptor_bindings@),
        usable_sets(description.fragment_shader.descriptor_bindings@),
    ensures
        plans_graphics_pipeline(plan, *description),
{
    let key = name_hash(description.name.as_str());
    let vertex = &description.vertex_shader.descriptor_bindings;
    let fragment = &description.fragment_shader.descriptor_bindings;
    let bindings = merge_graphics_bindings(vertex, fragment);
    proof {
        assert forall|i: int| 0 <= i < bindings@.len() implies #[trigger] bindings@[i].set < u32::MAX by {
            let s = bindings@[i].set;
            assert(sets_map(bindings@).contains_key(s));
            if sets_map(vertex@).contains_key(s) {
                let j = choose|j: int| 0 <= j < vertex@.len() && #[trigger] vertex@[j].set == s;
            } else {
                let j = choose|j: int| 0 <= j < fragment@.len() && #[trigger] fragment@[j].set == s;
            }
        }
    }
    let set_slots = descriptor_set_slots(&bindings);
    let fixed_function = fixed_function_state(description.rasterization, description.depth_stencil, description.blend);
    GraphicsPipelinePlan { key, bindings, set_slots, fixed_function }
}

/// Plans a compute pipeline from its description and its loaded shader.
pub fn plan_compute_pipeline(description: &ComputePipelineDescription, shader: &Shader) -> (plan: ComputePipelinePlan)
    requires
        usable_sets(shader.descriptor_bindings@),
    ensures
        plans_compute_pipeline(plan, *description, *shader),
{
    let key = name_hash(description.compute_name.as_str());
    let bindings = compute_bindings(&shader.descriptor_bindings);
    proof {
        assert forall|i: int, j: int| 0 <= i < j < bindings@.len() implies bindings@[i].set != bindings@[j].set by {
            assert(bindings@[i].set == shader.descriptor_bindings@[i].set);
            assert(bindings@[j].set == shader.descriptor_bindings@[j].set);
        }
        assert forall|i: int| 0 <= i < bindings@.len() implies #[trigger] bindings@[i].set < u32::MAX by {
            assert(bindings@[i].set == shader.descriptor_bindings@[i].set);
        }
    }
    let set_slots = descriptor_set_slots(&bindings);
    ComputePipelinePlan { key, bindings, set_slots }
}

/// The pipelines built so far, by key, and the shaders loaded for them.
/// `P` is the shared pipeline.
pub struct VulkanPipelineManager<P> {
    pub pipeline_cache: HashMap<u64, P>,
    pub shader_manager: ShaderManager<Arc<Shader>>,
}

impl<P> VulkanPipelineManager<P> {
    pub fn new() -> (manager: Self)
        ensures
            manager.pipeline_cache@ == Map::<u64, P>::empty(),
            manager.shader_manager.shader_cache.well_formed(),
            manager.shader_manager.shader_cache.entries@.len() == 0,
    {
        VulkanPipelineManager { pipeline_cache: HashMap::new(), shader_manager: ShaderManager::new() }
    }

    /// The pipeline cached under `key`, if any.
    pub fn fetch_pipeline(&self, key: u64) -> (pipeline: Option<&P>)
        ensures
            match pipeline {
                Some(p) => self.pipeline_cache@.contains_key(key) && *p == self.pipeline_cache@[key],
                None => !self.pipeline_cache@.contains_key(key),
            },
    {
        self.pipeline_cache.get(&key)
    }

    /// Caches a pipeline under `key`.
    pub fn cache_pipeline(&mut self, key: u64, pipeline: P)
        ensures
            final(self).pipeline_cache@ == old(self).pipeline_cache@.insert(key, pipeline),
            final(self).shader_manager == old(self).shader_manager,
    {
        self.pipeline_cache.insert(key, pipeline);
    }
}


/// A cached graphics pipeline, or the plan to build one from.
pub enum GraphicsPipelineRequest<'a, P> {
    Cached(&'a P),
    Create(GraphicsPipelinePlan),
}

/// A cached compute pipeline, or the plan to build one from.
pub enum ComputePipelineRequest<'a, P> {
    Cached(&'a P),
    Create(ComputePipelinePlan),
}

impl<P> VulkanPipelineManager<P> {
    /// The pipeline of `description`: the one cached under its key, or the
    /// plan to build it (see `plan_graphics_pipeline`); the caller then
    /// caches what it built under `plan.key`. A pipeline cached under the
    /// name is returned whatever the rest of the description says; only one
    /// still to be built needs a supported blend and usable descriptor sets.
    pub fn create_pipeline(&self, description: &PipelineDescription) -> (request: GraphicsPipelineRequest<'_, P>)
        requires
            !self.pipeline_cache@.contains_key(name_key(description.name@)) ==> {
                &&& description.blend != BlendType::Alpha
                &&& usable_sets(description.vertex_shader.descriptor_bindings@)
                &&& usable_sets(description.fragment_shader.descriptor_bindings@)
            },
        ensures
            match request {
                GraphicsPipelineRequest::Cached(p) => self.pipeline_cache@.contains_key(name_key(description.name@))
                    && *p == self.pipeline_cache@[name_key(description.name@)],
                GraphicsPipelineRequest::Create(plan) => !self.pipeline_cache@.contains_key(name_key(description.name@))
                    && plans_graphics_pipeline(plan, *description),
            },
    {
        let key = name_hash(description.name.as_str());
        match self.pipeline_cache.get(&key) {
            Some(p) => GraphicsPipelineRequest::Cached(p),
            None => GraphicsPipelineRequest::Create(plan_graphics_pipeline(description)),
        }
    }

    /// The compute pipeline of `description`, whose shader is `shader`:
    /// cached, or the plan to build it (see `plan_compute_pipeline`).
    pub fn create_compute_pipeline(&self, description: &ComputePipelineDescription, shader: &Shader) -> (request: ComputePipelineRequest<'_, P>)
        requires
            !self.pipeline_cache@.contains_key(name_key(description.compute_name@)) ==> usable_sets(shader.descriptor_bindings@),
        ensures
            match request {
                ComputePipelineRequest::Cached(p) => self.pipeline_cache@.contains_key(name_key(description.compute_name@))
                    && *p == self.pipeline_cache@[name_key(description.compute_name@)],
                ComputePipelineRequest::Create(plan) => !self.pipeline_cache@.contains_key(name_key(description.compute_name@))
                    && plans_compute_pipeline(plan, *description, *shader),
            },
    {
        let key = name_hash(description.compute_name.as_str());
        match self.pipeline_cache.get(&key) {
            Some(p) => ComputePipelineRequest::Cached(p),
            None => ComputePipelineRequest::Create(plan_compute_pipeline(description, shader)),
        }
    }
}


/// The vertex input of a pipeline: its vertex buffer bindings and the
/// attributes read from them.
pub struct VertexInputState {
    pub vertex_binding_descriptions: Vec<VertexInputBindingDescription>,
    pub vertex_attribute_descriptions: Vec<VertexInputAttributeDescription>,
}

impl PipelineDescription {
    pub fn get_vertex_input_state(&self) -> (state: VertexInputState)
        ensures
            state.vertex_binding_descriptions@ == self.vertex_binding_descriptions@,
            state.vertex_attribute_descriptions@ == self.vertex_attribute_descriptions@,
    {
        VertexInputState {
            vertex_binding_descriptions: self.vertex_binding_descriptions.clone(),
            vertex_attribute_descriptions: self.vertex_attribute_descriptions.clone(),
        }
    }
}

/// A built pipeline, by handle, with its layout and descriptor set
/// layouts.
pub struct Pipeline {
    pub pipeline: u64,
    pub pipeline_layout: u64,
    pub descriptor_set_layouts: Vec<u64>,
}

impl Pipeline {
    pub fn new(pipeline: u64, pipeline_layout: u64, descriptor_set_layouts: Vec<u64>) -> (p: Pipeline)
        ensures
            p.pipeline == pipeline,
            p.pipeline_layout == pipeline_layout,
            p.descriptor_set_layouts@ == descriptor_set_layouts@,
    {
        Pipeline { pipeline, pipeline_layout, descriptor_set_layouts }
    }

    pub fn get_pipeline(&self) -> (pipeline: u64)
        ensures
            pipeline == self.pipeline,
    {
        self.pipeline
    }

    pub fn get_pipeline_layout(&self) -> (layout: u64)
        ensures
            layout == self.pipeline_layout,
    {
        self.pipeline_layout
    }
}

} // verus!
