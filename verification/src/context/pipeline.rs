//! Graphics pipelines named by their vertex and fragment shaders.

use vstd::prelude::*;
use std::collections::HashMap;
use std::collections::hash_map::DefaultHasher;
use std::hash::Hasher;
use vstd::std_specs::hash::DefaultHasherAdditionalSpecFns;
use crate::pipeline::{DepthStencilState, RasterizationState, BlendAttachmentState, StencilOpState};
use crate::pipeline_manager::{hash_str_into, str_hash_writes};
use crate::vk;

verus! {

broadcast use vstd::std_specs::hash::group_hash_axioms;

#[derive(Clone, Copy, Debug, PartialEq, Eq, Structural)]
pub enum BlendType {
    Disabled,
    Alpha,
    Transparent,
}

#[derive(Clone, Copy, Debug, PartialEq, Eq, Structural)]
pub enum DepthStencilType {
    Disable,
    Enable,
}

#[derive(Clone, Copy, Debug, PartialEq, Eq, Structural)]
pub enum RasterizationType {
    Standard,
}

/// A pipeline by the names of its two shaders, with its fixed-function
/// choices.
pub struct PipelineDescription {
    pub dynamic_states: Vec<i32>,
    pub rasterization: RasterizationType,
    pub depth_stencil: DepthStencilType,
    pub blend: BlendType,
    pub vertex_name: String,
    pub fragment_name: String,
}

impl PipelineDescription {
    pub fn new(
        dynamic_states: Vec<i32>,
        rasterization: RasterizationType,
        depth_stencil: DepthStencilType,
        blend: BlendType,
        vertex_name: &str,
        fragment_name: &str,
    ) -> (description: PipelineDescription)
        ensures
            description.dynamic_states@ == dynamic_states@,
            description.rasterization == rasterization,
            description.depth_stencil == depth_stencil,
            description.blend == blend,
            description.vertex_name@ == vertex_name@,
            description.fragment_name@ == fragment_name@,
    {
        PipelineDescription {
            dynamic_states,
            rasterization,
            depth_stencil,
            blend,
            vertex_name: vertex_name.to_owned(),
            fragment_name: fragment_name.to_owned(),
        }
    }
}

/// The cache key of a pipeline: its vertex shader's name, then its
/// fragment shader's name, hashed.
pub open spec fn shader_names_key(vertex_name: Seq<char>, fragment_name: Seq<char>) -> u64 {
    DefaultHasher::spec_finish(str_hash_writes(str_hash_writes(Seq::empty(), vertex_name), fragment_name))
}

pub fn pipeline_key(description: &PipelineDescription) -> (key: u64)
    ensures
        key == shader_names_key(description.vertex_name@, description.fragment_name@),
{
    let mut hasher = DefaultHasher::new();
    hash_str_into(description.vertex_name.as_str(), &mut hasher);
    hash_str_into(description.fragment_name.as_str(), &mut hasher);
    hasher.finish()
}

/// Filled, clockwise front faces, back faces culled.
pub open spec fn rasterization_state(rasterization: RasterizationType) -> RasterizationState {
    match rasterization {
        RasterizationType::Standard => RasterizationState {
            depth_clamp_enable: false,
            cull_mode: vk::CULL_MODE_BACK,
            front_face: vk::FRONT_FACE_CLOCKWISE,
            polygon_mode: vk::POLYGON_MODE_FILL,
            rasterizer_discard_enable: false,
            depth_bias_enable: false,
            line_width: 1,
        },
    }
}

pub fn generate_rasteration_state(rasterization_type: RasterizationType) -> (state: RasterizationState)
    ensures
        state == rasterization_state(rasterization_type),
{
    match rasterization_type {
        RasterizationType::Standard => RasterizationState {
            depth_clamp_enable: false,
            cull_mode: vk::CULL_MODE_BACK,
            front_face: vk::FRONT_FACE_CLOCKWISE,
            polygon_mode: vk::POLYGON_MODE_FILL,
            rasterizer_discard_enable: false,
            depth_bias_enable: false,
            line_width: 1,
        },
    }
}

/// Depth test and write with less-or-equal when enabled, neither when
/// disabled; stencil kept.
pub fn generate_depth_stencil_state(depth_stencil_type: DepthStencilType) -> (state: DepthStencilState)
    ensures
        state.depth_test_enable == (depth_stencil_type == DepthStencilType::Enable),
        state.depth_write_enable == (depth_stencil_type == DepthStencilType::Enable),
        state.depth_compare_op == vk::COMPARE_OP_LESS_OR_EQUAL,
        !state.depth_bounds_test_enable,
        !state.stencil_test_enable,
        state.front == crate::pipeline::stencil_keep(),
        state.back == crate::pipeline::stencil_keep(),
        state.min_depth_bounds == 0,
        state.max_depth_bounds == 1,
{
    let keep = StencilOpState {
        fail_op: vk::STENCIL_OP_KEEP,
        pass_op: vk::STENCIL_OP_KEEP,
        depth_fail_op: vk::STENCIL_OP_KEEP,
        compare_op: vk::COMPARE_OP_ALWAYS,
        compare_mask: 0,
        write_mask: 0,
        reference: 0,
    };
    let enable = match depth_stencil_type {
        DepthStencilType::Enable => true,
        DepthStencilType::Disable => false,
    };
    DepthStencilState {
        depth_test_enable: enable,
        depth_write_enable: enable,
        depth_compare_op: vk::COMPARE_OP_LESS_OR_EQUAL,
        depth_bounds_test_enable: false,
        stencil_test_enable: false,
        front: keep,
        back: keep,
        min_depth_bounds: 0,
        max_depth_bounds: 1,
    }
}

/// Blending state; only "no blending" has settings: one attachment that
/// writes the source color unchanged, a copy logic operation (disabled),
/// constants zero.
pub struct ColorBlendState {
    pub logic_op_enable: bool,
    pub logic_op: i32,
    pub attachments: Vec<BlendAttachmentState>,
    pub blend_constant: u32,
}

pub fn generate_blend_state(blend_type: BlendType) -> (state: ColorBlendState)
    requires
        blend_type == BlendType::Disabled,
    ensures
        !state.logic_op_enable,
        state.logic_op == vk::LOGIC_OP_COPY,
        state.blend_constant == 0,
        state.attachments@ == seq![BlendAttachmentState {
            blend_enable: false,
            src_color_blend_factor: vk::BLEND_FACTOR_ONE,
            dst_color_blend_factor: vk::BLEND_FACTOR_ZERO,
            color_blend_op: vk::BLEND_OP_ADD,
            src_alpha_blend_factor: vk::BLEND_FACTOR_ONE,
            dst_alpha_blend_factor: vk::BLEND_FACTOR_ZERO,
            alpha_blend_op: vk::BLEND_OP_ADD,
            color_write_mask: vk::COLOR_COMPONENT_RGBA,
        }],
{
    ColorBlendState {
        logic_op_enable: false,
        logic_op: vk::LOGIC_OP_COPY,
        attachments: vec![BlendAttachmentState {
            blend_enable: false,
            src_color_blend_factor: vk::BLEND_FACTOR_ONE,
            dst_color_blend_factor: vk::BLEND_FACTOR_ZERO,
            color_blend_op: vk::BLEND_OP_ADD,
            src_alpha_blend_factor: vk::BLEND_FACTOR_ONE,
            dst_alpha_blend_factor: vk::BLEND_FACTOR_ZERO,
            alpha_blend_op: vk::BLEND_OP_ADD,
            color_write_mask: vk::COLOR_COMPONENT_RGBA,
        }],
        blend_constant: 0,
    }
}

/// The pipelines built so far, by key. `P` is the pipeline object.
pub struct PipelineManager<P> {
    pub pipeline_cache: HashMap<u64, P>,
}

impl<P> PipelineManager<P> {
    pub fn new() -> (manager: Self)
        ensures
            manager.pipeline_cache@ == Map::<u64, P>::empty(),
    {
        PipelineManager { pipeline_cache: HashMap::new() }
    }

    /// The pipeline of `description`, if it was built before.
    pub fn fetch_pipeline(&self, description: &PipelineDescription) -> (pipeline: Option<&P>)
        ensures
            ({
                let key = shader_names_key(description.vertex_name@, description.fragment_name@);
                match pipeline {
                    Some(p) => self.pipeline_cache@.contains_key(key) && *p == self.pipeline_cache@[key],
                    None => !self.pipeline_cache@.contains_key(key),
                }
            }),
    {
        let key = pipeline_key(description);
        self.pipeline_cache.get(&key)
    }

    /// Remembers the pipeline built for `description`.
    pub fn cache_pipeline(&mut self, description: &PipelineDescription, pipeline: P)
        ensures
            final(self).pipeline_cache@ == old(self).pipeline_cache@.insert(
                shader_names_key(description.vertex_name@, description.fragment_name@), pipeline),
    {
        let key = pipeline_key(description);
        self.pipeline_cache.insert(key, pipeline);
    }
}

} // verus!
