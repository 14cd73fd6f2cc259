use std::collections::hash_map::DefaultHasher;
use std::hash::{Hash, Hasher};
use std::sync::Arc;

use framegraph::context::pipeline as context_pipeline;
use framegraph::pipeline::{
    compute_bindings, descriptor_set_slots, fixed_function_state, merge_graphics_bindings, BlendType,
    ComputePipelineDescription, DepthStencilType, DescriptorBinding, RasterizationType, SetBindings,
};
use framegraph::pipeline_manager::{
    name_hash, plan_compute_pipeline, plan_graphics_pipeline, ComputePipelineRequest, GraphicsPipelineRequest,
    PipelineDescription, VulkanPipelineManager,
};
use framegraph::shader::{create_shader_bindings, shader_set_bindings, ReflectedBinding, ReflectedCount, Shader, ShaderManager};
use framegraph::vk;
use framegraph::context::shader::{translate_descriptor_type, ReflectDescriptorType};

fn binding(binding: u32, descriptor_type: i32) -> DescriptorBinding {
    DescriptorBinding { binding, descriptor_type, descriptor_count: 1, stage_flags: 0 }
}

fn set(set: u32, bindings: Vec<DescriptorBinding>) -> SetBindings {
    SetBindings { set, bindings }
}

fn std_hash(name: &str) -> u64 {
    let mut h = DefaultHasher::new();
    name.hash(&mut h);
    h.finish()
}

#[test]
fn pipelines_are_keyed_by_the_hash_of_their_name() {
    assert_eq!(name_hash("ubo pass"), std_hash("ubo pass"));
    assert_ne!(name_hash("ubo pass"), name_hash("blur pass"));
}

#[test]
fn legacy_pipelines_are_keyed_by_both_shader_names() {
    let d = context_pipeline::PipelineDescription::new(
        vec![],
        context_pipeline::RasterizationType::Standard,
        context_pipeline::DepthStencilType::Enable,
        context_pipeline::BlendType::Disabled,
        "a.vert",
        "a.frag",
    );
    let mut h = DefaultHasher::new();
    "a.vert".hash(&mut h);
    "a.frag".hash(&mut h);
    assert_eq!(context_pipeline::pipeline_key(&d), h.finish());
    let mut manager = context_pipeline::PipelineManager::<u32>::new();
    assert!(manager.fetch_pipeline(&d).is_none());
    manager.cache_pipeline(&d, 11);
    assert_eq!(manager.fetch_pipeline(&d), Some(&11));
}

#[test]
fn a_binding_used_by_both_shaders_is_one_binding_for_both_stages() {
    let vertex = vec![set(0, vec![binding(0, vk::DESCRIPTOR_UNIFORM_BUFFER)])];
    let fragment = vec![set(0, vec![binding(0, vk::DESCRIPTOR_UNIFORM_BUFFER), binding(1, vk::DESCRIPTOR_COMBINED_IMAGE_SAMPLER)])];
    let full = merge_graphics_bindings(&vertex, &fragment);
    assert_eq!(full.len(), 1);
    assert_eq!(full[0].set, 0);
    assert_eq!(full[0].bindings.len(), 2);
    assert_eq!(full[0].bindings[0].stage_flags, vk::SHADER_STAGE_VERTEX | vk::SHADER_STAGE_FRAGMENT);
    assert_eq!(full[0].bindings[1].binding, 1);
    assert_eq!(full[0].bindings[1].stage_flags, vk::SHADER_STAGE_FRAGMENT);
}

#[test]
fn bindings_of_another_type_are_not_merged() {
    let vertex = vec![set(0, vec![binding(0, vk::DESCRIPTOR_UNIFORM_BUFFER)])];
    let fragment = vec![set(0, vec![binding(0, vk::DESCRIPTOR_STORAGE_IMAGE)]), set(2, vec![binding(3, vk::DESCRIPTOR_UNIFORM_BUFFER)])];
    let full = merge_graphics_bindings(&vertex, &fragment);
    assert_eq!(full.len(), 2);
    assert_eq!(full[0].bindings.len(), 2);
    assert_eq!(full[0].bindings[0].stage_flags, vk::SHADER_STAGE_VERTEX);
    assert_eq!(full[0].bindings[1].stage_flags, vk::SHADER_STAGE_FRAGMENT);
    assert_eq!(full[1].set, 2);
}

#[test]
fn unused_sets_leave_holes_in_the_layout() {
    let full = vec![set(2, vec![]), set(0, vec![])];
    let slots = descriptor_set_slots(&full);
    assert_eq!(slots, vec![Some(1), None, Some(0)]);
    let none: Vec<SetBindings> = vec![];
    assert_eq!(descriptor_set_slots(&none), vec![None]);
}

#[test]
fn compute_bindings_are_for_the_compute_stage() {
    let sets = vec![set(1, vec![binding(0, vk::DESCRIPTOR_STORAGE_IMAGE), binding(1, vk::DESCRIPTOR_STORAGE_IMAGE)])];
    let full = compute_bindings(&sets);
    assert_eq!(full[0].set, 1);
    assert!(full[0].bindings.iter().all(|b| b.stage_flags == vk::SHADER_STAGE_COMPUTE));
}

#[test]
fn fixed_function_state_follows_the_description() {
    let s = fixed_function_state(RasterizationType::Standard, DepthStencilType::Enable, BlendType::Transparent);
    assert_eq!(s.rasterization.cull_mode, vk::CULL_MODE_NONE);
    assert!(s.depth_stencil.depth_test_enable && s.depth_stencil.depth_write_enable);
    assert_eq!(s.blend.attachments.len(), 1);
    assert!(s.blend.attachments[0].blend_enable);
    assert_eq!(s.blend.attachments[0].src_color_blend_factor, vk::BLEND_FACTOR_SRC_ALPHA);
    assert_eq!(s.blend.blend_constant, 1);
    let s = fixed_function_state(RasterizationType::Standard, DepthStencilType::Disable, BlendType::Disabled);
    assert!(!s.depth_stencil.depth_test_enable);
    assert!(!s.blend.attachments[0].blend_enable);
    assert_eq!(s.blend.logic_op, vk::LOGIC_OP_NO_OP);
    assert_eq!(s.blend.blend_constant, 0);
}

#[test]
fn legacy_rasterization_culls_back_faces() {
    let r = context_pipeline::generate_rasteration_state(context_pipeline::RasterizationType::Standard);
    assert_eq!(r.cull_mode, vk::CULL_MODE_BACK);
    let b = context_pipeline::generate_blend_state(context_pipeline::BlendType::Disabled);
    assert_eq!(b.logic_op, vk::LOGIC_OP_COPY);
    assert_eq!(b.attachments[0].src_color_blend_factor, vk::BLEND_FACTOR_ONE);
}

fn description(name: &str) -> PipelineDescription {
    let vs = Arc::new(Shader::new(1, vec![set(0, vec![binding(0, vk::DESCRIPTOR_UNIFORM_BUFFER)])]));
    let fs = Arc::new(Shader::new(2, vec![set(1, vec![binding(0, vk::DESCRIPTOR_COMBINED_IMAGE_SAMPLER)])]));
    PipelineDescription::new(vec![], vec![], vec![], RasterizationType::Standard, DepthStencilType::Enable, BlendType::Disabled, name, vs, fs)
}

#[test]
fn a_pipeline_is_planned_once_then_fetched() {
    let d = description("ubo");
    let mut manager = VulkanPipelineManager::<u32>::new();
    let key = match manager.create_pipeline(&d) {
        GraphicsPipelineRequest::Create(plan) => {
            assert_eq!(plan.key, name_hash("ubo"));
            assert_eq!(plan.bindings.len(), 2);
            assert_eq!(plan.set_slots, vec![Some(0), Some(1)]);
            plan.key
        },
        GraphicsPipelineRequest::Cached(_) => panic!("nothing cached yet"),
    };
    manager.cache_pipeline(key, 7);
    match manager.create_pipeline(&d) {
        GraphicsPipelineRequest::Cached(p) => assert_eq!(*p, 7),
        GraphicsPipelineRequest::Create(_) => panic!("should be cached"),
    }
    let plan = plan_graphics_pipeline(&d);
    assert_eq!(plan.bindings[0].bindings[0].stage_flags, vk::SHADER_STAGE_VERTEX);
    assert_eq!(plan.bindings[1].bindings[0].stage_flags, vk::SHADER_STAGE_FRAGMENT);
}

#[test]
fn compute_pipelines_are_planned_by_shader_name() {
    let d = ComputePipelineDescription::new("blur.comp");
    assert_eq!(d.compute_name, "blur.comp");
    let shader = Shader::new(3, vec![set(0, vec![binding(0, vk::DESCRIPTOR_STORAGE_IMAGE)])]);
    let manager = VulkanPipelineManager::<u32>::new();
    match manager.create_compute_pipeline(&d, &shader) {
        ComputePipelineRequest::Create(plan) => {
            assert_eq!(plan.key, name_hash("blur.comp"));
            assert_eq!(plan.bindings[0].bindings[0].stage_flags, vk::SHADER_STAGE_COMPUTE);
        },
        ComputePipelineRequest::Cached(_) => panic!("nothing cached yet"),
    }
    let plan = plan_compute_pipeline(&d, &shader);
    assert_eq!(plan.set_slots, vec![Some(0)]);
}

#[test]
fn reflected_bindings_are_grouped_by_set() {
    let r = vec![
        ReflectedBinding { set: 0, binding: 0, descriptor_type: 6, count: ReflectedCount::One },
        ReflectedBinding { set: 1, binding: 2, descriptor_type: 1, count: ReflectedCount::StaticSized(4) },
        ReflectedBinding { set: 0, binding: 1, descriptor_type: 1, count: ReflectedCount::One },
    ];
    let sets = shader_set_bindings(&r);
    assert_eq!(sets.len(), 2);
    assert_eq!(sets[0].set, 0);
    assert_eq!(sets[0].bindings, vec![binding(0, 6), binding(1, 1)]);
    assert_eq!(sets[1].bindings, vec![DescriptorBinding { binding: 2, descriptor_type: 1, descriptor_count: 4, stage_flags: 0 }]);
}

#[test]
fn invalid_spirv_has_no_bindings() {
    assert!(create_shader_bindings(&[1, 2, 3, 4, 5, 6, 7, 8]).is_none());
}

#[test]
fn a_module_without_resources_has_no_sets() {
    let words: [u32; 5] = [0x0723_0203, 0x0001_0000, 0, 1, 0];
    let mut bytes = Vec::new();
    for w in words {
        bytes.extend_from_slice(&w.to_le_bytes());
    }
    let sets = create_shader_bindings(&bytes).unwrap();
    assert!(sets.is_empty());
}

#[test]
fn shaders_are_cached_by_file_name() {
    let mut m = ShaderManager::<u32>::new();
    assert!(m.load_shader("a.spv").is_none());
    m.cache_shader("a.spv", 5);
    assert_eq!(m.load_shader("a.spv"), Some(&5));
    assert!(m.load_shader("b.spv").is_none());
}

#[test]
fn descriptor_types_translate() {
    assert_eq!(translate_descriptor_type(ReflectDescriptorType::UniformBuffer), vk::DESCRIPTOR_UNIFORM_BUFFER);
    assert_eq!(translate_descriptor_type(ReflectDescriptorType::CombinedImageSampler), vk::DESCRIPTOR_COMBINED_IMAGE_SAMPLER);
    assert_eq!(translate_descriptor_type(ReflectDescriptorType::AccelerationStructureNV), 1000165000);
}
