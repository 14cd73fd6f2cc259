use std::sync::Arc;

use framegraph::attachment::AttachmentReference;
use framegraph::compute_pass_node::ComputePassNode;
use framegraph::context::device::get_queue_family_indices;
use framegraph::copy_pass_node::CopyPassNode;
use framegraph::executor::{graphics_node_steps, GraphicsStep};
use framegraph::graphics_pass_node::{GraphicsPassNode, Rect2D};
use framegraph::image::widen_to_rgba;
use framegraph::pass_type::PassType;
use framegraph::passes::shadow::{ShadowMappingObjects, ShadowPass};
use framegraph::pipeline::{BlendType, DepthStencilType, RasterizationType};
use framegraph::pipeline_manager::{
    name_hash, GraphicsPipelineRequest, PipelineDescription, VertexInputAttributeDescription,
    VertexInputBindingDescription, VulkanPipelineManager,
};
use framegraph::present_pass_node::PresentPassNode;
use framegraph::profiling::FrameSpans;
use framegraph::shader::Shader;
use framegraph::vk;

fn object(mvp: u64, stride: u32) -> ShadowMappingObjects {
    ShadowMappingObjects {
        vertex_buffer: mvp + 100,
        index_buffer: mvp + 200,
        index_count: 36,
        vertex_binding: VertexInputBindingDescription { binding: 0, stride, input_rate: vk::VERTEX_INPUT_RATE_VERTEX },
        vertex_attributes: vec![VertexInputAttributeDescription { location: 0, binding: 0, format: vk::FORMAT_R32G32_SFLOAT, offset: 0 }],
        light_mvp_buffer: mvp,
    }
}

#[test]
fn the_shadow_pass_reads_each_light_matrix_into_its_depth_target() {
    let shadow = ShadowPass::new(Arc::new(Shader::new(1, vec![])), Arc::new(Shader::new(2, vec![])));
    let depth = AttachmentReference { resource_image: 9, format: vk::FORMAT_D32_SFLOAT, samples: 1, layout: vk::LAYOUT_UNDEFINED };
    let objects = vec![object(5, 32), object(6, 48)];
    let pass: PassType<u8, PipelineDescription, (), ()> = shadow.generate_pass(depth, &objects, 42u8);
    match pass {
        PassType::Graphics(node) => {
            assert_eq!(node.name, "shadow_pass");
            assert!(node.render_targets.is_empty());
            assert_eq!(node.depth_target, Some(depth));
            assert_eq!(node.inputs.len(), 2);
            assert_eq!(node.inputs[1].resource, 6);
            assert_eq!(node.inputs[0].binding_info.set, 0);
            assert_eq!(node.inputs[0].binding_info.slot, 0);
            assert_eq!(node.inputs[0].binding_info.stage, vk::STAGE_VERTEX_SHADER);
            assert_eq!(node.fill_callback, 42);
            let d = node.pipeline_description.unwrap();
            assert_eq!(d.name, "shadow_map");
            assert_eq!(d.vertex_binding_descriptions[0].stride, 32);
            assert!(d.depth_stencil == DepthStencilType::Enable);
            assert!(d.blend == BlendType::Disabled);
            assert!(d.rasterization == RasterizationType::Standard);
        },
        _ => panic!("graphics pass expected"),
    }
}

#[test]
fn a_shadow_pass_without_objects_has_no_vertex_layout() {
    let shadow = ShadowPass::new(Arc::new(Shader::new(1, vec![])), Arc::new(Shader::new(2, vec![])));
    let depth = AttachmentReference { resource_image: 9, format: vk::FORMAT_D32_SFLOAT, samples: 1, layout: vk::LAYOUT_UNDEFINED };
    let pass: PassType<u8, PipelineDescription, (), ()> = shadow.generate_pass(depth, &vec![], 0u8);
    match pass {
        PassType::Graphics(node) => {
            assert!(node.inputs.is_empty());
            assert!(node.pipeline_description.unwrap().vertex_binding_descriptions.is_empty());
        },
        _ => panic!("graphics pass expected"),
    }
}

#[test]
fn a_graphics_pass_with_a_pipeline_records_inside_a_render_pass() {
    let node = GraphicsPassNode::<u8, u8, u8, ()>::builder("g".to_string())
        .pipeline_description(1)
        .viewport(2)
        .scissor(Rect2D { x: 0, y: 0, width: 4, height: 4 })
        .fill_commands(0)
        .build::<()>()
        .ok()
        .unwrap();
    assert_eq!(graphics_node_steps(&node), vec![
        GraphicsStep::PrepareRenderPass,
        GraphicsStep::WriteDescriptorSets,
        GraphicsStep::BeginRenderPass,
        GraphicsStep::BindPipeline,
        GraphicsStep::SetViewport,
        GraphicsStep::SetScissor,
        GraphicsStep::RecordCommands,
        GraphicsStep::EndRenderPass,
    ]);
    let bare = GraphicsPassNode::<u8, u8, u8, ()>::builder("h".to_string()).fill_commands(0).build::<()>().ok().unwrap();
    assert_eq!(graphics_node_steps(&bare), vec![GraphicsStep::RecordCommands]);
}

#[test]
fn rgb_pixels_gain_an_opaque_alpha() {
    assert_eq!(widen_to_rgba(&vec![1, 2, 3, 4, 5, 6]), vec![1, 2, 3, 255, 4, 5, 6, 255]);
    assert_eq!(widen_to_rgba(&vec![7, 8, 9, 10]), vec![7, 8, 9, 255]);
    assert!(widen_to_rgba(&vec![]).is_empty());
}

#[test]
fn without_a_surface_no_family_presents() {
    let g = vk::QUEUE_GRAPHICS;
    let c = vk::QUEUE_COMPUTE;
    let q = get_queue_family_indices(&vec![g | c, g], &vec![true, true], false);
    assert_eq!(q.graphics, Some(0));
    assert_eq!(q.compute, Some(0));
    assert_eq!(q.present, None);
}

#[test]
fn builders_report_what_is_missing() {
    let present = PresentPassNode::builder("present".to_string()).build();
    assert_eq!(present.err(), Some("PresentPassNode requires a swapchain image"));
    let copy = CopyPassNode::<u8>::builder("copy".to_string()).copy_src(1).build();
    assert_eq!(copy.err(), Some("CopyPassNodeBuilder was incomplete before building"));
    let compute = ComputePassNode::<u8>::builder("compute".to_string()).build();
    assert_eq!(compute.err(), Some("ComputePassNodeBuilder was incomplete before building"));
}

#[test]
fn a_span_may_close_over_any_start_query() {
    let mut frame: FrameSpans<&str> = FrameSpans::new();
    frame.reset();
    let end = frame.close_gpu_span("late", 500);
    assert_eq!(end, 0);
    assert_eq!(frame.active_spans[0].start_query_id, 500);
    assert_eq!(frame.query_index, 1);
}

#[test]
fn a_cached_pipeline_is_returned_whatever_the_blend() {
    let vs = Arc::new(Shader::new(1, vec![]));
    let fs = Arc::new(Shader::new(2, vec![]));
    let d = PipelineDescription::new(vec![], vec![], vec![], RasterizationType::Standard, DepthStencilType::Enable,
        BlendType::Alpha, "glass", vs, fs);
    let mut manager = VulkanPipelineManager::<u32>::new();
    manager.cache_pipeline(name_hash("glass"), 3);
    match manager.create_pipeline(&d) {
        GraphicsPipelineRequest::Cached(p) => assert_eq!(*p, 3),
        GraphicsPipelineRequest::Create(_) => panic!("should be cached"),
    }
}
