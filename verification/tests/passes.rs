use framegraph::attachment::AttachmentReference;
use framegraph::passes::imgui_draw::{generate_passes, imgui_pipeline_description, ImguiDrawList, DRAW_VERT_SIZE};
use framegraph::pipeline::BlendType;
use framegraph::shader::Shader;
use std::sync::Arc;
use std::collections::HashMap;
use framegraph::resource::{ImageInfo, ResourceMap, ResourceType};
use framegraph::binding::BindingType;
use framegraph::image::{next_frame_in_flight, present_transition, QUEUE_FAMILY_IGNORED};
use framegraph::pass_type::PassType;
use framegraph::passes::blit::{self, blit_region, Offset3D};
use framegraph::passes::blur::{self, blur_dispatch};
use framegraph::passes::clear::{clear, clear_kind, ClearKind};
use framegraph::profiling::GpuSpanManager;
use framegraph::vk;

type Pass = PassType<u8, (), (), ()>;

#[test]
fn a_blit_copies_its_source_into_its_destination() {
    let pass: Pass = blit::generate_pass(3, 4, 1);
    match pass {
        PassType::Copy(node) => {
            assert_eq!(node.copy_sources, vec![3]);
            assert_eq!(node.copy_dests, vec![4]);
            assert_eq!(node.name, "blit");
        },
        _ => panic!("copy pass expected"),
    }
    let region = blit_region(0, 2, [(0, 0), (640, 480)]);
    assert_eq!(region.src_end, Offset3D { x: 640, y: 480, z: 1 });
    assert_eq!(region.dst_start, Offset3D { x: 0, y: 0, z: 0 });
    assert_eq!(region.dst_subresource.base_array_layer, 2);
    assert_eq!(region.src_subresource.aspect_mask, vk::ASPECT_COLOR);
}

#[test]
fn clears_are_named_for_what_they_clear() {
    assert_eq!(clear_kind(vk::ASPECT_COLOR), ClearKind::Color);
    assert_eq!(clear_kind(vk::ASPECT_DEPTH | vk::ASPECT_STENCIL), ClearKind::Depth);
    let pass: Pass = clear(7, vk::ASPECT_DEPTH, 0);
    match pass {
        PassType::Graphics(node) => {
            assert_eq!(node.name, "Depth clear");
            assert_eq!(node.outputs.len(), 1);
            assert_eq!(node.outputs[0].resource, 7);
            assert_eq!(node.outputs[0].binding_info.access, vk::ACCESS_TRANSFER_WRITE);
            assert!(matches!(node.outputs[0].binding_info.binding_type, BindingType::Image(i) if i.layout == vk::LAYOUT_GENERAL));
        },
        _ => panic!("graphics pass expected"),
    }
}

#[test]
fn a_blur_reads_its_source_and_writes_its_target() {
    let pass: Pass = blur::generate_pass(1, 2, 0);
    match pass {
        PassType::Compute(node) => {
            assert_eq!(node.inputs[0].resource, 1);
            assert_eq!(node.outputs[0].resource, 2);
            assert_eq!(node.outputs[0].binding_info.slot, 1);
            assert_eq!(node.pipeline_description.compute_name, "blur-comp.spv");
        },
        _ => panic!("compute pass expected"),
    }
    assert_eq!(blur_dispatch(100, 64), (12, 8, 1));
}

#[test]
fn presenting_follows_the_transfer() {
    let (src, dst, b) = present_transition(5);
    assert_eq!((src, dst), (vk::STAGE_TRANSFER, vk::STAGE_BOTTOM_OF_PIPE));
    assert_eq!(b.new_layout, vk::LAYOUT_PRESENT_SRC);
    assert_eq!(b.src_queue_family, QUEUE_FAMILY_IGNORED);
    assert_eq!(next_frame_in_flight(0), 1);
    assert_eq!(next_frame_in_flight(1), 0);
}

#[test]
fn flushing_the_current_frame_keeps_it_current() {
    let mut m: GpuSpanManager<u8, ()> = GpuSpanManager::new(1, ());
    let _ = m.reset(&vec![]);
    let q = m.new_gpu_span();
    let _ = m.close_gpu_span(3, q);
    assert_eq!(m.flush_current(&vec![100, 250]), vec![(100, 250)]);
    assert_eq!(m.frame_index, 0);
}

#[test]
fn each_draw_list_gets_its_own_interface_pass() {
    let d = imgui_pipeline_description(Arc::new(Shader::new(1, vec![])), Arc::new(Shader::new(2, vec![])));
    assert_eq!(d.name, "imgui");
    assert!(d.blend == BlendType::Transparent);
    assert_eq!(d.vertex_binding_descriptions[0].stride, DRAW_VERT_SIZE);
    assert_eq!(d.vertex_attribute_descriptions[2].offset, 16);

    let target = AttachmentReference { resource_image: 9, format: vk::FORMAT_R8G8B8A8_UNORM, samples: 1, layout: vk::LAYOUT_UNDEFINED };
    let lists = vec![
        ImguiDrawList { vtx_buffer: 10, idx_buffer: 11, pipeline_description: 1u8, fill_callback: 100u8 },
        ImguiDrawList { vtx_buffer: 20, idx_buffer: 21, pipeline_description: 2u8, fill_callback: 200u8 },
    ];
    let mut resources: ResourceMap = HashMap::new();
    resources.insert(9, ResourceType::Image(ImageInfo {
        format: vk::FORMAT_R8G8B8A8_UNORM, layout: vk::LAYOUT_UNDEFINED, width: 640, height: 480, depth: 1, has_sampler: false,
    }));
    let passes: Vec<PassType<u8, u8, (), ()>> = generate_passes(lists, target, &resources, 5, 6, ());
    assert_eq!(passes.len(), 2);
    match &passes[1] {
        PassType::Graphics(node) => {
            assert_eq!(node.fill_callback, 200);
            assert_eq!(node.pipeline_description, Some(2));
            assert_eq!(node.tagged_resources, vec![21, 20]);
            assert_eq!(node.inputs.len(), 2);
            assert_eq!(node.inputs[0].resource, 5);
            assert_eq!(node.inputs[1].resource, 6);
            let scissor = node.scissor.unwrap();
            assert_eq!((scissor.width, scissor.height), (640, 480));
        },
        _ => panic!("graphics pass expected"),
    }
}
