use std::collections::HashMap;

use framegraph::binding::{BindingInfo, BindingType, ImageBindingInfo, ResourceBinding};
use framegraph::compute_pass_node::ComputePassNode;
use framegraph::attachment::AttachmentReference;
use framegraph::copy_pass_node::CopyPassNode;
use framegraph::graphics_pass_node::GraphicsPassNode;
use framegraph::linker::{is_write, link_compute_node, link_copy_node, link_graphics_node, UsageCache};
use framegraph::pipeline::ComputePipelineDescription;
use framegraph::resource::{ImageInfo, ResourceType};
use framegraph::vk;

fn storage(resource: u64, layout: i32, access: u32) -> ResourceBinding {
    ResourceBinding {
        resource,
        binding_info: BindingInfo {
            binding_type: BindingType::Image(ImageBindingInfo { layout }),
            set: 0,
            slot: 0,
            stage: vk::STAGE_COMPUTE_SHADER,
            access,
        },
    }
}

fn pass(inputs: Vec<ResourceBinding>, outputs: Vec<ResourceBinding>) -> ComputePassNode<u8> {
    let mut b = ComputePassNode::<u8>::builder("compute".to_string())
        .pipeline_description(ComputePipelineDescription::new("c.spv"));
    for i in inputs {
        b = b.input(i);
    }
    for o in outputs {
        b = b.output(o);
    }
    b.fill_commands(0).build().ok().unwrap()
}

fn resources() -> HashMap<u64, ResourceType> {
    let mut r = HashMap::new();
    r.insert(1, ResourceType::Image(ImageInfo {
        format: vk::FORMAT_R8G8B8A8_UNORM,
        layout: vk::LAYOUT_UNDEFINED,
        width: 4,
        height: 4,
        depth: 1,
        has_sampler: false,
    }));
    r
}

#[test]
fn writes_are_recognised() {
    assert!(is_write(vk::ACCESS_SHADER_WRITE, vk::STAGE_COMPUTE_SHADER));
    assert!(is_write(vk::ACCESS_NONE, vk::STAGE_COLOR_ATTACHMENT_OUTPUT));
    assert!(!is_write(vk::ACCESS_SHADER_READ, vk::STAGE_FRAGMENT_SHADER));
}

#[test]
fn reading_again_in_the_same_layout_needs_no_barrier() {
    let mut r = resources();
    let mut cache: UsageCache = HashMap::new();
    let read = storage(1, vk::LAYOUT_SHADER_READ_ONLY_OPTIMAL, vk::ACCESS_SHADER_READ);
    let mut node = pass(vec![read, read], vec![]);
    let barriers = link_compute_node(&mut node, &mut cache, &mut r);
    assert_eq!(barriers.image_barriers.len(), 1);
    assert_eq!(barriers.image_barriers[0].old_layout, vk::LAYOUT_UNDEFINED);
    assert_eq!(barriers.image_barriers[0].new_layout, vk::LAYOUT_SHADER_READ_ONLY_OPTIMAL);
    let mut again = pass(vec![read], vec![]);
    assert!(link_compute_node(&mut again, &mut cache, &mut r).image_barriers.is_empty());
}

#[test]
fn reading_after_a_write_needs_a_barrier_from_the_write() {
    let mut r = resources();
    let mut cache: UsageCache = HashMap::new();
    let write = storage(1, vk::LAYOUT_GENERAL, vk::ACCESS_SHADER_WRITE);
    let mut writer = pass(vec![], vec![write]);
    let _ = link_compute_node(&mut writer, &mut cache, &mut r);
    let read = storage(1, vk::LAYOUT_GENERAL, vk::ACCESS_SHADER_READ);
    let mut reader = pass(vec![read], vec![]);
    let barriers = link_compute_node(&mut reader, &mut cache, &mut r);
    assert_eq!(barriers.image_barriers.len(), 1);
    assert_eq!(barriers.image_barriers[0].source_access, vk::ACCESS_SHADER_WRITE);
    assert_eq!(barriers.image_barriers[0].dest_access, vk::ACCESS_SHADER_READ);
    assert_eq!(barriers.image_barriers[0].old_layout, vk::LAYOUT_GENERAL);
    assert_eq!(cache[&1].access, vk::ACCESS_SHADER_READ);
    match r[&1] {
        ResourceType::Image(i) => assert_eq!(i.layout, vk::LAYOUT_GENERAL),
        _ => panic!("image expected"),
    }
}

#[test]
fn a_copy_records_its_transfer_usages() {
    let mut cache: UsageCache = HashMap::new();
    let mut copy = CopyPassNode::<u8>::builder("copy".to_string()).copy_src(1).copy_dst(2).fill_commands(0).build().ok().unwrap();
    let barriers = link_copy_node(&mut copy, &mut cache);
    assert_eq!(barriers.image_barriers.len(), 2);
    assert_eq!(cache[&1].layout, Some(vk::LAYOUT_TRANSFER_SRC_OPTIMAL));
    assert_eq!(cache[&1].access, vk::ACCESS_TRANSFER_READ);
    assert_eq!(cache[&2].layout, Some(vk::LAYOUT_TRANSFER_DST_OPTIMAL));
    assert_eq!(cache[&2].access, vk::ACCESS_TRANSFER_WRITE);
    // A later copy out of the destination starts from the transfer-destination layout.
    let mut next = CopyPassNode::<u8>::builder("copy".to_string()).copy_src(2).fill_commands(0).build().ok().unwrap();
    let barriers = link_copy_node(&mut next, &mut cache);
    assert_eq!(barriers.image_barriers[0].old_layout, vk::LAYOUT_TRANSFER_DST_OPTIMAL);
    assert_eq!(barriers.image_barriers[0].source_access, vk::ACCESS_TRANSFER_WRITE);
    assert_eq!(cache[&2].layout, Some(vk::LAYOUT_TRANSFER_SRC_OPTIMAL));
}

#[test]
fn a_graphics_pass_records_its_depth_usage() {
    let mut r = resources();
    let mut cache: UsageCache = HashMap::new();
    let depth = AttachmentReference { resource_image: 1, format: vk::FORMAT_D32_SFLOAT, samples: 1, layout: vk::LAYOUT_UNDEFINED };
    let mut first = GraphicsPassNode::<u8, (), (), ()>::builder("g".to_string())
        .depth_target(depth).fill_commands(0).build::<()>().ok().unwrap();
    let barriers = link_graphics_node(&mut first, &mut cache, &mut r);
    assert!(barriers.image_barriers.is_empty());
    assert_eq!(cache[&1].layout, Some(vk::LAYOUT_DEPTH_STENCIL_ATTACHMENT_OPTIMAL));
    // A later read of the depth image starts its barrier from the depth layout.
    let read = storage(1, vk::LAYOUT_SHADER_READ_ONLY_OPTIMAL, vk::ACCESS_SHADER_READ);
    let mut reader = pass(vec![read], vec![]);
    let barriers = link_compute_node(&mut reader, &mut cache, &mut r);
    assert_eq!(barriers.image_barriers.len(), 1);
    assert_eq!(barriers.image_barriers[0].old_layout, vk::LAYOUT_DEPTH_STENCIL_ATTACHMENT_OPTIMAL);
    assert_eq!(barriers.image_barriers[0].new_layout, vk::LAYOUT_SHADER_READ_ONLY_OPTIMAL);
}
