use std::collections::HashMap;

use framegraph::attachment::AttachmentReference;
use framegraph::copy_pass_node::CopyPassNode;
use framegraph::graphics_pass_node::GraphicsPassNode;
use framegraph::pass_type::PassType;
use framegraph::present_pass_node::PresentPassNode;
use framegraph::resource::{ImageInfo, ResourceType};
use framegraph::vk;
use framegraph::vulkan_frame_graph::VulkanFrameGraph;

type Pass = PassType<u8, (), (), ()>;

fn image(format: i32, layout: i32) -> ResourceType {
    ResourceType::Image(ImageInfo { format, layout, width: 64, height: 32, depth: 1, has_sampler: false })
}

fn resources() -> HashMap<u64, ResourceType> {
    let mut r = HashMap::new();
    r.insert(1, image(vk::FORMAT_R8G8B8A8_UNORM, vk::LAYOUT_UNDEFINED));
    r.insert(2, image(vk::FORMAT_R8G8B8A8_SRGB, vk::LAYOUT_UNDEFINED));
    r.insert(3, image(vk::FORMAT_R8G8B8A8_UNORM, vk::LAYOUT_UNDEFINED));
    r
}

fn draw_pass(r: &HashMap<u64, ResourceType>, target: u64) -> Pass {
    let rt = AttachmentReference::new(r, target, 1);
    let node = GraphicsPassNode::<u8, (), (), ()>::builder("draw".to_string())
        .render_target(rt)
        .fill_commands(0u8)
        .build::<()>()
        .unwrap();
    PassType::Graphics(node)
}

fn blit_pass(src: u64, dst: u64) -> Pass {
    let node = CopyPassNode::<u8>::builder("blit".to_string())
        .copy_src(src)
        .copy_dst(dst)
        .fill_commands(0u8)
        .build()
        .unwrap();
    PassType::Copy(node)
}

fn present_pass(image: u64) -> Pass {
    PassType::Present(PresentPassNode::builder("present".to_string()).swapchain_image(image).build().unwrap())
}

#[test]
fn passes_run_writers_first_and_root_last() {
    let mut r = resources();
    let mut graph = VulkanFrameGraph::<u32, u32>::new();
    let mut frame = graph.start::<u8, (), (), ()>();
    frame.start(present_pass(2));
    frame.add_node(blit_pass(1, 2));
    frame.add_node(draw_pass(&r, 1));
    let lists = graph.end(&mut frame, &mut r).ok().unwrap();
    assert_eq!(lists.len(), 1);
    assert_eq!(lists[0].nodes, vec![2, 1, 0]);
    assert_eq!(*lists[0].nodes.last().unwrap(), frame.get_root_index());
}

#[test]
fn passes_the_root_does_not_need_are_dropped() {
    let mut r = resources();
    let mut graph = VulkanFrameGraph::<u32, u32>::new();
    let mut frame = graph.start::<u8, (), (), ()>();
    frame.start(present_pass(2));
    frame.add_node(blit_pass(1, 2));
    frame.add_node(draw_pass(&r, 3));
    let lists = graph.end(&mut frame, &mut r).ok().unwrap();
    assert_eq!(lists[0].nodes, vec![1, 0]);
}

#[test]
fn linking_moves_images_into_the_layouts_passes_use() {
    let mut r = resources();
    let mut graph = VulkanFrameGraph::<u32, u32>::new();
    let mut frame = graph.start::<u8, (), (), ()>();
    frame.start(present_pass(2));
    frame.add_node(blit_pass(1, 2));
    frame.add_node(draw_pass(&r, 1));
    let _ = graph.end(&mut frame, &mut r).ok().unwrap();

    // A render target's first use needs no barrier: the render pass takes
    // it from whatever layout it is in.
    let draw = &graph.node_barriers[&2];
    assert_eq!(draw.image_barriers.len(), 0);

    let blit = &graph.node_barriers[&1];
    assert_eq!(blit.image_barriers.len(), 2);
    assert_eq!(blit.image_barriers[0].resource, 1);
    assert_eq!(blit.image_barriers[0].old_layout, vk::LAYOUT_COLOR_ATTACHMENT_OPTIMAL);
    assert_eq!(blit.image_barriers[0].new_layout, vk::LAYOUT_TRANSFER_SRC_OPTIMAL);
    assert_eq!(blit.image_barriers[1].resource, 2);
    assert_eq!(blit.image_barriers[1].new_layout, vk::LAYOUT_TRANSFER_DST_OPTIMAL);

    let present = &graph.node_barriers[&0];
    assert_eq!(present.image_barriers.len(), 1);
    assert_eq!(present.image_barriers[0].new_layout, vk::LAYOUT_PRESENT_SRC);

    match r[&2] {
        ResourceType::Image(i) => assert_eq!(i.layout, vk::LAYOUT_PRESENT_SRC),
        _ => panic!("image expected"),
    }
}

#[test]
fn a_cycle_is_an_error() {
    let mut r = resources();
    let mut graph = VulkanFrameGraph::<u32, u32>::new();
    let mut frame = graph.start::<u8, (), (), ()>();
    frame.start(blit_pass(1, 2));
    frame.add_node(blit_pass(2, 1));
    assert!(graph.end(&mut frame, &mut r).is_err());
}
