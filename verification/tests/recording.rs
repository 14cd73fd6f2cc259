use std::collections::HashMap;

use framegraph::attachment::AttachmentReference;
use framegraph::barrier::{BufferBarrier, ImageBarrier};
use framegraph::barrier_translation::{host_write_barrier, translate_barriers};
use framegraph::binding::{BindingInfo, BindingType, BufferBindingInfo, ImageBindingInfo, ResourceBinding};
use framegraph::descriptors::{resolve_descriptors, DescriptorPayload, DescriptorUpdate};
use framegraph::executor::{framebuffer_extent, node_descriptor_writes, resolve_graphics_targets, Extent3D};
use framegraph::image::{texture_create_info, texture_format, upload_barriers, ImageKind};
use framegraph::linker::NodeBarriers;
use framegraph::renderpass_manager::{describe_renderpass, RenderpassRequest, VulkanRenderpassManager};
use framegraph::resource::{BufferInfo, ImageInfo, ResourceType};
use framegraph::util::get_aspect_mask_from_format;
use framegraph::vk;

fn img(format: i32, width: u32, has_sampler: bool) -> ImageInfo {
    ImageInfo { format, layout: vk::LAYOUT_UNDEFINED, width, height: 16, depth: 1, has_sampler }
}

fn resources() -> HashMap<u64, ResourceType> {
    let mut r = HashMap::new();
    r.insert(1, ResourceType::Image(img(vk::FORMAT_R8G8B8A8_UNORM, 32, true)));
    r.insert(2, ResourceType::Image(img(vk::FORMAT_D24_UNORM_S8_UINT, 32, false)));
    r.insert(3, ResourceType::Buffer(BufferInfo { size: 256 }));
    r.insert(4, ResourceType::Image(img(vk::FORMAT_R8G8B8A8_UNORM, 64, false)));
    r
}

#[test]
fn aspect_masks_follow_the_format() {
    assert_eq!(get_aspect_mask_from_format(vk::FORMAT_D32_SFLOAT), vk::ASPECT_DEPTH);
    assert_eq!(get_aspect_mask_from_format(vk::FORMAT_D24_UNORM_S8_UINT), vk::ASPECT_DEPTH | vk::ASPECT_STENCIL);
    assert_eq!(get_aspect_mask_from_format(vk::FORMAT_S8_UINT), vk::ASPECT_STENCIL);
    assert_eq!(get_aspect_mask_from_format(vk::FORMAT_R8G8B8A8_SRGB), vk::ASPECT_COLOR);
}

#[test]
fn one_pipeline_barrier_covers_all_stages() {
    let r = resources();
    let barriers = NodeBarriers {
        image_barriers: vec![
            ImageBarrier { resource: 1, source_stage: vk::STAGE_COLOR_ATTACHMENT_OUTPUT, dest_stage: vk::STAGE_FRAGMENT_SHADER,
                source_access: vk::ACCESS_COLOR_ATTACHMENT_WRITE, dest_access: vk::ACCESS_SHADER_READ,
                old_layout: vk::LAYOUT_COLOR_ATTACHMENT_OPTIMAL, new_layout: vk::LAYOUT_SHADER_READ_ONLY_OPTIMAL },
            ImageBarrier { resource: 2, source_stage: vk::STAGE_TOP_OF_PIPE, dest_stage: vk::STAGE_EARLY_FRAGMENT_TESTS,
                source_access: 0, dest_access: vk::ACCESS_DEPTH_STENCIL_ATTACHMENT_WRITE,
                old_layout: vk::LAYOUT_UNDEFINED, new_layout: vk::LAYOUT_DEPTH_STENCIL_ATTACHMENT_OPTIMAL },
        ],
        buffer_barriers: vec![BufferBarrier { resource: 3, source_stage: vk::STAGE_TRANSFER, dest_stage: vk::STAGE_VERTEX_SHADER,
            source_access: vk::ACCESS_TRANSFER_WRITE, dest_access: vk::ACCESS_UNIFORM_READ, size: 64, offset: 128 }],
    };
    let t = translate_barriers(&barriers, &r, 5);
    assert_eq!(t.source_stage, vk::STAGE_COLOR_ATTACHMENT_OUTPUT | vk::STAGE_TOP_OF_PIPE | vk::STAGE_TRANSFER);
    assert_eq!(t.dest_stage, vk::STAGE_FRAGMENT_SHADER | vk::STAGE_EARLY_FRAGMENT_TESTS | vk::STAGE_VERTEX_SHADER);
    assert_eq!(t.image_barriers.len(), 2);
    assert_eq!(t.image_barriers[0].aspect_mask, vk::ASPECT_COLOR);
    assert_eq!(t.image_barriers[1].aspect_mask, vk::ASPECT_DEPTH | vk::ASPECT_STENCIL);
    assert_eq!(t.image_barriers[1].src_queue_family, 5);
    assert_eq!(t.image_barriers[0].new_layout, vk::LAYOUT_SHADER_READ_ONLY_OPTIMAL);
    assert_eq!((t.image_barriers[0].level_count, t.image_barriers[0].layer_count), (1, 1));
    assert_eq!(t.buffer_barriers.len(), 1);
    assert_eq!((t.buffer_barriers[0].offset, t.buffer_barriers[0].size), (128, 64));
}

#[test]
fn no_barriers_make_an_empty_pipeline_barrier() {
    let t = translate_barriers(&NodeBarriers { image_barriers: vec![], buffer_barriers: vec![] }, &resources(), 0);
    assert_eq!((t.source_stage, t.dest_stage), (vk::STAGE_NONE, vk::STAGE_NONE));
    assert!(t.image_barriers.is_empty() && t.buffer_barriers.is_empty());
}

fn image_binding(resource: u64, set: u64, slot: u32) -> ResourceBinding {
    ResourceBinding {
        resource,
        binding_info: BindingInfo {
            binding_type: BindingType::Image(ImageBindingInfo { layout: vk::LAYOUT_SHADER_READ_ONLY_OPTIMAL }),
            set,
            slot,
            stage: vk::STAGE_FRAGMENT_SHADER,
            access: vk::ACCESS_SHADER_READ,
        },
    }
}

fn buffer_binding(resource: u64, set: u64, slot: u32) -> ResourceBinding {
    ResourceBinding {
        resource,
        binding_info: BindingInfo {
            binding_type: BindingType::Buffer(BufferBindingInfo { offset: 16, range: 64 }),
            set,
            slot,
            stage: vk::STAGE_VERTEX_SHADER,
            access: vk::ACCESS_UNIFORM_READ,
        },
    }
}

#[test]
fn each_binding_becomes_one_descriptor_write() {
    let r = resources();
    let sets = vec![100u64, 200u64];
    let mut updates = DescriptorUpdate::new();
    resolve_descriptors(&vec![buffer_binding(3, 0, 0), image_binding(1, 1, 2), image_binding(4, 0, 1)], &r, &sets, &mut updates);
    assert_eq!(updates.image_infos.len(), 2);
    assert_eq!(updates.buffer_infos.len(), 1);
    assert_eq!(updates.image_infos[0].descriptor_type, vk::DESCRIPTOR_COMBINED_IMAGE_SAMPLER);
    assert_eq!(updates.image_infos[1].descriptor_type, vk::DESCRIPTOR_STORAGE_IMAGE);
    assert_eq!(updates.image_infos[0].binding_set, 200);
    assert_eq!(updates.buffer_infos[0].descriptor_type, vk::DESCRIPTOR_UNIFORM_BUFFER);
    let writes = updates.create_descriptor_writes();
    assert_eq!(writes.len(), 3);
    assert_eq!((writes[0].dst_set, writes[0].dst_binding), (200, 2));
    assert!(matches!(writes[2].payload, DescriptorPayload::Buffer(b) if b.offset == 16 && b.range == 64 && b.buffer == 3));
    assert!(writes.iter().all(|w| w.dst_array_element == 0));
}

#[test]
fn outputs_are_written_after_inputs() {
    let r = resources();
    let writes = node_descriptor_writes(&vec![image_binding(1, 0, 0)], &vec![image_binding(4, 0, 1), buffer_binding(3, 0, 2)], &r, &vec![9]);
    assert_eq!(writes.iter().map(|w| w.dst_binding).collect::<Vec<_>>(), vec![0, 1, 2]);
}

#[test]
fn the_framebuffer_takes_the_extent_of_its_render_targets() {
    let r = resources();
    let rt = AttachmentReference::new(&r, 1, 1);
    let depth = AttachmentReference::new(&r, 2, 1);
    let t = resolve_graphics_targets(&vec![rt], &Some(depth), &r);
    assert_eq!(t.extent, Extent3D { width: 32, height: 16, depth: 1 });
    assert_eq!(t.depth_target.unwrap().format, vk::FORMAT_D24_UNORM_S8_UINT);
    assert_eq!(framebuffer_extent(&vec![img(0, 8, false), img(0, 8, true)]), Extent3D { width: 8, height: 16, depth: 1 });
}

#[test]
fn the_depth_attachment_comes_first() {
    let r = resources();
    let rt = AttachmentReference::new(&r, 1, 1);
    let depth = AttachmentReference::new(&r, 2, 1);
    let layout = describe_renderpass(&[rt], &Some(depth));
    assert_eq!(layout.attachments.len(), 2);
    assert_eq!(layout.attachments[0].format, vk::FORMAT_D24_UNORM_S8_UINT);
    assert_eq!(layout.attachments[0].load_op, vk::LOAD_OP_DONT_CARE);
    assert_eq!(layout.depth_ref.unwrap().attachment, 0);
    assert_eq!(layout.color_attachment_refs[0].attachment, 1);
    let mut manager = VulkanRenderpassManager::<u32>::new();
    assert!(matches!(manager.create_or_fetch_renderpass("main", &[rt], &None), RenderpassRequest::Create(_)));
    manager.cache_renderpass("main", 4);
    assert!(matches!(manager.create_or_fetch_renderpass("main", &[rt], &None), RenderpassRequest::Cached(&4)));
}

#[test]
fn decoded_images_get_texture_formats() {
    assert_eq!(texture_format(ImageKind::Rgb8, false), (vk::FORMAT_R8G8B8A8_SRGB, true));
    assert_eq!(texture_format(ImageKind::Rgba8, true), (vk::FORMAT_R8G8B8A8_UNORM, false));
    assert_eq!(texture_format(ImageKind::Rgba32F, false), (vk::FORMAT_R32G32B32A32_SFLOAT, false));
    let info = texture_create_info(vk::FORMAT_R8G8B8A8_SRGB, 4, 2);
    assert_eq!((info.width, info.height, info.depth), (4, 2, 1));
    let b = upload_barriers(9, 1);
    assert_eq!(b.before_copy.2.new_layout, vk::LAYOUT_TRANSFER_DST_OPTIMAL);
    assert_eq!(b.after_copy.2.new_layout, vk::LAYOUT_SHADER_READ_ONLY_OPTIMAL);
    assert_eq!((b.after_copy.0, b.after_copy.1), (vk::STAGE_TRANSFER, vk::STAGE_VERTEX_SHADER));
}

#[test]
fn host_writes_are_made_visible_to_vertex_work() {
    let (src, dst, b) = host_write_barrier();
    assert_eq!(src, vk::STAGE_HOST);
    assert_eq!(dst, vk::STAGE_VERTEX_INPUT | vk::STAGE_VERTEX_SHADER);
    assert_eq!(b.src_access, vk::ACCESS_HOST_WRITE);
    assert_eq!(b.dst_access, vk::ACCESS_UNIFORM_READ | vk::ACCESS_INDEX_READ | vk::ACCESS_VERTEX_ATTRIBUTE_READ);
}
