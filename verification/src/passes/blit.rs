//! The blit pass: one image scaled into another by a transfer.

use vstd::prelude::*;
use crate::copy_pass_node::{CopyPassNode, CopyPassNodeBuilder};
use crate::pass_type::PassType;
use crate::vk;

verus! {

#[derive(Clone, Copy, Debug, PartialEq, Eq, Structural)]
pub struct Offset3D {
    pub x: i32,
    pub y: i32,
    pub z: i32,
}

/// One array layer of the first mip level of an image's color aspect.
#[derive(Clone, Copy, Debug, PartialEq, Eq, Structural)]
pub struct ImageSubresourceLayers {
    pub aspect_mask: u32,
    pub mip_level: u32,
    pub base_array_layer: u32,
    pub layer_count: u32,
}

/// A blit between two boxes of the same size.
#[derive(Clone, Copy, Debug, PartialEq, Eq, Structural)]
pub struct ImageBlit {
    pub src_subresource: ImageSubresourceLayers,
    pub src_start: Offset3D,
    pub src_end: Offset3D,
    pub dst_subresource: ImageSubresourceLayers,
    pub dst_start: Offset3D,
    pub dst_end: Offset3D,
}

pub open spec fn color_layer(layer: u32) -> ImageSubresourceLayers {
    ImageSubresourceLayers { aspect_mask: vk::ASPECT_COLOR, mip_level: 0, base_array_layer: layer, layer_count: 1 }
}

/// The region of a blit from layer `source_layer` to layer `dest_layer`:
/// the rectangle between the two corners, one texel deep, in both images.
pub fn blit_region(source_layer: u32, dest_layer: u32, offsets: [(i32, i32); 2]) -> (region: ImageBlit)
    ensures
        region.src_subresource == color_layer(source_layer),
        region.dst_subresource == color_layer(dest_layer),
        region.src_start == (Offset3D { x: offsets[0].0, y: offsets[0].1, z: 0 }),
        region.src_end == (Offset3D { x: offsets[1].0, y: offsets[1].1, z: 1 }),
        region.dst_start == region.src_start,
        region.dst_end == region.src_end,
{
    let start = Offset3D { x: offsets[0].0, y: offsets[0].1, z: 0 };
    let end = Offset3D { x: offsets[1].0, y: offsets[1].1, z: 1 };
    ImageBlit {
        src_subresource: ImageSubresourceLayers { aspect_mask: vk::ASPECT_COLOR, mip_level: 0, base_array_layer: source_layer, layer_count: 1 },
        src_start: start,
        src_end: end,
        dst_subresource: ImageSubresourceLayers { aspect_mask: vk::ASPECT_COLOR, mip_level: 0, base_array_layer: dest_layer, layer_count: 1 },
        dst_start: start,
        dst_end: end,
    }
}

/// A copy pass named "blit" from `source` into `dest`.
pub fn generate_pass<F, P, V, B>(source: u64, dest: u64, fill_callback: F) -> (pass: PassType<F, P, V, B>)
    ensures
        pass matches PassType::Copy(node) && {
            &&& node.copy_sources@ == seq![source]
            &&& node.copy_dests@ == seq![dest]
            &&& node.fill_callback == fill_callback
            &&& node.name@ == "blit"@
        },
{
    let builder: CopyPassNodeBuilder<F> = CopyPassNode::builder("blit".to_string());
    let node = match builder.copy_src(source).copy_dst(dest).fill_commands(fill_callback).build() {
        Ok(node) => node,
        Err(_) => vstd::pervasive::unreached(),
    };
    proof {
        reveal_strlit("blit");
    }
    PassType::Copy(node)
}

} // verus!
