//! The clear pass: a color or depth image cleared by a transfer.

use vstd::prelude::*;
use crate::binding::{BindingInfo, BindingType, ImageBindingInfo, ResourceBinding};
use crate::graphics_pass_node::{GraphicsPassNode, PassNodeBuilder};
use crate::pass_type::PassType;
use crate::vk;

verus! {

/// What a clear pass clears.
#[derive(Clone, Copy, Debug, PartialEq, Eq, Structural)]
pub enum ClearKind {
    Color,
    Depth,
}

/// Color for exactly the color aspect; depth (and stencil) for a mask
/// with the depth aspect. Other masks cannot be cleared.
pub open spec fn spec_clear_kind(aspect_mask: u32) -> ClearKind {
    if aspect_mask == vk::ASPECT_COLOR { ClearKind::Color } else { ClearKind::Depth }
}

pub open spec fn clearable(aspect_mask: u32) -> bool {
    aspect_mask == vk::ASPECT_COLOR || aspect_mask & vk::ASPECT_DEPTH == vk::ASPECT_DEPTH
}

pub fn clear_kind(aspect_mask: u32) -> (kind: ClearKind)
    requires
        clearable(aspect_mask),
    ensures
        kind == spec_clear_kind(aspect_mask),
{
    if aspect_mask == vk::ASPECT_COLOR {
        ClearKind::Color
    } else {
        ClearKind::Depth
    }
}

/// The binding through which a clear writes its target: in the general
/// layout, by a transfer.
pub open spec fn clear_binding(target: u64) -> ResourceBinding {
    ResourceBinding {
        resource: target,
        binding_info: BindingInfo {
            binding_type: BindingType::Image(ImageBindingInfo { layout: vk::LAYOUT_GENERAL }),
            set: 0,
            slot: 0,
            stage: vk::STAGE_TRANSFER,
            access: vk::ACCESS_TRANSFER_WRITE,
        },
    }
}

/// A graphics pass that clears `target`, named for what it clears.
pub fn clear<F, P, V, B>(target: u64, aspect_mask: u32, fill_callback: F) -> (pass: PassType<F, P, V, B>)
    requires
        clearable(aspect_mask),
    ensures
        pass matches PassType::Graphics(node) && {
            &&& node.outputs@ == seq![clear_binding(target)]
            &&& node.inputs@.len() == 0
            &&& node.render_targets@.len() == 0
            &&& node.depth_target is None
            &&& node.pipeline_description is None
            &&& node.fill_callback == fill_callback
            &&& node.name@ == (if spec_clear_kind(aspect_mask) == ClearKind::Color { "Color clear"@ } else { "Depth clear"@ })
        },
{
    let target_binding = ResourceBinding {
        resource: target,
        binding_info: BindingInfo {
            binding_type: BindingType::Image(ImageBindingInfo { layout: vk::LAYOUT_GENERAL }),
            set: 0,
            slot: 0,
            stage: vk::STAGE_TRANSFER,
            access: vk::ACCESS_TRANSFER_WRITE,
        },
    };
    let pass_name = match clear_kind(aspect_mask) {
        ClearKind::Color => "Color clear".to_string(),
        ClearKind::Depth => "Depth clear".to_string(),
    };
    proof {
        reveal_strlit("Color clear");
        reveal_strlit("Depth clear");
    }
    let builder: PassNodeBuilder<F, P, V> = GraphicsPassNode::<F, P, V, B>::builder(pass_name);
    let node = match builder.write(target_binding).fill_commands(fill_callback).build::<B>() {
        Ok(node) => node,
        Err(_) => vstd::pervasive::unreached(),
    };
    PassType::Graphics(node)
}

} // verus!
