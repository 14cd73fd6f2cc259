//! The blur pass: a compute shader reading one image and writing another.

use vstd::prelude::*;
use crate::binding::{BindingInfo, BindingType, ImageBindingInfo, ResourceBinding};
use crate::compute_pass_node::{ComputePassNode, ComputePassNodeBuilder};
use crate::pass_type::PassType;
use crate::pipeline::ComputePipelineDescription;
use crate::vk;

verus! {

/// The compute binding of a blur: the image in the general layout, read
/// at slot 0 (the source) or written at slot 1 (the target).
pub open spec fn blur_binding(image: u64, slot: u32, access: u32) -> ResourceBinding {
    ResourceBinding {
        resource: image,
        binding_info: BindingInfo {
            binding_type: BindingType::Image(ImageBindingInfo { layout: vk::LAYOUT_GENERAL }),
            set: 0,
            slot,
            stage: vk::STAGE_COMPUTE_SHADER,
            access,
        },
    }
}

/// A compute pass named "blur" that reads `source` and writes
/// `blur_target` with the blur shader.
pub fn generate_pass<F, P, V, B>(source: u64, blur_target: u64, fill_callback: F) -> (pass: PassType<F, P, V, B>)
    ensures
        pass matches PassType::Compute(node) && {
            &&& node.inputs@ == seq![blur_binding(source, 0, vk::ACCESS_SHADER_READ)]
            &&& node.outputs@ == seq![blur_binding(blur_target, 1, vk::ACCESS_SHADER_WRITE)]
            &&& node.pipeline_description.compute_name@ == "blur-comp.spv"@
            &&& node.fill_callback == fill_callback
            &&& node.name@ == "blur"@
        },
{
    let source_binding = ResourceBinding {
        resource: source,
        binding_info: BindingInfo {
            binding_type: BindingType::Image(ImageBindingInfo { layout: vk::LAYOUT_GENERAL }),
            set: 0,
            slot: 0,
            stage: vk::STAGE_COMPUTE_SHADER,
            access: vk::ACCESS_SHADER_READ,
        },
    };
    let target_binding = ResourceBinding {
        resource: blur_target,
        binding_info: BindingInfo {
            binding_type: BindingType::Image(ImageBindingInfo { layout: vk::LAYOUT_GENERAL }),
            set: 0,
            slot: 1,
            stage: vk::STAGE_COMPUTE_SHADER,
            access: vk::ACCESS_SHADER_WRITE,
        },
    };
    let pipeline_description = ComputePipelineDescription::new("blur-comp.spv");
    proof {
        reveal_strlit("blur");
        reveal_strlit("blur-comp.spv");
    }
    let builder: ComputePassNodeBuilder<F> = ComputePassNode::builder("blur".to_string());
    let node = match builder.pipeline_description(pipeline_description).input(source_binding).output(target_binding)
        .fill_commands(fill_callback).build() {
        Ok(node) => node,
        Err(_) => vstd::pervasive::unreached(),
    };
    PassType::Compute(node)
}

/// The work groups of the blur shader: one per 8x8 texels.
pub fn blur_dispatch(width: u32, height: u32) -> (groups: (u32, u32, u32))
    ensures
        groups == (width / 8, height / 8, 1u32),
{
    (width / 8, height / 8, 1)
}

} // verus!
