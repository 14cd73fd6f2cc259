//! The user-interface passes: one graphics pass per draw list, drawing the
//! list's triangles over a render target with the font texture.

use vstd::prelude::*;
use std::sync::Arc;
use crate::attachment::AttachmentReference;
use crate::resource::{ResourceMap, ResourceType, is_image, image_of};
use crate::binding::{BindingInfo, BindingType, BufferBindingInfo, ImageBindingInfo, ResourceBinding};
use crate::graphics_pass_node::{GraphicsPassNode, PassNodeBuilder, Rect2D};
use crate::pass_type::PassType;
use crate::pipeline::{BlendType, DepthStencilType, RasterizationType};
use crate::pipeline_manager::{PipelineDescription, VertexInputAttributeDescription, VertexInputBindingDescription};
use crate::shader::Shader;
use crate::vk;

verus! {

broadcast use vstd::std_specs::hash::group_hash_axioms;

/// The bytes of one interface vertex: position and texture coordinate
/// (two 32-bit floats each) and a packed RGBA color.
pub const DRAW_VERT_SIZE: u32 = 20u32;

/// The bytes of the display transform: a scale and an offset, two 32-bit
/// floats each.
pub const DISPLAY_BUFFER_SIZE: u64 = 16u64;

pub open spec fn spec_vertex_binding() -> VertexInputBindingDescription {
    VertexInputBindingDescription { binding: 0, stride: DRAW_VERT_SIZE, input_rate: vk::VERTEX_INPUT_RATE_VERTEX }
}

/// Position, texture coordinate and color, in that order, from one buffer.
pub open spec fn spec_vertex_attributes() -> Seq<VertexInputAttributeDescription> {
    seq![
        VertexInputAttributeDescription { location: 0, binding: 0, format: vk::FORMAT_R32G32_SFLOAT, offset: 0 },
        VertexInputAttributeDescription { location: 1, binding: 0, format: vk::FORMAT_R32G32_SFLOAT, offset: 8 },
        VertexInputAttributeDescription { location: 2, binding: 0, format: vk::FORMAT_R8G8B8A8_UNORM, offset: 16 },
    ]
}

/// The pipeline of the interface: its vertex layout, viewport and scissor
/// set while drawing, no depth test, transparent blending.
pub fn imgui_pipeline_description(vertex_shader: Arc<Shader>, fragment_shader: Arc<Shader>) -> (description: PipelineDescription)
    ensures
        description.vertex_binding_descriptions@ == seq![spec_vertex_binding()],
        description.vertex_attribute_descriptions@ == spec_vertex_attributes(),
        description.dynamic_states@ == seq![vk::DYNAMIC_STATE_VIEWPORT, vk::DYNAMIC_STATE_SCISSOR],
        description.rasterization == RasterizationType::Standard,
        description.depth_stencil == DepthStencilType::Disable,
        description.blend == BlendType::Transparent,
        description.name@ == "imgui"@,
        description.vertex_shader == vertex_shader,
        description.fragment_shader == fragment_shader,
{
    let binding = VertexInputBindingDescription { binding: 0, stride: DRAW_VERT_SIZE, input_rate: vk::VERTEX_INPUT_RATE_VERTEX };
    let attributes = vec![
        VertexInputAttributeDescription { location: 0, binding: 0, format: vk::FORMAT_R32G32_SFLOAT, offset: 0 },
        VertexInputAttributeDescription { location: 1, binding: 0, format: vk::FORMAT_R32G32_SFLOAT, offset: 8 },
        VertexInputAttributeDescription { location: 2, binding: 0, format: vk::FORMAT_R8G8B8A8_UNORM, offset: 16 },
    ];
    proof {
        reveal_strlit("imgui");
        assert(attributes@ == spec_vertex_attributes());
    }
    PipelineDescription::new(
        vec![binding],
        attributes,
        vec![vk::DYNAMIC_STATE_VIEWPORT, vk::DYNAMIC_STATE_SCISSOR],
        RasterizationType::Standard,
        DepthStencilType::Disable,
        BlendType::Transparent,
        "imgui",
        vertex_shader,
        fragment_shader,
    )
}

/// The font texture, sampled by the fragment shader at set 0, slot 1.
pub open spec fn font_binding(font_texture: u64) -> ResourceBinding {
    ResourceBinding {
        resource: font_texture,
        binding_info: BindingInfo {
            binding_type: BindingType::Image(ImageBindingInfo { layout: vk::LAYOUT_SHADER_READ_ONLY_OPTIMAL }),
            set: 0,
            slot: 1,
            stage: vk::STAGE_FRAGMENT_SHADER,
            access: vk::ACCESS_SHADER_READ,
        },
    }
}

/// The display transform, read by the vertex shader at set 0, slot 0.
pub open spec fn display_binding(display_buffer: u64) -> ResourceBinding {
    ResourceBinding {
        resource: display_buffer,
        binding_info: BindingInfo {
            binding_type: BindingType::Buffer(BufferBindingInfo { offset: 0, range: DISPLAY_BUFFER_SIZE }),
            set: 0,
            slot: 0,
            stage: vk::STAGE_VERTEX_SHADER,
            access: vk::ACCESS_SHADER_READ,
        },
    }
}

/// One draw list: its vertex and index buffers, its pipeline description
/// (`P`) and the callback (`F`) that draws its indices.
pub struct ImguiDrawList<F, P> {
    pub vtx_buffer: u64,
    pub idx_buffer: u64,
    pub pipeline_description: P,
    pub fill_callback: F,
}

/// The pass of one draw list.
pub open spec fn is_imgui_pass<F, P, V, B>(
    pass: PassType<F, P, V, B>,
    list: ImguiDrawList<F, P>,
    render_target: AttachmentReference,
    width: u32,
    height: u32,
    font_texture: u64,
    display_buffer: u64,
    viewport: V,
) -> bool {
    pass matches PassType::Graphics(node) && {
        &&& node.name@ == "imgui"@
        &&& node.pipeline_description == Some(list.pipeline_description)
        &&& node.render_targets@ == seq![render_target]
        &&& node.depth_target is None
        &&& node.inputs@ == seq![font_binding(font_texture), display_binding(display_buffer)]
        &&& node.outputs@.len() == 0
        &&& node.tagged_resources@ == seq![list.idx_buffer, list.vtx_buffer]
        &&& node.viewport == Some(viewport)
        &&& node.scissor == Some(Rect2D { x: 0, y: 0, width, height })
        &&& node.fill_callback == list.fill_callback
        &&& node.framebuffer is None
    }
}

/// One pass per draw list, in order, each drawing over `render_target`
/// with the font texture and the display transform; the scissor covers the
/// whole extent of the target's image, which must be resolved. `viewport`
/// is the viewport over that extent.
pub fn generate_passes<F, P, V: Copy, B>(
    draw_lists: Vec<ImguiDrawList<F, P>>,
    render_target: AttachmentReference,
    resources: &ResourceMap,
    font_texture: u64,
    display_buffer: u64,
    viewport: V,
) -> (passes: Vec<PassType<F, P, V, B>>)
    requires
        is_image(resources@, render_target.resource_image),
    ensures
        passes@.len() == draw_lists@.len(),
        forall|i: int| 0 <= i < passes@.len() ==> is_imgui_pass(#[trigger] passes@[i], draw_lists@[i], render_target,
            image_of(resources@, render_target.resource_image).width,
            image_of(resources@, render_target.resource_image).height,
            font_texture, display_buffer, viewport),
{
    let (width, height) = match resources.get(&render_target.resource_image) {
        Some(ResourceType::Image(image)) => (image.width, image.height),
        _ => vstd::pervasive::unreached(),
    };
    let ghost lists = draw_lists@;
    let mut remaining = draw_lists;
    let mut passes: Vec<PassType<F, P, V, B>> = Vec::new();
    proof {
        reveal_strlit("imgui");
    }
    while remaining.len() > 0
        invariant
            passes@.len() + remaining@.len() == lists.len(),
            remaining@ == lists.skip(passes@.len() as int),
            forall|i: int| 0 <= i < passes@.len() ==> is_imgui_pass(#[trigger] passes@[i], lists[i], render_target,
                width, height, font_texture, display_buffer, viewport),
        decreases remaining@.len(),
    {
        let list = remaining.remove(0);
        let ghost k = passes@.len() as int;
        assert(list == lists[k]);
        let font = ResourceBinding {
            resource: font_texture,
            binding_info: BindingInfo {
                binding_type: BindingType::Image(ImageBindingInfo { layout: vk::LAYOUT_SHADER_READ_ONLY_OPTIMAL }),
                set: 0,
                slot: 1,
                stage: vk::STAGE_FRAGMENT_SHADER,
                access: vk::ACCESS_SHADER_READ,
            },
        };
        let display = ResourceBinding {
            resource: display_buffer,
            binding_info: BindingInfo {
                binding_type: BindingType::Buffer(BufferBindingInfo { offset: 0, range: DISPLAY_BUFFER_SIZE }),
                set: 0,
                slot: 0,
                stage: vk::STAGE_VERTEX_SHADER,
                access: vk::ACCESS_SHADER_READ,
            },
        };
        let builder: PassNodeBuilder<F, P, V> = GraphicsPassNode::<F, P, V, B>::builder("imgui".to_string());
        let node = match builder
            .pipeline_description(list.pipeline_description)
            .render_target(render_target)
            .read(font)
            .read(display)
            .tag(list.idx_buffer)
            .tag(list.vtx_buffer)
            .viewport(viewport)
            .scissor(Rect2D { x: 0, y: 0, width, height })
            .fill_commands(list.fill_callback)
            .build::<B>() {
            Ok(node) => node,
            Err(_) => vstd::pervasive::unreached(),
        };
        let ghost before = passes@;
        passes.push(PassType::Graphics(node));
        proof {
            assert(lists.skip(k + 1) =~= lists.skip(k).remove(0));
            match passes@[k] {
                PassType::Graphics(n) => {
                    assert(n.render_targets@ =~= seq![render_target]);
                    assert(n.inputs@ =~= seq![font_binding(font_texture), display_binding(display_buffer)]);
                    assert(n.tagged_resources@ =~= seq![lists[k].idx_buffer, lists[k].vtx_buffer]);
                },
                _ => {},
            }
            assert(is_imgui_pass(passes@[k], lists[k], render_target, width, height, font_texture, display_buffer, viewport));
            assert forall|i: int| 0 <= i < passes@.len() implies is_imgui_pass(#[trigger] passes@[i], lists[i], render_target,
                width, height, font_texture, display_buffer, viewport) by {
                if i < k {
                    assert(passes@[i] == before[i]);
                }
            }
        }
    }
    passes
}

} // verus!
