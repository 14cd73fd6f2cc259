//! The shadow-map pass: one depth-only graphics pass that draws every
//! object from the light's point of view into a depth target.

use vstd::prelude::*;
use std::sync::Arc;
use crate::attachment::AttachmentReference;
use crate::binding::{BindingInfo, BindingType, BufferBindingInfo, ResourceBinding};
use crate::graphics_pass_node::{GraphicsPassNode, PassNodeBuilder};
use crate::pass_type::PassType;
use crate::pipeline::{BlendType, DepthStencilType, RasterizationType};
use crate::pipeline_manager::{PipelineDescription, VertexInputAttributeDescription, VertexInputBindingDescription};
use crate::shader::Shader;
use crate::vk;

verus! {

/// An object to draw into the shadow map: its vertex and index buffers,
/// how many indices to draw, its vertex layout, and the buffer that holds
/// its model-view-projection matrix as the light sees it.
pub struct ShadowMappingObjects {
    pub vertex_buffer: u64,
    pub index_buffer: u64,
    pub index_count: u32,
    pub vertex_binding: VertexInputBindingDescription,
    pub vertex_attributes: Vec<VertexInputAttributeDescription>,
    pub light_mvp_buffer: u64,
}

/// The shaders of the shadow-map pass.
pub struct ShadowPass {
    pub vertex_shader: Arc<Shader>,
    pub fragment_shader: Arc<Shader>,
}

/// An object's light matrix, read whole by the vertex shader at set 0,
/// slot 0.
pub open spec fn mvp_binding(light_mvp_buffer: u64) -> ResourceBinding {
    ResourceBinding {
        resource: light_mvp_buffer,
        binding_info: BindingInfo {
            binding_type: BindingType::Buffer(BufferBindingInfo { offset: 0, range: vk::WHOLE_SIZE }),
            set: 0,
            slot: 0,
            stage: vk::STAGE_VERTEX_SHADER,
            access: vk::ACCESS_SHADER_READ,
        },
    }
}

/// One light-matrix binding per object, in order.
pub open spec fn mvp_bindings(objects: Seq<ShadowMappingObjects>) -> Seq<ResourceBinding> {
    Seq::new(objects.len(), |i: int| mvp_binding(objects[i].light_mvp_buffer))
}

/// The pipeline of the shadow pass: the first object's vertex layout (none
/// without objects), viewport and scissor set while drawing, depth test
/// and writes on, no blending.
pub open spec fn is_shadow_pipeline(d: PipelineDescription, objects: Seq<ShadowMappingObjects>,
    vertex_shader: Arc<Shader>, fragment_shader: Arc<Shader>) -> bool
{
    &&& d.vertex_binding_descriptions@ == (if objects.len() > 0 { seq![objects[0].vertex_binding] } else { Seq::empty() })
    &&& d.vertex_attribute_descriptions@ == (if objects.len() > 0 { objects[0].vertex_attributes@ } else { Seq::empty() })
    &&& d.dynamic_states@ == seq![vk::DYNAMIC_STATE_VIEWPORT, vk::DYNAMIC_STATE_SCISSOR]
    &&& d.rasterization == RasterizationType::Standard
    &&& d.depth_stencil == DepthStencilType::Enable
    &&& d.blend == BlendType::Disabled
    &&& d.name@ == "shadow_map"@
    &&& d.vertex_shader == vertex_shader
    &&& d.fragment_shader == fragment_shader
}

impl ShadowPass {
    /// The pass over the shadow-map shaders, created by the caller from
    /// their SPIR-V.
    pub fn new(vertex_shader: Arc<Shader>, fragment_shader: Arc<Shader>) -> (pass: ShadowPass)
        ensures
            pass.vertex_shader == vertex_shader,
            pass.fragment_shader == fragment_shader,
    {
        ShadowPass { vertex_shader, fragment_shader }
    }

    /// The shadow pass over `depth_target`: named "shadow_pass", no render
    /// targets, one light-matrix input per object, the shadow pipeline, and
    /// `fill_callback`, which draws the objects. Viewport and scissor are
    /// set by the callback, from the depth target's extent.
    pub fn generate_pass<F, V, B>(
        &self,
        depth_target: AttachmentReference,
        objects: &Vec<ShadowMappingObjects>,
        fill_callback: F,
    ) -> (pass: PassType<F, PipelineDescription, V, B>)
        ensures
            pass matches PassType::Graphics(node) && {
                &&& node.name@ == "shadow_pass"@
                &&& node.pipeline_description matches Some(d)
                    && is_shadow_pipeline(d, objects@, self.vertex_shader, self.fragment_shader)
                &&& node.render_targets@.len() == 0
                &&& node.depth_target == Some(depth_target)
                &&& node.inputs@ == mvp_bindings(objects@)
                &&& node.outputs@.len() == 0
                &&& node.tagged_resources@.len() == 0
                &&& node.viewport is None
                &&& node.scissor is None
                &&& node.fill_callback == fill_callback
                &&& node.framebuffer is None
            },
    {
        let (vertex_binding, vertex_attributes): (Vec<VertexInputBindingDescription>, Vec<VertexInputAttributeDescription>) =
            if objects.len() > 0 {
                (vec![objects[0].vertex_binding], objects[0].vertex_attributes.clone())
            } else {
                (Vec::new(), Vec::new())
            };
        assert(vertex_binding@ == (if objects@.len() > 0 { seq![objects@[0].vertex_binding] }
            else { Seq::<VertexInputBindingDescription>::empty() }));
        proof {
            reveal_strlit("shadow_map");
            reveal_strlit("shadow_pass");
        }
        let pipeline_description = PipelineDescription::new(
            vertex_binding,
            vertex_attributes,
            vec![vk::DYNAMIC_STATE_VIEWPORT, vk::DYNAMIC_STATE_SCISSOR],
            RasterizationType::Standard,
            DepthStencilType::Enable,
            BlendType::Disabled,
            "shadow_map",
            self.vertex_shader.clone(),
            self.fragment_shader.clone(),
        );
        let mut builder: PassNodeBuilder<F, PipelineDescription, V> =
            GraphicsPassNode::<F, PipelineDescription, V, B>::builder("shadow_pass".to_string())
                .pipeline_description(pipeline_description)
                .depth_target(depth_target);
        let ghost d = builder.pipeline_description;
        let mut i: usize = 0;
        while i < objects.len()
            invariant
                0 <= i <= objects.len(),
                builder.name@ == "shadow_pass"@,
                builder.pipeline_description == d,
                builder.render_targets@.len() == 0,
                builder.depth_target == Some(depth_target),
                builder.inputs@ == mvp_bindings(objects@).take(i as int),
                builder.outputs@.len() == 0,
                builder.tagged_resources@.len() == 0,
                builder.viewport is None,
                builder.scissor is None,
                builder.fill_callback is None,
            decreases objects.len() - i,
        {
            let binding = ResourceBinding {
                resource: objects[i].light_mvp_buffer,
                binding_info: BindingInfo {
                    binding_type: BindingType::Buffer(BufferBindingInfo { offset: 0, range: vk::WHOLE_SIZE }),
                    set: 0,
                    slot: 0,
                    stage: vk::STAGE_VERTEX_SHADER,
                    access: vk::ACCESS_SHADER_READ,
                },
            };
            builder = builder.read(binding);
            proof {
                assert(mvp_bindings(objects@).take(i + 1) =~= mvp_bindings(objects@).take(i as int).push(binding));
            }
            i = i + 1;
        }
        proof {
            assert(mvp_bindings(objects@).take(objects.len() as int) =~= mvp_bindings(objects@));
        }
        let node = match builder.fill_commands(fill_callback).build::<B>() {
            Ok(node) => node,
            Err(_) => vstd::pervasive::unreached(),
        };
        PassType::Graphics(node)
    }
}

} // verus!
