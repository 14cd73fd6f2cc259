//! What recording a graphics pass decides before it records: the images
//! behind its render targets, the extent of its framebuffer, and the order
//! of the steps that record it.

use vstd::prelude::*;
use crate::attachment::AttachmentReference;
use crate::resource::{ImageInfo, ResourceMap, ResourceType, is_image, image_of};
use crate::binding::ResourceBinding;
use crate::graphics_pass_node::GraphicsPassNode;
use crate::descriptors::{
    DescriptorBufferUpdate, DescriptorImageUpdate, DescriptorUpdate, WriteDescriptorSet, buffer_updates,
    buffer_write, descriptors_resolvable, image_updates, image_write, resolve_descriptors,
};

verus! {

broadcast use vstd::std_specs::hash::group_hash_axioms;

#[derive(Clone, Copy, Debug, PartialEq, Eq, Structural)]
pub struct Extent3D {
    pub width: u32,
    pub height: u32,
    pub depth: u32,
}

pub open spec fn extent_of(image: ImageInfo) -> Extent3D {
    Extent3D { width: image.width, height: image.height, depth: image.depth }
}

/// Every attachment names a resolved image.
pub open spec fn attachments_resolved(attachments: Seq<AttachmentReference>, resources: Map<u64, ResourceType>) -> bool {
    forall|i: int| 0 <= i < attachments.len() ==> is_image(resources, #[trigger] attachments[i].resource_image)
}

/// The images behind the attachments, in order.
pub fn resolve_render_targets(attachments: &Vec<AttachmentReference>, resources: &ResourceMap) -> (rts: Vec<ImageInfo>)
    requires
        attachments_resolved(attachments@, resources@),
    ensures
        rts@.len() == attachments@.len(),
        forall|i: int| 0 <= i < attachments@.len() ==> #[trigger] rts@[i] == image_of(resources@, attachments@[i].resource_image),
{
    let mut rts: Vec<ImageInfo> = Vec::new();
    let mut i: usize = 0;
    while i < attachments.len()
        invariant
            0 <= i <= attachments.len(),
            attachments_resolved(attachments@, resources@),
            rts@.len() == i,
            forall|j: int| 0 <= j < i ==> #[trigger] rts@[j] == image_of(resources@, attachments@[j].resource_image),
        decreases attachments.len() - i,
    {
        let handle = attachments[i].resource_image;
        let image = match resources.get(&handle) {
            Some(ResourceType::Image(image)) => *image,
            _ => vstd::pervasive::unreached(),
        };
        rts.push(image);
        i = i + 1;
    }
    rts
}

/// All images have the extent of the first.
pub open spec fn same_extents(rts: Seq<ImageInfo>) -> bool {
    forall|i: int| 0 <= i < rts.len() ==> #[trigger] extent_of(rts[i]) == extent_of(rts[0])
}

/// The extent of a framebuffer over the given render targets, which must
/// exist and agree in their dimensions.
pub fn framebuffer_extent(rts: &Vec<ImageInfo>) -> (extent: Extent3D)
    requires
        rts@.len() > 0,
        same_extents(rts@),
    ensures
        extent == extent_of(rts@[0]),
        forall|i: int| 0 <= i < rts@.len() ==> #[trigger] extent_of(rts@[i]) == extent,
{
    let mut extent: Option<Extent3D> = None;
    let mut i: usize = 0;
    while i < rts.len()
        invariant
            0 <= i <= rts.len(),
            rts@.len() > 0,
            same_extents(rts@),
            i == 0 ==> extent is None,
            i > 0 ==> extent == Some(extent_of(rts@[0])),
        decreases rts.len() - i,
    {
        let rt = rts[i];
        let rt_extent = Extent3D { width: rt.width, height: rt.height, depth: rt.depth };
        assert(rt_extent == extent_of(rts@[i as int]));
        match extent {
            Some(e) => {
                assert(e == rt_extent);
            },
            None => {
                extent = Some(rt_extent);
            },
        }
        i = i + 1;
    }
    match extent {
        Some(e) => e,
        None => vstd::pervasive::unreached(),
    }
}


/// The images a graphics pass draws into, and its framebuffer extent.
pub struct GraphicsTargets {
    pub render_targets: Vec<ImageInfo>,
    pub depth_target: Option<ImageInfo>,
    pub extent: Extent3D,
}

/// Resolves the render targets and depth target of a graphics pass, and
/// the extent of its framebuffer: that of its render targets, which must
/// exist and agree.
pub fn resolve_graphics_targets(
    render_targets: &Vec<AttachmentReference>,
    depth_target: &Option<AttachmentReference>,
    resources: &ResourceMap,
) -> (targets: GraphicsTargets)
    requires
        attachments_resolved(render_targets@, resources@),
        *depth_target matches Some(d) ==> is_image(resources@, d.resource_image),
        render_targets@.len() > 0,
        forall|i: int| 0 <= i < render_targets@.len() ==> #[trigger] extent_of(image_of(resources@, render_targets@[i].resource_image))
            == extent_of(image_of(resources@, render_targets@[0].resource_image)),
    ensures
        targets.render_targets@.len() == render_targets@.len(),
        forall|i: int| 0 <= i < render_targets@.len() ==> #[trigger] targets.render_targets@[i]
            == image_of(resources@, render_targets@[i].resource_image),
        targets.depth_target == (match *depth_target {
            Some(d) => Some(image_of(resources@, d.resource_image)),
            None => None::<ImageInfo>,
        }),
        targets.extent == extent_of(image_of(resources@, render_targets@[0].resource_image)),
{
    let rts = resolve_render_targets(render_targets, resources);
    let depth = match depth_target {
        Some(d) => {
            let one = vec![*d];
            proof {
                assert(one@[0] == *d);
            }
            let mut resolved = resolve_render_targets(&one, resources);
            resolved.pop()
        },
        None => None,
    };
    proof {
        assert forall|i: int| 0 <= i < rts@.len() implies #[trigger] extent_of(rts@[i]) == extent_of(rts@[0]) by {
            assert(rts@[i] == image_of(resources@, render_targets@[i].resource_image));
        }
    }
    let extent = framebuffer_extent(&rts);
    GraphicsTargets { render_targets: rts, depth_target: depth, extent }
}

/// The descriptor writes of a pass: its inputs' then its outputs' images,
/// then their buffers, each into the descriptor set its binding names.
pub fn node_descriptor_writes(
    inputs: &Vec<ResourceBinding>,
    outputs: &Vec<ResourceBinding>,
    resources: &ResourceMap,
    descriptor_sets: &Vec<u64>,
) -> (writes: Vec<WriteDescriptorSet>)
    requires
        descriptors_resolvable(inputs@, resources@, descriptor_sets@.len()),
        descriptors_resolvable(outputs@, resources@, descriptor_sets@.len()),
    ensures
        writes@ == (image_updates(inputs@, resources@, descriptor_sets@) + image_updates(outputs@, resources@, descriptor_sets@))
            .map_values(|u: DescriptorImageUpdate| image_write(u))
            + (buffer_updates(inputs@, resources@, descriptor_sets@) + buffer_updates(outputs@, resources@, descriptor_sets@))
            .map_values(|u: DescriptorBufferUpdate| buffer_write(u)),
{
    let mut descriptor_updates = DescriptorUpdate::new();
    resolve_descriptors(inputs, resources, descriptor_sets, &mut descriptor_updates);
    resolve_descriptors(outputs, resources, descriptor_sets, &mut descriptor_updates);
    proof {
        assert(descriptor_updates.image_infos@ =~= image_updates(inputs@, resources@, descriptor_sets@)
            + image_updates(outputs@, resources@, descriptor_sets@));
        assert(descriptor_updates.buffer_infos@ =~= buffer_updates(inputs@, resources@, descriptor_sets@)
            + buffer_updates(outputs@, resources@, descriptor_sets@));
    }
    descriptor_updates.create_descriptor_writes()
}


/// One step of recording a graphics pass.
#[derive(Clone, Copy, Debug, PartialEq, Eq, Structural)]
pub enum GraphicsStep {
    /// Fetch or create the render pass and the pipeline, allocate the
    /// descriptor sets and create the framebuffer.
    PrepareRenderPass,
    /// Write the pass's bindings into its descriptor sets and bind them.
    WriteDescriptorSets,
    /// Begin the render pass over the whole framebuffer.
    BeginRenderPass,
    BindPipeline,
    SetViewport,
    SetScissor,
    /// Run the pass's fill callback.
    RecordCommands,
    EndRenderPass,
}

/// The steps that record a graphics pass: with a pipeline, the render pass
/// is prepared, the descriptors written, the render pass begun and the
/// pipeline bound; then the viewport and scissor the pass has are set;
/// then its commands are recorded; with a pipeline, the render pass ends.
pub open spec fn graphics_steps(has_pipeline: bool, has_viewport: bool, has_scissor: bool) -> Seq<GraphicsStep> {
    (if has_pipeline {
        seq![GraphicsStep::PrepareRenderPass, GraphicsStep::WriteDescriptorSets,
            GraphicsStep::BeginRenderPass, GraphicsStep::BindPipeline]
    } else {
        Seq::empty()
    })
        + (if has_viewport { seq![GraphicsStep::SetViewport] } else { Seq::empty() })
        + (if has_scissor { seq![GraphicsStep::SetScissor] } else { Seq::empty() })
        + seq![GraphicsStep::RecordCommands]
        + (if has_pipeline { seq![GraphicsStep::EndRenderPass] } else { Seq::empty() })
}

/// The order in which the executor records `node`; it performs each step
/// in turn.
pub fn graphics_node_steps<F, P, V, B>(node: &GraphicsPassNode<F, P, V, B>) -> (steps: Vec<GraphicsStep>)
    ensures
        steps@ == graphics_steps(node.pipeline_description is Some, node.viewport is Some, node.scissor is Some),
{
    let has_pipeline = node.pipeline_description.is_some();
    let mut steps: Vec<GraphicsStep> = Vec::new();
    if has_pipeline {
        steps.push(GraphicsStep::PrepareRenderPass);
        steps.push(GraphicsStep::WriteDescriptorSets);
        steps.push(GraphicsStep::BeginRenderPass);
        steps.push(GraphicsStep::BindPipeline);
    }
    if node.viewport.is_some() {
        steps.push(GraphicsStep::SetViewport);
    }
    if node.scissor.is_some() {
        steps.push(GraphicsStep::SetScissor);
    }
    steps.push(GraphicsStep::RecordCommands);
    if has_pipeline {
        steps.push(GraphicsStep::EndRenderPass);
    }
    assert(steps@ =~= graphics_steps(node.pipeline_description is Some, node.viewport is Some, node.scissor is Some));
    steps
}

} // verus!
