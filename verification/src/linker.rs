//! Linking: walking the passes in execution order, remembering how each
//! resource was last used, and emitting the image barriers (with layout
//! transitions) that each pass needs before it runs.

use vstd::prelude::*;
use std::collections::HashMap;
use crate::attachment::AttachmentReference;
use crate::barrier::{ImageBarrier, BufferBarrier};
use crate::binding::{BindingType, ResourceBinding};
use crate::resource::{ImageInfo, ResourceMap, ResourceType};
use crate::vk;

verus! {

broadcast use vstd::std_specs::hash::group_hash_axioms;

/// How a resource was last used: access, stage and (for images) layout.
#[derive(Clone, Copy, Debug, PartialEq, Eq, Structural)]
pub struct ResourceUsage {
    pub access: u32,
    pub stage: u32,
    pub layout: Option<i32>,
}

/// The barriers a pass needs before it runs.
pub struct NodeBarriers {
    pub image_barriers: Vec<ImageBarrier>,
    pub buffer_barriers: Vec<BufferBarrier>,
}

/// The most recent usage of each resource, by handle.
pub type UsageCache = HashMap<u64, ResourceUsage>;

/// The accesses that count as writes.
pub const WRITE_ACCESS: u32 = 0x15140u32;

/// An access counts as a write if it includes a color-attachment, shader,
/// transfer, host or memory write, or if it happens at the color-attachment
/// output stage.
pub open spec fn spec_is_write(access: u32, stage: u32) -> bool {
    (WRITE_ACCESS & access) != 0u32 || (vk::STAGE_COLOR_ATTACHMENT_OUTPUT & stage) != 0u32
}

pub fn is_write(access: u32, stage: u32) -> (write: bool)
    ensures
        write == spec_is_write(access, stage),
{
    let write_access = vk::ACCESS_COLOR_ATTACHMENT_WRITE | vk::ACCESS_SHADER_WRITE | vk::ACCESS_TRANSFER_WRITE
        | vk::ACCESS_HOST_WRITE | vk::ACCESS_MEMORY_WRITE;
    assert(0x100u32 | 0x40u32 | 0x1000u32 | 0x4000u32 | 0x10000u32 == 0x15140u32) by (bit_vector);
    let pipeline_write = vk::STAGE_COLOR_ATTACHMENT_OUTPUT;
    (write_access & access != vk::ACCESS_NONE) || (pipeline_write & stage != vk::STAGE_NONE)
}

/// What linking knows between two passes: the last usage of each resource
/// and the resources themselves (images carry their current layout).
pub struct LinkState {
    pub cache: Map<u64, ResourceUsage>,
    pub resources: Map<u64, ResourceType>,
}

/// Every usage in the cache records a layout.
pub open spec fn cache_wf(cache: Map<u64, ResourceUsage>) -> bool {
    forall|h: u64| #[trigger] cache.contains_key(h) ==> cache[h].layout is Some
}

/// Every binding names a resolved resource, and bindings of images bind
/// them as images.
pub open spec fn bindings_resolved(bindings: Seq<ResourceBinding>, resources: Map<u64, ResourceType>) -> bool {
    forall|i: int| 0 <= i < bindings.len() ==> {
        &&& resources.contains_key(#[trigger] bindings[i].resource)
        &&& resources[bindings[i].resource] is Image ==> bindings[i].binding_info.binding_type is Image
    }
}

/// Two resource maps name the same resources, each of the same kind.
pub open spec fn same_kinds(a: Map<u64, ResourceType>, b: Map<u64, ResourceType>) -> bool {
    &&& a.dom() == b.dom()
    &&& forall|h: u64| #[trigger] a.contains_key(h) ==> (a[h] is Image <==> b[h] is Image)
}

/// The usage assumed for an image that nothing in this frame has used yet.
pub open spec fn first_usage(image: ImageInfo) -> ResourceUsage {
    ResourceUsage { access: vk::ACCESS_NONE, stage: vk::STAGE_ALL_COMMANDS, layout: Some(image.layout) }
}

/// The layout a binding wants its image in.
pub open spec fn binding_layout(binding: ResourceBinding) -> i32 {
    binding.binding_info.binding_type->Image_0.layout
}

/// Linking one bound resource. Buffers need nothing. An image needs a
/// barrier if its layout changes or its last usage was a write; the barrier
/// moves it to the binding's layout. Either way the binding's usage becomes
/// the image's last usage.
pub open spec fn input_step(st: LinkState, input: ResourceBinding) -> (Seq<ImageBarrier>, LinkState) {
    let h = input.resource;
    match st.resources[h] {
        ResourceType::Buffer(_) => (Seq::empty(), st),
        ResourceType::Image(image) => {
            let last = if st.cache.contains_key(h) { st.cache[h] } else { first_usage(image) };
            let layout = binding_layout(input);
            let usage = ResourceUsage {
                access: input.binding_info.access,
                stage: input.binding_info.stage,
                layout: Some(layout),
            };
            let layout_changed = match last.layout {
                Some(l) => l != layout,
                None => true,
            };
            if layout_changed || spec_is_write(last.access, last.stage) {
                (
                    seq![ImageBarrier {
                        resource: h,
                        source_stage: last.stage,
                        dest_stage: usage.stage,
                        source_access: last.access,
                        dest_access: usage.access,
                        old_layout: last.layout->Some_0,
                        new_layout: layout,
                    }],
                    LinkState {
                        cache: st.cache.insert(h, usage),
                        resources: st.resources.insert(h, ResourceType::Image(ImageInfo { layout, ..image })),
                    },
                )
            } else {
                (Seq::empty(), LinkState { cache: st.cache.insert(h, usage), resources: st.resources })
            }
        },
    }
}

/// Linking bound resources one after the other.
pub open spec fn inputs_step(inputs: Seq<ResourceBinding>, st: LinkState) -> (Seq<ImageBarrier>, LinkState)
    decreases inputs.len(),
{
    if inputs.len() == 0 {
        (Seq::empty(), st)
    } else {
        let before = inputs_step(inputs.drop_last(), st);
        let last = input_step(before.1, inputs.last());
        (before.0 + last.0, last.1)
    }
}

proof fn lemma_input_step_keeps_kinds(st: LinkState, input: ResourceBinding)
    requires
        st.resources.contains_key(input.resource),
        cache_wf(st.cache),
    ensures
        same_kinds(st.resources, input_step(st, input).1.resources),
        cache_wf(input_step(st, input).1.cache),
{
    let r = input_step(st, input).1.resources;
    assert(r.dom() =~= st.resources.dom());
}

/// Links each of `inputs`, appending the barriers they need to
/// `node_barrier`, recording their usages in `usage_cache` and the new
/// layouts of their images in `resources`.
pub fn link_inputs(
    inputs: &[ResourceBinding],
    node_barrier: &mut NodeBarriers,
    usage_cache: &mut UsageCache,
    resources: &mut ResourceMap,
)
    requires
        bindings_resolved(inputs@, old(resources)@),
        cache_wf(old(usage_cache)@),
    ensures
        final(node_barrier).image_barriers@ == old(node_barrier).image_barriers@ + inputs_step(
            inputs@, LinkState { cache: old(usage_cache)@, resources: old(resources)@ }).0,
        final(node_barrier).buffer_barriers@ == old(node_barrier).buffer_barriers@,
        final(usage_cache)@ == inputs_step(inputs@, LinkState { cache: old(usage_cache)@, resources: old(resources)@ }).1.cache,
        final(resources)@ == inputs_step(inputs@, LinkState { cache: old(usage_cache)@, resources: old(resources)@ }).1.resources,
        cache_wf(final(usage_cache)@),
        same_kinds(old(resources)@, final(resources)@),
{
    let ghost st0 = LinkState { cache: usage_cache@, resources: resources@ };
    let ghost b0 = node_barrier.image_barriers@;
    let mut i: usize = 0;
    while i < inputs.len()
        invariant
            0 <= i <= inputs.len(),
            bindings_resolved(inputs@, st0.resources),
            cache_wf(usage_cache@),
            same_kinds(st0.resources, resources@),
            node_barrier.image_barriers@ == b0 + inputs_step(inputs@.take(i as int), st0).0,
            node_barrier.buffer_barriers@ == old(node_barrier).buffer_barriers@,
            usage_cache@ == inputs_step(inputs@.take(i as int), st0).1.cache,
            resources@ == inputs_step(inputs@.take(i as int), st0).1.resources,
        decreases inputs.len() - i,
    {
        let input = inputs[i];
        let handle = input.resource;
        let ghost st = LinkState { cache: usage_cache@, resources: resources@ };
        proof {
            assert(inputs@.take(i + 1).drop_last() == inputs@.take(i as int));
            assert(inputs@.take(i + 1).last() == input);
            assert(st0.resources.contains_key(handle));
            lemma_input_step_keeps_kinds(st, input);
        }
        let resolved = match resources.get(&handle) {
            Some(r) => *r,
            None => vstd::pervasive::unreached(),
        };
        match resolved {
            ResourceType::Buffer(_) => {
                // Buffers need no barrier here.
            },
            ResourceType::Image(resolved_image) => {
                let last_usage = match usage_cache.get(&handle) {
                    Some(found_usage) => *found_usage,
                    None => ResourceUsage {
                        access: vk::ACCESS_NONE,
                        stage: vk::STAGE_ALL_COMMANDS,
                        layout: Some(resolved_image.layout),
                    },
                };
                let prev_write = is_write(last_usage.access, last_usage.stage);
                let image_layout = match input.binding_info.binding_type {
                    BindingType::Image(image_binding) => image_binding.layout,
                    BindingType::Buffer(_) => vstd::pervasive::unreached(),
                };
                let new_usage = ResourceUsage {
                    access: input.binding_info.access,
                    stage: input.binding_info.stage,
                    layout: Some(image_layout),
                };
                let layout_changed = match last_usage.layout {
                    Some(layout) => layout != image_layout,
                    None => true,
                };
                if layout_changed || prev_write {
                    let old_layout = match last_usage.layout {
                        Some(layout) => layout,
                        None => vstd::pervasive::unreached(),
                    };
                    let image_barrier = ImageBarrier {
                        resource: handle,
                        source_stage: last_usage.stage,
                        dest_stage: new_usage.stage,
                        source_access: last_usage.access,
                        dest_access: new_usage.access,
                        old_layout,
                        new_layout: image_layout,
                    };
                    node_barrier.image_barriers.push(image_barrier);
                    resources.insert(handle, ResourceType::Image(ImageInfo { layout: image_layout, ..resolved_image }));
                }
                usage_cache.insert(handle, new_usage);
            },
        }
        proof {
            assert(node_barrier.image_barriers@ =~= b0 + inputs_step(inputs@.take(i + 1), st0).0);
        }
        i = i + 1;
    }
    proof {
        assert(inputs@.take(inputs.len() as int) == inputs@);
    }
}

/// The usage of a depth attachment during a graphics pass.
pub open spec fn depth_usage() -> ResourceUsage {
    ResourceUsage {
        access: (vk::ACCESS_DEPTH_STENCIL_ATTACHMENT_WRITE | vk::ACCESS_DEPTH_STENCIL_ATTACHMENT_READ),
        stage: (vk::STAGE_COLOR_ATTACHMENT_OUTPUT | vk::STAGE_EARLY_FRAGMENT_TESTS),
        layout: Some(vk::LAYOUT_DEPTH_STENCIL_ATTACHMENT_OPTIMAL),
    }
}

/// The usage of a color attachment during a graphics pass.
pub open spec fn color_usage() -> ResourceUsage {
    ResourceUsage {
        access: (vk::ACCESS_COLOR_ATTACHMENT_WRITE | vk::ACCESS_COLOR_ATTACHMENT_READ),
        stage: (vk::STAGE_COLOR_ATTACHMENT_OUTPUT | vk::STAGE_EARLY_FRAGMENT_TESTS),
        layout: Some(vk::LAYOUT_COLOR_ATTACHMENT_OPTIMAL),
    }
}

/// The barrier that takes `handle` from its last usage to `usage`.
pub open spec fn transition(handle: u64, last: ResourceUsage, usage: ResourceUsage) -> ImageBarrier {
    ImageBarrier {
        resource: handle,
        source_stage: last.stage,
        dest_stage: usage.stage,
        source_access: last.access,
        dest_access: usage.access,
        old_layout: last.layout->Some_0,
        new_layout: usage.layout->Some_0,
    }
}

/// What linking a graphics pass gives: its barriers, its attachments (with
/// the layouts the render pass will find them in) and the state after it.
pub struct AttachmentLink {
    pub barriers: Seq<ImageBarrier>,
    pub render_targets: Seq<AttachmentReference>,
    pub depth_target: Option<AttachmentReference>,
    pub state: LinkState,
}

/// A depth attachment that was used before needs a barrier into the depth
/// layout, and the render pass then finds it in that layout; one that was
/// not keeps its layout. Either way the depth usage becomes its last usage.
pub open spec fn depth_step(st: LinkState, depth_target: Option<AttachmentReference>)
    -> (Seq<ImageBarrier>, Option<AttachmentReference>, LinkState)
{
    match depth_target {
        Some(dt) => {
            let h = dt.resource_image;
            let next = LinkState { cache: st.cache.insert(h, depth_usage()), resources: st.resources };
            if st.cache.contains_key(h) {
                (
                    seq![transition(h, st.cache[h], depth_usage())],
                    Some(AttachmentReference { layout: vk::LAYOUT_DEPTH_STENCIL_ATTACHMENT_OPTIMAL, ..dt }),
                    next,
                )
            } else {
                (Seq::empty(), Some(dt), next)
            }
        },
        None => (Seq::empty(), None, st),
    }
}

/// A render target that was used before needs a barrier into the color
/// layout (render targets always write); either way the color usage becomes
/// its last usage.
pub open spec fn render_target_step(st: LinkState, rt: AttachmentReference) -> (Seq<ImageBarrier>, AttachmentReference, LinkState) {
    let h = rt.resource_image;
    let next = LinkState { cache: st.cache.insert(h, color_usage()), resources: st.resources };
    if st.cache.contains_key(h) {
        (
            seq![transition(h, st.cache[h], color_usage())],
            AttachmentReference { layout: vk::LAYOUT_COLOR_ATTACHMENT_OPTIMAL, ..rt },
            next,
        )
    } else {
        (Seq::empty(), rt, next)
    }
}

pub open spec fn render_targets_step(rts: Seq<AttachmentReference>, st: LinkState) -> (Seq<ImageBarrier>, Seq<AttachmentReference>, LinkState)
    decreases rts.len(),
{
    if rts.len() == 0 {
        (Seq::empty(), Seq::empty(), st)
    } else {
        let before = render_targets_step(rts.drop_last(), st);
        let last = render_target_step(before.2, rts.last());
        (before.0 + last.0, before.1.push(last.1), last.2)
    }
}

proof fn lemma_render_targets_keep_resources(rts: Seq<AttachmentReference>, st: LinkState)
    ensures
        render_targets_step(rts, st).2.resources == st.resources,
        render_targets_step(rts, st).1.len() == rts.len(),
        cache_wf(st.cache) ==> cache_wf(render_targets_step(rts, st).2.cache),
    decreases rts.len(),
{
    if rts.len() > 0 {
        lemma_render_targets_keep_resources(rts.drop_last(), st);
    }
}

/// Linking a graphics pass: its inputs, then its outputs, then its depth
/// target, then its render targets; each is then last used as this pass
/// uses it.
pub open spec fn graphics_step(
    inputs: Seq<ResourceBinding>,
    outputs: Seq<ResourceBinding>,
    depth_target: Option<AttachmentReference>,
    render_targets: Seq<AttachmentReference>,
    st: LinkState,
) -> AttachmentLink {
    let a = inputs_step(inputs, st);
    let b = inputs_step(outputs, a.1);
    let d = depth_step(b.1, depth_target);
    let r = render_targets_step(render_targets, d.2);
    AttachmentLink { barriers: a.0 + b.0 + d.0 + r.0, render_targets: r.1, depth_target: d.1, state: r.2 }
}

proof fn lemma_inputs_step_keeps_kinds(inputs: Seq<ResourceBinding>, st: LinkState)
    requires
        bindings_resolved(inputs, st.resources),
        cache_wf(st.cache),
    ensures
        same_kinds(st.resources, inputs_step(inputs, st).1.resources),
        cache_wf(inputs_step(inputs, st).1.cache),
    decreases inputs.len(),
{
    if inputs.len() > 0 {
        let before = inputs_step(inputs.drop_last(), st);
        assert(bindings_resolved(inputs.drop_last(), st.resources)) by {
            assert forall|i: int| 0 <= i < inputs.drop_last().len() implies st.resources.contains_key(
                #[trigger] inputs.drop_last()[i].resource) by {
                assert(inputs.drop_last()[i] == inputs[i]);
            }
        }
        lemma_inputs_step_keeps_kinds(inputs.drop_last(), st);
        assert(st.resources.contains_key(inputs[inputs.len() - 1].resource));
        lemma_input_step_keeps_kinds(before.1, inputs.last());
    }
}

proof fn lemma_resolved_same_kinds(bindings: Seq<ResourceBinding>, a: Map<u64, ResourceType>, b: Map<u64, ResourceType>)
    requires
        bindings_resolved(bindings, a),
        same_kinds(a, b),
    ensures
        bindings_resolved(bindings, b),
{
    assert forall|i: int| 0 <= i < bindings.len() implies {
        &&& b.contains_key(#[trigger] bindings[i].resource)
        &&& b[bindings[i].resource] is Image ==> bindings[i].binding_info.binding_type is Image
    } by {
        assert(a.contains_key(bindings[i].resource));
    }
}

/// A graphics pass after linking: the same as before but for the layouts of
/// its attachments.
pub open spec fn relinked<F, P, V, B>(
    before: crate::graphics_pass_node::GraphicsPassNode<F, P, V, B>,
    after: crate::graphics_pass_node::GraphicsPassNode<F, P, V, B>,
    link: AttachmentLink,
) -> bool {
    &&& after.render_targets@ == link.render_targets
    &&& after.depth_target == link.depth_target
    &&& after.pipeline_description == before.pipeline_description
    &&& after.inputs == before.inputs
    &&& after.outputs == before.outputs
    &&& after.tagged_resources == before.tagged_resources
    &&& after.framebuffer == before.framebuffer
    &&& after.viewport == before.viewport
    &&& after.scissor == before.scissor
    &&& after.fill_callback == before.fill_callback
    &&& after.name == before.name
}

/// Links a graphics pass (see `graphics_step`), updating the layouts its
/// attachments will be found in.
pub fn link_graphics_node<F, P, V, B>(
    node: &mut crate::graphics_pass_node::GraphicsPassNode<F, P, V, B>,
    usage_cache: &mut UsageCache,
    resources: &mut ResourceMap,
) -> (node_barrier: NodeBarriers)
    requires
        bindings_resolved(old(node).inputs@, old(resources)@),
        bindings_resolved(old(node).outputs@, old(resources)@),
        cache_wf(old(usage_cache)@),
    ensures
        node_barrier.image_barriers@ == graphics_step(old(node).inputs@, old(node).outputs@,
            old(node).depth_target, old(node).render_targets@,
            LinkState { cache: old(usage_cache)@, resources: old(resources)@ }).barriers,
        node_barrier.buffer_barriers@.len() == 0,
        relinked(*old(node), *final(node), graphics_step(old(node).inputs@, old(node).outputs@,
            old(node).depth_target, old(node).render_targets@,
            LinkState { cache: old(usage_cache)@, resources: old(resources)@ })),
        final(usage_cache)@ == graphics_step(old(node).inputs@, old(node).outputs@,
            old(node).depth_target, old(node).render_targets@,
            LinkState { cache: old(usage_cache)@, resources: old(resources)@ }).state.cache,
        final(resources)@ == graphics_step(old(node).inputs@, old(node).outputs@,
            old(node).depth_target, old(node).render_targets@,
            LinkState { cache: old(usage_cache)@, resources: old(resources)@ }).state.resources,
        cache_wf(final(usage_cache)@),
        same_kinds(old(resources)@, final(resources)@),
{
    let ghost st0 = LinkState { cache: usage_cache@, resources: resources@ };
    let mut node_barrier = NodeBarriers { image_barriers: Vec::new(), buffer_barriers: Vec::new() };
    link_inputs(node.inputs.as_slice(), &mut node_barrier, usage_cache, resources);
    proof {
        lemma_resolved_same_kinds(node.outputs@, st0.resources, resources@);
    }
    link_inputs(node.outputs.as_slice(), &mut node_barrier, usage_cache, resources);
    let ghost after_bindings = node_barrier.image_barriers@;
    let ghost st_b = LinkState { cache: usage_cache@, resources: resources@ };

    let depth = node.depth_target;
    match depth {
        Some(dt) => {
            let handle = dt.resource_image;
            let new_usage = ResourceUsage {
                access: vk::ACCESS_DEPTH_STENCIL_ATTACHMENT_WRITE | vk::ACCESS_DEPTH_STENCIL_ATTACHMENT_READ,
                stage: vk::STAGE_COLOR_ATTACHMENT_OUTPUT | vk::STAGE_EARLY_FRAGMENT_TESTS,
                layout: Some(vk::LAYOUT_DEPTH_STENCIL_ATTACHMENT_OPTIMAL),
            };
            match usage_cache.get(&handle) {
                Some(usage) => {
                    let usage = *usage;
                    // The render pass expects the attachment in the
                    // post-barrier layout.
                    let new_dt = AttachmentReference { layout: vk::LAYOUT_DEPTH_STENCIL_ATTACHMENT_OPTIMAL, ..dt };
                    node.depth_target = Some(new_dt);
                    let old_layout = match usage.layout {
                        Some(layout) => layout,
                        None => vstd::pervasive::unreached(),
                    };
                    node_barrier.image_barriers.push(ImageBarrier {
                        resource: handle,
                        source_stage: usage.stage,
                        dest_stage: new_usage.stage,
                        source_access: usage.access,
                        dest_access: new_usage.access,
                        old_layout,
                        new_layout: new_dt.layout,
                    });
                },
                None => {},
            }
            usage_cache.insert(handle, new_usage);
        },
        None => {},
    }
    proof {
        assert(node_barrier.image_barriers@ =~= after_bindings + depth_step(st_b, old(node).depth_target).0);
        assert(usage_cache@ =~= depth_step(st_b, old(node).depth_target).2.cache);
    }
    let ghost after_depth = node_barrier.image_barriers@;
    let ghost st_d = depth_step(st_b, old(node).depth_target).2;

    let mut i: usize = 0;
    while i < node.render_targets.len()
        invariant
            0 <= i <= node.render_targets.len(),
            node.render_targets.len() == old(node).render_targets.len(),
            cache_wf(usage_cache@),
            resources@ == st_b.resources,
            node_barrier.buffer_barriers@.len() == 0,
            node.depth_target == depth_step(st_b, old(node).depth_target).1,
            node.pipeline_description == old(node).pipeline_description,
            node.inputs == old(node).inputs,
            node.outputs == old(node).outputs,
            node.tagged_resources == old(node).tagged_resources,
            node.framebuffer == old(node).framebuffer,
            node.viewport == old(node).viewport,
            node.scissor == old(node).scissor,
            node.fill_callback == old(node).fill_callback,
            node.name == old(node).name,
            forall|j: int| i <= j < node.render_targets.len() ==> node.render_targets@[j] == old(node).render_targets@[j],
            node.render_targets@.take(i as int) == render_targets_step(old(node).render_targets@.take(i as int), st_d).1,
            node_barrier.image_barriers@ == after_depth + render_targets_step(old(node).render_targets@.take(i as int), st_d).0,
            usage_cache@ == render_targets_step(old(node).render_targets@.take(i as int), st_d).2.cache,
        decreases node.render_targets.len() - i,
    {
        let rt = node.render_targets[i];
        let handle = rt.resource_image;
        let new_usage = ResourceUsage {
            access: vk::ACCESS_COLOR_ATTACHMENT_WRITE | vk::ACCESS_COLOR_ATTACHMENT_READ,
            stage: vk::STAGE_COLOR_ATTACHMENT_OUTPUT | vk::STAGE_EARLY_FRAGMENT_TESTS,
            layout: Some(vk::LAYOUT_COLOR_ATTACHMENT_OPTIMAL),
        };
        let ghost prev = old(node).render_targets@.take(i as int);
        let ghost next = old(node).render_targets@.take(i + 1);
        proof {
            assert(next.drop_last() == prev);
            assert(next.last() == rt);
        }
        match usage_cache.get(&handle) {
            Some(usage) => {
                let usage = *usage;
                let new_rt = AttachmentReference { layout: vk::LAYOUT_COLOR_ATTACHMENT_OPTIMAL, ..rt };
                node.render_targets.set(i, new_rt);
                let old_layout = match usage.layout {
                    Some(layout) => layout,
                    None => vstd::pervasive::unreached(),
                };
                node_barrier.image_barriers.push(ImageBarrier {
                    resource: handle,
                    source_stage: usage.stage,
                    dest_stage: new_usage.stage,
                    source_access: usage.access,
                    dest_access: new_usage.access,
                    old_layout,
                    new_layout: new_rt.layout,
                });
            },
            None => {},
        }
        usage_cache.insert(handle, new_usage);
        proof {
            assert(node.render_targets@.take(i + 1) =~= render_targets_step(next, st_d).1);
            assert(node_barrier.image_barriers@ =~= after_depth + render_targets_step(next, st_d).0);
        }
        i = i + 1;
    }
    proof {
        lemma_render_targets_keep_resources(old(node).render_targets@, st_d);
        assert(old(node).render_targets@.take(old(node).render_targets.len() as int) == old(node).render_targets@);
        assert(node.render_targets@.take(node.render_targets.len() as int) == node.render_targets@);
        assert(node_barrier.image_barriers@ =~= graphics_step(old(node).inputs@, old(node).outputs@,
            old(node).depth_target, old(node).render_targets@, st0).barriers);
        assert(resources@.dom() =~= st_b.resources.dom());
    }
    node_barrier
}

/// The usage of a copy source.
pub open spec fn copy_source_usage() -> ResourceUsage {
    ResourceUsage { access: vk::ACCESS_TRANSFER_READ, stage: vk::STAGE_TRANSFER, layout: Some(vk::LAYOUT_TRANSFER_SRC_OPTIMAL) }
}

/// The usage of a copy destination.
pub open spec fn copy_dest_usage() -> ResourceUsage {
    ResourceUsage { access: vk::ACCESS_TRANSFER_WRITE, stage: vk::STAGE_TRANSFER, layout: Some(vk::LAYOUT_TRANSFER_DST_OPTIMAL) }
}

/// The last usage of `handle`, or an undefined-layout usage at
/// `default_stage` if it has none.
pub open spec fn last_usage_or(cache: Map<u64, ResourceUsage>, handle: u64, default_stage: u32) -> ResourceUsage {
    if cache.contains_key(handle) {
        cache[handle]
    } else {
        ResourceUsage { access: vk::ACCESS_NONE, stage: default_stage, layout: Some(vk::LAYOUT_UNDEFINED) }
    }
}

/// Linking the sources (or the destinations) of a copy pass in order: each
/// gets a barrier from its last usage (an undefined-layout usage at
/// `default_stage` if it has none) into `usage`, which then becomes its
/// last usage.
pub open spec fn copy_step(handles: Seq<u64>, cache: Map<u64, ResourceUsage>, default_stage: u32, usage: ResourceUsage)
    -> (Seq<ImageBarrier>, Map<u64, ResourceUsage>)
    decreases handles.len(),
{
    if handles.len() == 0 {
        (Seq::empty(), cache)
    } else {
        let before = copy_step(handles.drop_last(), cache, default_stage, usage);
        let h = handles.last();
        (before.0.push(transition(h, last_usage_or(before.1, h, default_stage), usage)), before.1.insert(h, usage))
    }
}

/// Linking a copy pass: its sources, then its destinations; a barrier is
/// always required. Gives the barriers and the usages after it.
pub open spec fn copy_link(cache: Map<u64, ResourceUsage>, sources: Seq<u64>, dests: Seq<u64>)
    -> (Seq<ImageBarrier>, Map<u64, ResourceUsage>)
{
    let s = copy_step(sources, cache, vk::STAGE_ALL_COMMANDS, copy_source_usage());
    let d = copy_step(dests, s.1, vk::STAGE_TOP_OF_PIPE, copy_dest_usage());
    (s.0 + d.0, d.1)
}

/// The usages after each of `handles` is used as `usage`; the others keep
/// theirs.
pub open spec fn used_as(cache: Map<u64, ResourceUsage>, handles: Seq<u64>, usage: ResourceUsage) -> Map<u64, ResourceUsage> {
    Map::new(
        |h: u64| cache.contains_key(h) || handles.contains(h),
        |h: u64| if handles.contains(h) { usage } else { cache[h] },
    )
}

proof fn lemma_copy_step_uses(handles: Seq<u64>, cache: Map<u64, ResourceUsage>, default_stage: u32, usage: ResourceUsage)
    ensures
        copy_step(handles, cache, default_stage, usage).1 == used_as(cache, handles, usage),
        copy_step(handles, cache, default_stage, usage).0.len() == handles.len(),
        cache_wf(cache) && usage.layout is Some ==> cache_wf(copy_step(handles, cache, default_stage, usage).1),
    decreases handles.len(),
{
    if handles.len() > 0 {
        let prev = handles.drop_last();
        lemma_copy_step_uses(prev, cache, default_stage, usage);
        assert forall|h: u64| #[trigger] handles.contains(h) <==> prev.contains(h) || h == handles.last() by {
            if handles.contains(h) {
                let j = choose|j: int| 0 <= j < handles.len() && handles[j] == h;
                if j < handles.len() - 1 {
                    assert(prev[j] == h);
                }
            }
            if prev.contains(h) {
                let j = choose|j: int| 0 <= j < prev.len() && prev[j] == h;
                assert(handles[j] == h);
            }
            if h == handles.last() {
                assert(handles[handles.len() - 1] == h);
            }
        }
        assert(copy_step(handles, cache, default_stage, usage).1 =~= used_as(cache, handles, usage));
    } else {
        assert(copy_step(handles, cache, default_stage, usage).1 =~= used_as(cache, handles, usage));
    }
}

/// Links the sources (or destinations) of a copy pass (see `copy_step`).
fn link_copy_handles(
    handles: &Vec<u64>,
    usage_cache: &mut UsageCache,
    default_stage: u32,
    new_usage: ResourceUsage,
    node_barrier: &mut NodeBarriers,
)
    requires
        cache_wf(old(usage_cache)@),
        new_usage.layout is Some,
    ensures
        final(node_barrier).image_barriers@ == old(node_barrier).image_barriers@
            + copy_step(handles@, old(usage_cache)@, default_stage, new_usage).0,
        final(usage_cache)@ == copy_step(handles@, old(usage_cache)@, default_stage, new_usage).1,
        final(node_barrier).buffer_barriers@ == old(node_barrier).buffer_barriers@,
        cache_wf(final(usage_cache)@),
{
    let ghost b0 = node_barrier.image_barriers@;
    let ghost c0 = usage_cache@;
    let new_layout = match new_usage.layout {
        Some(layout) => layout,
        None => vstd::pervasive::unreached(),
    };
    let mut i: usize = 0;
    while i < handles.len()
        invariant
            0 <= i <= handles.len(),
            cache_wf(usage_cache@),
            new_usage.layout == Some(new_layout),
            node_barrier.buffer_barriers@ == old(node_barrier).buffer_barriers@,
            node_barrier.image_barriers@ == b0 + copy_step(handles@.take(i as int), c0, default_stage, new_usage).0,
            usage_cache@ == copy_step(handles@.take(i as int), c0, default_stage, new_usage).1,
        decreases handles.len() - i,
    {
        let handle = handles[i];
        let ghost prev = handles@.take(i as int);
        let ghost next = handles@.take(i + 1);
        proof {
            assert(next.drop_last() == prev);
            assert(next.last() == handle);
        }
        let last_usage = match usage_cache.get(&handle) {
            Some(found_usage) => *found_usage,
            None => ResourceUsage { access: vk::ACCESS_NONE, stage: default_stage, layout: Some(vk::LAYOUT_UNDEFINED) },
        };
        let old_layout = match last_usage.layout {
            Some(layout) => layout,
            None => vstd::pervasive::unreached(),
        };
        // For copy sources and destinations, a barrier is always required.
        node_barrier.image_barriers.push(ImageBarrier {
            resource: handle,
            source_stage: last_usage.stage,
            dest_stage: new_usage.stage,
            source_access: last_usage.access,
            dest_access: new_usage.access,
            old_layout,
            new_layout,
        });
        usage_cache.insert(handle, new_usage);
        proof {
            assert(node_barrier.image_barriers@ =~= b0 + copy_step(next, c0, default_stage, new_usage).0);
            assert(usage_cache@ =~= copy_step(next, c0, default_stage, new_usage).1);
        }
        i = i + 1;
    }
    proof {
        assert(handles@.take(handles.len() as int) == handles@);
    }
}

/// Links a copy pass (see `copy_link`): each source is then last used as a
/// transfer source and each destination as a transfer destination (after
/// the sources); every other resource keeps its last usage.
pub fn link_copy_node<F>(node: &mut crate::copy_pass_node::CopyPassNode<F>, usage_cache: &mut UsageCache) -> (node_barrier: NodeBarriers)
    requires
        cache_wf(old(usage_cache)@),
    ensures
        node_barrier.image_barriers@ == copy_link(old(usage_cache)@, old(node).copy_sources@, old(node).copy_dests@).0,
        node_barrier.buffer_barriers@.len() == 0,
        *final(node) == *old(node),
        final(usage_cache)@ == copy_link(old(usage_cache)@, old(node).copy_sources@, old(node).copy_dests@).1,
        final(usage_cache)@ == used_as(used_as(old(usage_cache)@, old(node).copy_sources@, copy_source_usage()),
            old(node).copy_dests@, copy_dest_usage()),
        cache_wf(final(usage_cache)@),
{
    let ghost c0 = usage_cache@;
    let mut node_barrier = NodeBarriers { image_barriers: Vec::new(), buffer_barriers: Vec::new() };
    let source_usage = ResourceUsage {
        access: vk::ACCESS_TRANSFER_READ,
        stage: vk::STAGE_TRANSFER,
        layout: Some(vk::LAYOUT_TRANSFER_SRC_OPTIMAL),
    };
    link_copy_handles(&node.copy_sources, usage_cache, vk::STAGE_ALL_COMMANDS, source_usage, &mut node_barrier);
    let ghost c1 = usage_cache@;
    let dest_usage = ResourceUsage {
        access: vk::ACCESS_TRANSFER_WRITE,
        stage: vk::STAGE_TRANSFER,
        layout: Some(vk::LAYOUT_TRANSFER_DST_OPTIMAL),
    };
    link_copy_handles(&node.copy_dests, usage_cache, vk::STAGE_TOP_OF_PIPE, dest_usage, &mut node_barrier);
    proof {
        lemma_copy_step_uses(node.copy_sources@, c0, vk::STAGE_ALL_COMMANDS, copy_source_usage());
        lemma_copy_step_uses(node.copy_dests@, c1, vk::STAGE_TOP_OF_PIPE, copy_dest_usage());
        assert(node_barrier.image_barriers@ =~= copy_link(c0, node.copy_sources@, node.copy_dests@).0);
    }
    node_barrier
}

/// Links a compute pass: its inputs, then its outputs.
pub open spec fn compute_step(inputs: Seq<ResourceBinding>, outputs: Seq<ResourceBinding>, st: LinkState) -> (Seq<ImageBarrier>, LinkState) {
    let a = inputs_step(inputs, st);
    let b = inputs_step(outputs, a.1);
    (a.0 + b.0, b.1)
}

pub fn link_compute_node<F>(
    node: &mut crate::compute_pass_node::ComputePassNode<F>,
    usage_cache: &mut UsageCache,
    resources: &mut ResourceMap,
) -> (node_barrier: NodeBarriers)
    requires
        bindings_resolved(old(node).inputs@, old(resources)@),
        bindings_resolved(old(node).outputs@, old(resources)@),
        cache_wf(old(usage_cache)@),
    ensures
        node_barrier.image_barriers@ == compute_step(old(node).inputs@, old(node).outputs@,
            LinkState { cache: old(usage_cache)@, resources: old(resources)@ }).0,
        node_barrier.buffer_barriers@.len() == 0,
        *final(node) == *old(node),
        final(usage_cache)@ == compute_step(old(node).inputs@, old(node).outputs@,
            LinkState { cache: old(usage_cache)@, resources: old(resources)@ }).1.cache,
        final(resources)@ == compute_step(old(node).inputs@, old(node).outputs@,
            LinkState { cache: old(usage_cache)@, resources: old(resources)@ }).1.resources,
        cache_wf(final(usage_cache)@),
        same_kinds(old(resources)@, final(resources)@),
{
    let ghost r0 = resources@;
    let mut node_barrier = NodeBarriers { image_barriers: Vec::new(), buffer_barriers: Vec::new() };
    link_inputs(node.inputs.as_slice(), &mut node_barrier, usage_cache, resources);
    proof {
        lemma_resolved_same_kinds(node.outputs@, r0, resources@);
    }
    link_inputs(node.outputs.as_slice(), &mut node_barrier, usage_cache, resources);
    proof {
        assert(node_barrier.image_barriers@ =~= compute_step(old(node).inputs@, old(node).outputs@,
            LinkState { cache: old(usage_cache)@, resources: r0 }).0);
    }
    node_barrier
}

/// The usage of a swapchain image handed to presentation.
pub open spec fn present_usage() -> ResourceUsage {
    ResourceUsage { access: vk::ACCESS_NONE, stage: vk::STAGE_BOTTOM_OF_PIPE, layout: Some(vk::LAYOUT_PRESENT_SRC) }
}

/// Linking a present pass: the swapchain image always gets a barrier from
/// its last usage (or, unused, from its current layout at the top of the
/// pipe) into the present layout, which becomes its layout and last usage.
pub open spec fn present_step(swapchain_image: u64, st: LinkState) -> (Seq<ImageBarrier>, LinkState) {
    let image = st.resources[swapchain_image]->Image_0;
    let last = if st.cache.contains_key(swapchain_image) {
        st.cache[swapchain_image]
    } else {
        ResourceUsage { access: vk::ACCESS_NONE, stage: vk::STAGE_TOP_OF_PIPE, layout: Some(image.layout) }
    };
    (
        seq![transition(swapchain_image, last, present_usage())],
        LinkState {
            cache: st.cache.insert(swapchain_image, present_usage()),
            resources: st.resources.insert(
                swapchain_image, ResourceType::Image(ImageInfo { layout: vk::LAYOUT_PRESENT_SRC, ..image })),
        },
    )
}

pub fn link_present_node(
    node: &mut crate::present_pass_node::PresentPassNode,
    usage_cache: &mut UsageCache,
    resources: &mut ResourceMap,
) -> (node_barrier: NodeBarriers)
    requires
        crate::resource::is_image(old(resources)@, old(node).swapchain_image),
        cache_wf(old(usage_cache)@),
    ensures
        node_barrier.image_barriers@ == present_step(old(node).swapchain_image,
            LinkState { cache: old(usage_cache)@, resources: old(resources)@ }).0,
        node_barrier.buffer_barriers@.len() == 0,
        *final(node) == *old(node),
        final(usage_cache)@ == present_step(old(node).swapchain_image,
            LinkState { cache: old(usage_cache)@, resources: old(resources)@ }).1.cache,
        final(resources)@ == present_step(old(node).swapchain_image,
            LinkState { cache: old(usage_cache)@, resources: old(resources)@ }).1.resources,
        cache_wf(final(usage_cache)@),
        same_kinds(old(resources)@, final(resources)@),
{
    let mut node_barrier = NodeBarriers { image_barriers: Vec::new(), buffer_barriers: Vec::new() };
    let handle = node.swapchain_image;
    let swapchain_image = match resources.get(&handle) {
        Some(ResourceType::Image(image)) => *image,
        _ => vstd::pervasive::unreached(),
    };
    let last_usage = match usage_cache.get(&handle) {
        Some(found_usage) => *found_usage,
        None => ResourceUsage { access: vk::ACCESS_NONE, stage: vk::STAGE_TOP_OF_PIPE, layout: Some(swapchain_image.layout) },
    };
    let new_usage = ResourceUsage {
        access: vk::ACCESS_NONE,
        stage: vk::STAGE_BOTTOM_OF_PIPE,
        layout: Some(vk::LAYOUT_PRESENT_SRC),
    };
    let old_layout = match last_usage.layout {
        Some(layout) => layout,
        None => vstd::pervasive::unreached(),
    };
    node_barrier.image_barriers.push(ImageBarrier {
        resource: handle,
        source_stage: last_usage.stage,
        dest_stage: new_usage.stage,
        source_access: last_usage.access,
        dest_access: new_usage.access,
        old_layout,
        new_layout: vk::LAYOUT_PRESENT_SRC,
    });
    resources.insert(handle, ResourceType::Image(ImageInfo { layout: vk::LAYOUT_PRESENT_SRC, ..swapchain_image }));
    usage_cache.insert(handle, new_usage);
    proof {
        assert(node_barrier.image_barriers@ =~= present_step(handle,
            LinkState { cache: old(usage_cache)@, resources: old(resources)@ }).0);
        assert(resources@.dom() =~= old(resources)@.dom());
    }
    node_barrier
}


/// Linking a bound image leaves it in the binding's layout, with the
/// binding's usage as its last usage, where the image's last usage was
/// recorded in the layout it is in.
pub proof fn law_linked_image_takes_binding_usage(st: LinkState, input: ResourceBinding)
    requires
        st.resources.contains_key(input.resource),
        st.resources[input.resource] is Image,
        st.cache.contains_key(input.resource) ==> st.cache[input.resource].layout
            == Some(st.resources[input.resource]->Image_0.layout),
    ensures
        ({
            let after = input_step(st, input).1;
            &&& after.cache.contains_key(input.resource)
            &&& after.cache[input.resource] == (ResourceUsage {
                access: input.binding_info.access,
                stage: input.binding_info.stage,
                layout: Some(binding_layout(input)),
            })
            &&& after.resources[input.resource] is Image
            &&& after.resources[input.resource]->Image_0.layout == binding_layout(input)
        }),
{
}

/// Reading an image again, in the same layout, with no write since, needs
/// no second barrier.
pub proof fn law_repeated_read_needs_no_barrier(st: LinkState, input: ResourceBinding)
    requires
        st.resources.contains_key(input.resource),
        st.resources[input.resource] is Image,
        !spec_is_write(input.binding_info.access, input.binding_info.stage),
    ensures
        input_step(input_step(st, input).1, input).0 == Seq::<ImageBarrier>::empty(),
{
}

/// Reading an image whose last usage was a write always needs a barrier,
/// from that write to the read.
pub proof fn law_read_after_write_needs_barrier(st: LinkState, input: ResourceBinding)
    requires
        st.resources.contains_key(input.resource),
        st.resources[input.resource] is Image,
        st.cache.contains_key(input.resource),
        spec_is_write(st.cache[input.resource].access, st.cache[input.resource].stage),
    ensures
        input_step(st, input).0.len() == 1,
        input_step(st, input).0[0].source_stage == st.cache[input.resource].stage,
        input_step(st, input).0[0].source_access == st.cache[input.resource].access,
        input_step(st, input).0[0].dest_stage == input.binding_info.stage,
        input_step(st, input).0[0].dest_access == input.binding_info.access,
        input_step(st, input).0[0].new_layout == binding_layout(input),
{
}

/// The handles of the attachments, in order.
pub open spec fn attachment_resources(rts: Seq<AttachmentReference>) -> Seq<u64> {
    rts.map_values(|rt: AttachmentReference| rt.resource_image)
}

proof fn lemma_render_targets_record_color(rts: Seq<AttachmentReference>, st: LinkState)
    ensures
        render_targets_step(rts, st).2.cache == used_as(st.cache, attachment_resources(rts), color_usage()),
    decreases rts.len(),
{
    let hs = attachment_resources(rts);
    if rts.len() > 0 {
        let prev = rts.drop_last();
        lemma_render_targets_record_color(prev, st);
        assert(attachment_resources(prev) =~= hs.drop_last());
        assert forall|h: u64| #[trigger] hs.contains(h) <==> attachment_resources(prev).contains(h) || h == rts.last().resource_image by {
            if hs.contains(h) {
                let j = choose|j: int| 0 <= j < hs.len() && hs[j] == h;
                if j < hs.len() - 1 {
                    assert(attachment_resources(prev)[j] == h);
                }
            }
            if attachment_resources(prev).contains(h) {
                let j = choose|j: int| 0 <= j < attachment_resources(prev).len() && attachment_resources(prev)[j] == h;
                assert(hs[j] == h);
            }
            if h == rts.last().resource_image {
                assert(hs[hs.len() - 1] == h);
            }
        }
    }
    assert(render_targets_step(rts, st).2.cache =~= used_as(st.cache, hs, color_usage()));
}

/// After a graphics pass is linked, each of its render targets was last
/// used as a color attachment and its depth target (where it is no render
/// target too) as a depth attachment: the next pass that uses one of them
/// starts its barrier from that usage.
pub proof fn law_attachments_record_their_usage(
    inputs: Seq<ResourceBinding>,
    outputs: Seq<ResourceBinding>,
    depth_target: Option<AttachmentReference>,
    render_targets: Seq<AttachmentReference>,
    st: LinkState,
)
    ensures
        ({
            let after = graphics_step(inputs, outputs, depth_target, render_targets, st).state.cache;
            &&& (forall|j: int| 0 <= j < render_targets.len() ==>
                after.contains_key(#[trigger] render_targets[j].resource_image)
                && after[render_targets[j].resource_image] == color_usage())
            &&& (depth_target matches Some(d) ==> (!attachment_resources(render_targets).contains(d.resource_image)
                ==> after.contains_key(d.resource_image) && after[d.resource_image] == depth_usage()))
        }),
{
    let a = inputs_step(inputs, st);
    let b = inputs_step(outputs, a.1);
    let d = depth_step(b.1, depth_target);
    lemma_render_targets_record_color(render_targets, d.2);
    assert forall|j: int| 0 <= j < render_targets.len() implies
        attachment_resources(render_targets).contains(#[trigger] render_targets[j].resource_image) by {
        assert(attachment_resources(render_targets)[j] == render_targets[j].resource_image);
    }
}

/// After a copy pass is linked, each destination was last used as a
/// transfer destination, each other source as a transfer source, and every
/// resource the copy does not touch keeps its last usage.
pub proof fn law_copy_records_transfer_usage(cache: Map<u64, ResourceUsage>, sources: Seq<u64>, dests: Seq<u64>)
    ensures
        ({
            let after = copy_link(cache, sources, dests).1;
            &&& forall|h: u64| #[trigger] dests.contains(h) ==> after.contains_key(h) && after[h] == copy_dest_usage()
            &&& forall|h: u64| #[trigger] sources.contains(h) && !dests.contains(h)
                ==> after.contains_key(h) && after[h] == copy_source_usage()
            &&& forall|h: u64| !sources.contains(h) && !dests.contains(h) ==>
                (#[trigger] after.contains_key(h) == cache.contains_key(h)) && (cache.contains_key(h) ==> after[h] == cache[h])
        }),
{
    let s = copy_step(sources, cache, vk::STAGE_ALL_COMMANDS, copy_source_usage());
    lemma_copy_step_uses(sources, cache, vk::STAGE_ALL_COMMANDS, copy_source_usage());
    lemma_copy_step_uses(dests, s.1, vk::STAGE_TOP_OF_PIPE, copy_dest_usage());
}

/// A barrier for a bound image that was used before starts from that last
/// usage: its stage, access and layout.
pub proof fn law_barrier_starts_from_last_usage(st: LinkState, input: ResourceBinding)
    requires
        st.resources.contains_key(input.resource),
        st.resources[input.resource] is Image,
        st.cache.contains_key(input.resource),
        st.cache[input.resource].layout is Some,
    ensures
        forall|k: int| 0 <= k < input_step(st, input).0.len() ==> {
            &&& (#[trigger] input_step(st, input).0[k]).source_stage == st.cache[input.resource].stage
            &&& input_step(st, input).0[k].source_access == st.cache[input.resource].access
            &&& Some(input_step(st, input).0[k].old_layout) == st.cache[input.resource].layout
        },
{
}

proof fn lemma_render_target_barriers(rts: Seq<AttachmentReference>, st: LinkState)
    ensures
        render_targets_step(rts, st).1.len() == rts.len(),
        forall|j: int| 0 <= j < rts.len() && st.cache.contains_key(#[trigger] rts[j].resource_image)
            && (forall|i: int| 0 <= i < j ==> rts[i].resource_image != rts[j].resource_image) ==> {
                &&& render_targets_step(rts, st).0.contains(
                    transition(rts[j].resource_image, st.cache[rts[j].resource_image], color_usage()))
                &&& render_targets_step(rts, st).1[j].layout == vk::LAYOUT_COLOR_ATTACHMENT_OPTIMAL
            },
    decreases rts.len(),
{
    if rts.len() > 0 {
        let prev = rts.drop_last();
        lemma_render_target_barriers(prev, st);
        lemma_render_targets_record_color(prev, st);
        let before = render_targets_step(prev, st);
        let last = render_target_step(before.2, rts.last());
        let all = render_targets_step(rts, st);
        assert forall|j: int| 0 <= j < rts.len() && st.cache.contains_key(#[trigger] rts[j].resource_image)
            && (forall|i: int| 0 <= i < j ==> rts[i].resource_image != rts[j].resource_image) implies {
                &&& all.0.contains(transition(rts[j].resource_image, st.cache[rts[j].resource_image], color_usage()))
                &&& all.1[j].layout == vk::LAYOUT_COLOR_ATTACHMENT_OPTIMAL
            } by {
            let h = rts[j].resource_image;
            let b = transition(h, st.cache[h], color_usage());
            if j < rts.len() - 1 {
                assert(prev[j] == rts[j]);
                assert(forall|i: int| 0 <= i < j ==> prev[i] == rts[i]);
                assert(before.0.contains(b));
                let k = choose|k: int| 0 <= k < before.0.len() && before.0[k] == b;
                assert(all.0[k] == b);
                assert(all.1[j] == before.1[j]);
            } else {
                assert(!attachment_resources(prev).contains(h)) by {
                    if attachment_resources(prev).contains(h) {
                        let i = choose|i: int| 0 <= i < attachment_resources(prev).len() && attachment_resources(prev)[i] == h;
                        assert(rts[i].resource_image == prev[i].resource_image);
                    }
                }
                assert(before.2.cache.contains_key(h) && before.2.cache[h] == st.cache[h]);
                assert(last.0 == seq![b]);
                assert(all.0[before.0.len() as int] == b);
            }
        }
    }
}

/// Render targets always write: in a graphics pass, a render target whose
/// image was used before (and that no earlier render target of the pass
/// names) gets a barrier from that last usage (its stage, access and
/// layout) into the color-attachment stage, access and layout, and the
/// render pass then finds it in the color-attachment layout.
pub proof fn law_used_render_target_gets_barrier(render_targets: Seq<AttachmentReference>, st: LinkState, j: int)
    requires
        0 <= j < render_targets.len(),
        st.cache.contains_key(render_targets[j].resource_image),
        forall|i: int| 0 <= i < j ==> render_targets[i].resource_image != render_targets[j].resource_image,
    ensures
        ({
            let h = render_targets[j].resource_image;
            let link = graphics_step(Seq::empty(), Seq::empty(), None, render_targets, st);
            &&& link.barriers.contains(ImageBarrier {
                resource: h,
                source_stage: st.cache[h].stage,
                dest_stage: vk::STAGE_COLOR_ATTACHMENT_OUTPUT | vk::STAGE_EARLY_FRAGMENT_TESTS,
                source_access: st.cache[h].access,
                dest_access: vk::ACCESS_COLOR_ATTACHMENT_WRITE | vk::ACCESS_COLOR_ATTACHMENT_READ,
                old_layout: st.cache[h].layout->Some_0,
                new_layout: vk::LAYOUT_COLOR_ATTACHMENT_OPTIMAL,
            })
            &&& link.render_targets[j].layout == vk::LAYOUT_COLOR_ATTACHMENT_OPTIMAL
        }),
{
    let a = inputs_step(Seq::<ResourceBinding>::empty(), st);
    let b = inputs_step(Seq::<ResourceBinding>::empty(), a.1);
    lemma_render_target_barriers(render_targets, st);
    assert(render_targets[j] == render_targets[j]);
    let link = graphics_step(Seq::empty(), Seq::empty(), None, render_targets, st);
    let r = render_targets_step(render_targets, st);
    let bar = transition(render_targets[j].resource_image, st.cache[render_targets[j].resource_image], color_usage());
    assert(r.0.contains(bar));
    let k = choose|k: int| 0 <= k < r.0.len() && r.0[k] == bar;
    assert(link.barriers =~= r.0);
}

/// A depth target whose image was used before gets a barrier from that
/// last usage into the depth-attachment stage, access and layout, and the
/// render pass then finds it in the depth-attachment layout; one not used
/// before needs no barrier and keeps its layout.
pub proof fn law_used_depth_target_gets_barrier(d: AttachmentReference, st: LinkState)
    ensures
        ({
            let h = d.resource_image;
            let link = graphics_step(Seq::empty(), Seq::empty(), Some(d), Seq::empty(), st);
            &&& st.cache.contains_key(h) ==> {
                &&& link.barriers == seq![ImageBarrier {
                    resource: h,
                    source_stage: st.cache[h].stage,
                    dest_stage: vk::STAGE_COLOR_ATTACHMENT_OUTPUT | vk::STAGE_EARLY_FRAGMENT_TESTS,
                    source_access: st.cache[h].access,
                    dest_access: vk::ACCESS_DEPTH_STENCIL_ATTACHMENT_WRITE | vk::ACCESS_DEPTH_STENCIL_ATTACHMENT_READ,
                    old_layout: st.cache[h].layout->Some_0,
                    new_layout: vk::LAYOUT_DEPTH_STENCIL_ATTACHMENT_OPTIMAL,
                }]
                &&& link.depth_target == Some(AttachmentReference { layout: vk::LAYOUT_DEPTH_STENCIL_ATTACHMENT_OPTIMAL, ..d })
            }
            &&& !st.cache.contains_key(h) ==> link.barriers.len() == 0 && link.depth_target == Some(d)
        }),
{
    let link = graphics_step(Seq::empty(), Seq::empty(), Some(d), Seq::empty(), st);
    let dd = depth_step(st, Some(d));
    assert(link.barriers =~= dd.0);
}

proof fn lemma_copy_step_targets(handles: Seq<u64>, cache: Map<u64, ResourceUsage>, default_stage: u32, usage: ResourceUsage)
    ensures
        copy_step(handles, cache, default_stage, usage).0.len() == handles.len(),
        forall|k: int| 0 <= k < handles.len() ==> {
            let b = #[trigger] copy_step(handles, cache, default_stage, usage).0[k];
            &&& b.resource == handles[k]
            &&& b.dest_stage == usage.stage
            &&& b.dest_access == usage.access
            &&& b.new_layout == usage.layout->Some_0
        },
    decreases handles.len(),
{
    if handles.len() > 0 {
        lemma_copy_step_targets(handles.drop_last(), cache, default_stage, usage);
        let before = copy_step(handles.drop_last(), cache, default_stage, usage).0;
        assert forall|k: int| 0 <= k < handles.len() - 1 implies
            copy_step(handles, cache, default_stage, usage).0[k] == before[k] by {
        }
    }
}

/// A copy always needs a barrier for each of its images: each source, in
/// order, into the transfer-source layout for a transfer read, then each
/// destination, in order, into the transfer-destination layout for a
/// transfer write, all at the transfer stage.
pub proof fn law_copy_barriers_enter_transfer_layouts(cache: Map<u64, ResourceUsage>, sources: Seq<u64>, dests: Seq<u64>)
    ensures
        ({
            let barriers = copy_link(cache, sources, dests).0;
            &&& barriers.len() == sources.len() + dests.len()
            &&& forall|k: int| #![trigger sources[k]] 0 <= k < sources.len() ==> {
                &&& barriers[k].resource == sources[k]
                &&& barriers[k].new_layout == vk::LAYOUT_TRANSFER_SRC_OPTIMAL
                &&& barriers[k].dest_access == vk::ACCESS_TRANSFER_READ
                &&& barriers[k].dest_stage == vk::STAGE_TRANSFER
            }
            &&& forall|k: int| #![trigger dests[k]] 0 <= k < dests.len() ==> {
                &&& barriers[sources.len() + k].resource == dests[k]
                &&& barriers[sources.len() + k].new_layout == vk::LAYOUT_TRANSFER_DST_OPTIMAL
                &&& barriers[sources.len() + k].dest_access == vk::ACCESS_TRANSFER_WRITE
                &&& barriers[sources.len() + k].dest_stage == vk::STAGE_TRANSFER
            }
        }),
{
    let s = copy_step(sources, cache, vk::STAGE_ALL_COMMANDS, copy_source_usage());
    lemma_copy_step_targets(sources, cache, vk::STAGE_ALL_COMMANDS, copy_source_usage());
    lemma_copy_step_targets(dests, s.1, vk::STAGE_TOP_OF_PIPE, copy_dest_usage());
    let d = copy_step(dests, s.1, vk::STAGE_TOP_OF_PIPE, copy_dest_usage());
    assert forall|k: int| 0 <= k < sources.len() implies #[trigger] (s.0 + d.0)[k] == s.0[k] by {}
    assert forall|k: int| 0 <= k < dests.len() implies #[trigger] (s.0 + d.0)[sources.len() + k] == d.0[k] by {}
}

/// Presenting always needs one barrier: the swapchain image goes from its
/// last usage into the present layout, at the bottom of the pipe, and is
/// then in that layout.
pub proof fn law_present_moves_image_to_present_layout(swapchain_image: u64, st: LinkState)
    requires
        st.resources.contains_key(swapchain_image),
        st.resources[swapchain_image] is Image,
    ensures
        ({
            let r = present_step(swapchain_image, st);
            &&& r.0.len() == 1
            &&& r.0[0].resource == swapchain_image
            &&& r.0[0].new_layout == vk::LAYOUT_PRESENT_SRC
            &&& r.0[0].dest_stage == vk::STAGE_BOTTOM_OF_PIPE
            &&& st.cache.contains_key(swapchain_image) ==> r.0[0].old_layout == st.cache[swapchain_image].layout->Some_0
                && r.0[0].source_stage == st.cache[swapchain_image].stage
            &&& !st.cache.contains_key(swapchain_image) ==> r.0[0].old_layout == st.resources[swapchain_image]->Image_0.layout
            &&& r.1.resources[swapchain_image] is Image
            &&& r.1.resources[swapchain_image]->Image_0.layout == vk::LAYOUT_PRESENT_SRC
        }),
{
}

} // verus!
