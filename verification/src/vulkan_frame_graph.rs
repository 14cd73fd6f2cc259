//! The frame graph: ends a frame by compiling it and linking its passes.

use vstd::prelude::*;
use std::collections::HashMap;
use crate::command_list::CommandList;
use crate::compiler::{compile, compiled_edges, reachable_from, edges_reachable_from, is_execution_order, has_cycle, CycleError};
use crate::frame::{Frame, FrameState};
use crate::graph::{PassGraph, graph_nodes, graph_edges, graph_wf, graph_node_weight};
use crate::linker::{
    AttachmentLink, LinkState, NodeBarriers, ResourceUsage, UsageCache, bindings_resolved, cache_wf,
    same_kinds, graphics_step, copy_link, compute_step, present_step, relinked, link_graphics_node,
    link_copy_node, link_compute_node, link_present_node,
};
use crate::pass_type::PassType;
use crate::resource::{ResourceMap, ResourceType, is_image};

use crate::pipeline_manager::VulkanPipelineManager;
use crate::renderpass_manager::VulkanRenderpassManager;

verus! {

broadcast use vstd::std_specs::hash::group_hash_axioms;

/// What linking one pass gives (graphics passes alone change their
/// attachments).
pub open spec fn pass_step<F, P, V, B>(pass: PassType<F, P, V, B>, st: LinkState) -> AttachmentLink {
    match pass {
        PassType::Graphics(n) => graphics_step(n.inputs@, n.outputs@, n.depth_target, n.render_targets@, st),
        PassType::Copy(n) => {
            let r = copy_link(st.cache, n.copy_sources@, n.copy_dests@);
            AttachmentLink {
                barriers: r.0,
                render_targets: Seq::empty(),
                depth_target: None,
                state: LinkState { cache: r.1, resources: st.resources },
            }
        },
        PassType::Compute(n) => {
            let r = compute_step(n.inputs@, n.outputs@, st);
            AttachmentLink { barriers: r.0, render_targets: Seq::empty(), depth_target: None, state: r.1 }
        },
        PassType::Present(n) => {
            let r = present_step(n.swapchain_image, st);
            AttachmentLink { barriers: r.0, render_targets: Seq::empty(), depth_target: None, state: r.1 }
        },
    }
}

/// The resources a pass binds are resolved (and a present pass presents an
/// image).
pub open spec fn pass_ready<F, P, V, B>(pass: PassType<F, P, V, B>, resources: Map<u64, ResourceType>) -> bool {
    match pass {
        PassType::Graphics(n) => bindings_resolved(n.inputs@, resources) && bindings_resolved(n.outputs@, resources),
        PassType::Copy(_) => true,
        PassType::Compute(n) => bindings_resolved(n.inputs@, resources) && bindings_resolved(n.outputs@, resources),
        PassType::Present(n) => is_image(resources, n.swapchain_image),
    }
}

/// `after` is `before` once linked: a graphics pass with its attachments
/// updated, any other pass unchanged.
pub open spec fn pass_relinked<F, P, V, B>(before: PassType<F, P, V, B>, after: PassType<F, P, V, B>, link: AttachmentLink) -> bool {
    match before {
        PassType::Graphics(a) => after matches PassType::Graphics(b) && relinked(a, b, link),
        _ => after == before,
    }
}

/// The state after linking, in `order`, the nodes of `order` that are in
/// the graph.
pub open spec fn link_fold<F, P, V, B>(
    nodes: Set<usize>,
    passes: Seq<PassType<F, P, V, B>>,
    order: Seq<usize>,
    st: LinkState,
) -> LinkState
    decreases order.len(),
{
    if order.len() == 0 {
        st
    } else {
        let prev = link_fold(nodes, passes, order.drop_last(), st);
        if nodes.contains(order.last()) {
            pass_step(passes[order.last() as int], prev).state
        } else {
            prev
        }
    }
}

/// The nodes of `order` that are in the graph, in order.
pub open spec fn in_graph(nodes: Set<usize>, order: Seq<usize>) -> Seq<usize>
    decreases order.len(),
{
    if order.len() == 0 {
        Seq::empty()
    } else {
        let prev = in_graph(nodes, order.drop_last());
        if nodes.contains(order.last()) { prev.push(order.last()) } else { prev }
    }
}

/// The state linking starts from: nothing used yet.
pub open spec fn link_start(resources: Map<u64, ResourceType>) -> LinkState {
    LinkState { cache: Map::empty(), resources }
}

proof fn lemma_ready_same_kinds<F, P, V, B>(pass: PassType<F, P, V, B>, a: Map<u64, ResourceType>, b: Map<u64, ResourceType>)
    requires
        pass_ready(pass, a),
        same_kinds(a, b),
    ensures
        pass_ready(pass, b),
{
    match pass {
        PassType::Graphics(n) => {
            lemma_bindings_same_kinds(n.inputs@, a, b);
            lemma_bindings_same_kinds(n.outputs@, a, b);
        },
        PassType::Compute(n) => {
            lemma_bindings_same_kinds(n.inputs@, a, b);
            lemma_bindings_same_kinds(n.outputs@, a, b);
        },
        PassType::Present(n) => {
            assert(a.contains_key(n.swapchain_image));
        },
        PassType::Copy(_) => {},
    }
}

proof fn lemma_bindings_same_kinds(bindings: Seq<crate::binding::ResourceBinding>, a: Map<u64, ResourceType>, b: Map<u64, ResourceType>)
    requires
        bindings_resolved(bindings, a),
        same_kinds(a, b),
    ensures
        bindings_resolved(bindings, b),
{
    assert forall|i: int| 0 <= i < bindings.len() implies {
        &&& b.contains_key(#[trigger] bindings[i].resource)
        &&& b[bindings[i].resource] is Image ==> bindings[i].binding_info.binding_type is Image
    } by {
        assert(a.contains_key(bindings[i].resource));
    }
}

/// Links one pass of any kind (see `pass_step`).
pub fn link_pass<F, P, V, B>(
    pass: &mut PassType<F, P, V, B>,
    usage_cache: &mut UsageCache,
    resources: &mut ResourceMap,
) -> (node_barrier: NodeBarriers)
    requires
        pass_ready(*old(pass), old(resources)@),
        cache_wf(old(usage_cache)@),
    ensures
        node_barrier.image_barriers@ == pass_step(*old(pass), LinkState { cache: old(usage_cache)@, resources: old(resources)@ }).barriers,
        node_barrier.buffer_barriers@.len() == 0,
        pass_relinked(*old(pass), *final(pass), pass_step(*old(pass), LinkState { cache: old(usage_cache)@, resources: old(resources)@ })),
        final(usage_cache)@ == pass_step(*old(pass), LinkState { cache: old(usage_cache)@, resources: old(resources)@ }).state.cache,
        final(resources)@ == pass_step(*old(pass), LinkState { cache: old(usage_cache)@, resources: old(resources)@ }).state.resources,
        cache_wf(final(usage_cache)@),
        same_kinds(old(resources)@, final(resources)@),
{
    match pass {
        PassType::Graphics(gn) => link_graphics_node(gn, usage_cache, resources),
        PassType::Copy(cn) => {
            let nb = link_copy_node(cn, usage_cache);
            proof {
                assert(resources@.dom() =~= old(resources)@.dom());
            }
            nb
        },
        PassType::Compute(cn) => link_compute_node(cn, usage_cache, resources),
        PassType::Present(pn) => link_present_node(pn, usage_cache, resources),
    }
}

/// The frame graph of a renderer: the pipelines and render passes built so
/// far (`L` and `R` are the pipeline and render pass objects), and the
/// barriers linking gave each node of the last frame.
pub struct VulkanFrameGraph<R, L> {
    pub pipeline_manager: VulkanPipelineManager<L>,
    pub renderpass_manager: VulkanRenderpassManager<R>,
    pub node_barriers: HashMap<usize, NodeBarriers>,
}

impl<R, L> VulkanFrameGraph<R, L> {
    pub fn new() -> (frame_graph: Self)
        ensures
            frame_graph.node_barriers@ == Map::<usize, NodeBarriers>::empty(),
            frame_graph.pipeline_manager.pipeline_cache@ == Map::<u64, L>::empty(),
            frame_graph.pipeline_manager.shader_manager.shader_cache.well_formed(),
            frame_graph.pipeline_manager.shader_manager.shader_cache.entries@.len() == 0,
            frame_graph.renderpass_manager.renderpass_map.well_formed(),
            frame_graph.renderpass_manager.renderpass_map.entries@.len() == 0,
    {
        VulkanFrameGraph {
            pipeline_manager: VulkanPipelineManager::new(),
            renderpass_manager: VulkanRenderpassManager::new(),
            node_barriers: HashMap::new(),
        }
    }

    /// Links the nodes of the graph in the given order: each pass gets the
    /// barriers it needs given what the passes before it did, and graphics
    /// passes learn the layouts their attachments will be in. Nodes of the
    /// order that are not in the graph are skipped. All linked nodes go into
    /// one command list.
    pub fn link<F, P, V, B>(
        &mut self,
        nodes: &PassGraph,
        passes: &mut Vec<PassType<F, P, V, B>>,
        sorted_nodes: &[usize],
        resources: &mut ResourceMap,
    ) -> (command_lists: Vec<CommandList>)
        requires
            graph_wf(*nodes),
            forall|i: usize| #[trigger] graph_nodes(*nodes).dom().contains(i)
                ==> graph_nodes(*nodes)[i] == i && i < old(passes).len(),
            sorted_nodes@.no_duplicates(),
            forall|i: usize| #[trigger] graph_nodes(*nodes).dom().contains(i)
                ==> pass_ready(old(passes)@[i as int], old(resources)@),
        ensures
            command_lists@.len() == 1,
            command_lists@[0].nodes@ == in_graph(graph_nodes(*nodes).dom(), sorted_nodes@),
            command_lists@[0].wait is None,
            final(passes).len() == old(passes).len(),
            forall|j: int| 0 <= j < sorted_nodes@.len() && #[trigger] graph_nodes(*nodes).dom().contains(sorted_nodes@[j]) ==> {
                let i = sorted_nodes@[j];
                let link = pass_step(old(passes)@[i as int], link_fold(graph_nodes(*nodes).dom(), old(passes)@,
                    sorted_nodes@.take(j), link_start(old(resources)@)));
                &&& final(self).node_barriers@.contains_key(i)
                &&& final(self).node_barriers@[i].image_barriers@ == link.barriers
                &&& final(self).node_barriers@[i].buffer_barriers@.len() == 0
                &&& pass_relinked(old(passes)@[i as int], final(passes)@[i as int], link)
            },
            forall|i: int| 0 <= i < old(passes).len() && !(graph_nodes(*nodes).dom().contains(i as usize)
                && sorted_nodes@.contains(i as usize)) ==> #[trigger] final(passes)@[i] == old(passes)@[i],
            forall|k: usize| #[trigger] old(self).node_barriers@.contains_key(k) && !(graph_nodes(*nodes).dom().contains(k)
                && sorted_nodes@.contains(k)) ==> final(self).node_barriers@.contains_key(k)
                && final(self).node_barriers@[k] == old(self).node_barriers@[k],
            final(resources)@ == link_fold(graph_nodes(*nodes).dom(), old(passes)@, sorted_nodes@,
                link_start(old(resources)@)).resources,
    {
        let ghost dom = graph_nodes(*nodes).dom();
        let ghost passes0 = passes@;
        let ghost resources0 = resources@;
        let ghost st0 = link_start(resources@);
        let mut current_list = CommandList::new();
        // All image bindings and attachments require the most recent usage
        // of their resource; the nodes are already sorted, so walking them
        // in order is enough.
        let mut usage_cache: UsageCache = HashMap::new();
        proof {
            assert(usage_cache@ =~= Map::<u64, ResourceUsage>::empty());
        }
        let mut k: usize = 0;
        while k < sorted_nodes.len()
            invariant
                0 <= k <= sorted_nodes.len(),
                graph_wf(*nodes),
                dom == graph_nodes(*nodes).dom(),
                forall|i: usize| #[trigger] dom.contains(i) ==> graph_nodes(*nodes)[i] == i && i < passes0.len(),
                sorted_nodes@.no_duplicates(),
                forall|i: usize| #[trigger] dom.contains(i) ==> pass_ready(passes0[i as int], resources0),
                passes.len() == passes0.len(),
                cache_wf(usage_cache@),
                same_kinds(resources0, resources@),
                usage_cache@ == link_fold(dom, passes0, sorted_nodes@.take(k as int), st0).cache,
                resources@ == link_fold(dom, passes0, sorted_nodes@.take(k as int), st0).resources,
                current_list.nodes@ == in_graph(dom, sorted_nodes@.take(k as int)),
                current_list.wait is None,
                forall|j: int| 0 <= j < k && #[trigger] dom.contains(sorted_nodes@[j]) ==> {
                    let i = sorted_nodes@[j];
                    let link = pass_step(passes0[i as int], link_fold(dom, passes0, sorted_nodes@.take(j), st0));
                    &&& self.node_barriers@.contains_key(i)
                    &&& self.node_barriers@[i].image_barriers@ == link.barriers
                    &&& self.node_barriers@[i].buffer_barriers@.len() == 0
                    &&& pass_relinked(passes0[i as int], passes@[i as int], link)
                },
                forall|i: int| 0 <= i < passes0.len() && !(dom.contains(i as usize)
                    && sorted_nodes@.take(k as int).contains(i as usize)) ==> #[trigger] passes@[i] == passes0[i],
                forall|key: usize| #[trigger] old(self).node_barriers@.contains_key(key) && !(dom.contains(key)
                    && sorted_nodes@.take(k as int).contains(key)) ==> self.node_barriers@.contains_key(key)
                    && self.node_barriers@[key] == old(self).node_barriers@[key],
            decreases sorted_nodes.len() - k,
        {
            let node_index = sorted_nodes[k];
            let ghost prefix = sorted_nodes@.take(k as int);
            let ghost next = sorted_nodes@.take(k + 1);
            proof {
                assert(next.drop_last() == prefix);
                assert(next.last() == node_index);
                assert(!prefix.contains(node_index)) by {
                    if prefix.contains(node_index) {
                        let j = choose|j: int| 0 <= j < prefix.len() && prefix[j] == node_index;
                        assert(sorted_nodes@[j] == sorted_nodes@[k as int]);
                    }
                }
                assert forall|key: usize| #[trigger] next.contains(key) <==> prefix.contains(key) || key == node_index by {
                    if next.contains(key) {
                        let j = choose|j: int| 0 <= j < next.len() && next[j] == key;
                        if j < k {
                            assert(prefix[j] == key);
                        }
                    }
                    if prefix.contains(key) {
                        let j = choose|j: int| 0 <= j < prefix.len() && prefix[j] == key;
                        assert(next[j] == key);
                    }
                    if key == node_index {
                        assert(next[k as int] == node_index);
                    }
                }
            }
            // An index past the `u32` range is no node of the graph.
            let weight = if node_index <= 0xffff_ffff {
                graph_node_weight(nodes, node_index)
            } else {
                None
            };
            match weight {
                Some(w) => {
                    proof {
                        assert(w == node_index);
                        assert(passes@[node_index as int] == passes0[node_index as int]);
                        lemma_ready_same_kinds(passes0[node_index as int], resources0, resources@);
                    }
                    let ghost cache_before = usage_cache@;
                    let ghost resources_before = resources@;
                    let node_barrier = link_pass(&mut passes[w], &mut usage_cache, resources);
                    current_list.nodes.push(node_index);
                    self.node_barriers.insert(node_index, node_barrier);
                    proof {
                        assert forall|j: int| 0 <= j < k + 1 && #[trigger] dom.contains(sorted_nodes@[j]) implies {
                            let i = sorted_nodes@[j];
                            let link = pass_step(passes0[i as int], link_fold(dom, passes0, sorted_nodes@.take(j), st0));
                            &&& self.node_barriers@.contains_key(i)
                            &&& self.node_barriers@[i].image_barriers@ == link.barriers
                            &&& self.node_barriers@[i].buffer_barriers@.len() == 0
                            &&& pass_relinked(passes0[i as int], passes@[i as int], link)
                        } by {
                            if j < k {
                                assert(sorted_nodes@[j] != node_index) by {
                                    assert(sorted_nodes@[j] != sorted_nodes@[k as int]);
                                }
                            } else {
                                assert(j == k);
                                assert(sorted_nodes@.take(j) == prefix);
                            }
                        }
                    }
                },
                None => {},
            }
            k = k + 1;
        }
        proof {
            assert(sorted_nodes@.take(sorted_nodes.len() as int) == sorted_nodes@);
        }
        let mut command_lists: Vec<CommandList> = Vec::new();
        command_lists.push(current_list);
        command_lists
    }

    /// A new frame for this graph.
    pub fn start<F, P, V, B>(&self) -> (frame: Frame<F, P, V, B>)
        ensures
            frame.well_formed(),
            frame.state == FrameState::New,
            frame.passes@.len() == 0,
    {
        Frame::new()
    }

    /// Ends a started frame: compiles it (see `compile`) and links the
    /// remaining passes in execution order (see `link`). A cycle among the
    /// passes the root depends on is an error.
    #[verifier::rlimit(60)]
    pub fn end<F, P, V, B>(&mut self, frame: &mut Frame<F, P, V, B>, resources: &mut ResourceMap)
        -> (command_lists: Result<Vec<CommandList>, CycleError>)
        requires
            old(frame).well_formed(),
            old(frame).state == FrameState::Started,
            forall|i: int| 0 <= i < old(frame).passes.len() ==> pass_ready(#[trigger] old(frame).passes@[i], old(resources)@),
        ensures
            final(frame).state == FrameState::Ended,
            final(frame).root_index == old(frame).root_index,
            final(frame).passes.len() == old(frame).passes.len(),
            graph_nodes(final(frame).nodes) == graph_nodes(old(frame).nodes).restrict(reachable_from(
                compiled_edges(graph_nodes(old(frame).nodes), graph_edges(old(frame).nodes), old(frame).passes@),
                old(frame).root_index->Some_0)),
            graph_edges(final(frame).nodes) == edges_reachable_from(
                compiled_edges(graph_nodes(old(frame).nodes), graph_edges(old(frame).nodes), old(frame).passes@),
                old(frame).root_index->Some_0),
            match command_lists {
                Ok(lists) => {
                    &&& lists@.len() == 1
                    &&& is_execution_order(lists@[0].nodes@, graph_nodes(final(frame).nodes).dom(), graph_edges(final(frame).nodes))
                    &&& forall|j: int| #![trigger lists@[0].nodes@[j]] 0 <= j < lists@[0].nodes@.len() ==> {
                        let order = lists@[0].nodes@;
                        let i = order[j];
                        let link = pass_step(old(frame).passes@[i as int], link_fold(graph_nodes(final(frame).nodes).dom(),
                            old(frame).passes@, order.take(j), link_start(old(resources)@)));
                        &&& final(self).node_barriers@.contains_key(i)
                        &&& final(self).node_barriers@[i].image_barriers@ == link.barriers
                        &&& pass_relinked(old(frame).passes@[i as int], final(frame).passes@[i as int], link)
                    }
                    &&& final(resources)@ == link_fold(graph_nodes(final(frame).nodes).dom(), old(frame).passes@,
                        lists@[0].nodes@, link_start(old(resources)@)).resources
                },
                Err(_) => has_cycle(graph_nodes(final(frame).nodes).dom(), graph_edges(final(frame).nodes)),
            },
    {
        proof {
            assert forall|i: usize| #[trigger] graph_nodes(frame.nodes).dom().contains(i)
                implies i < graph_nodes(frame.nodes).dom().len() && graph_nodes(frame.nodes)[i] < frame.passes.len() by {
            }
        }
        frame.end();
        let root_index = frame.get_root_index();
        let sorted = compile(&mut frame.nodes, &frame.passes, root_index);
        match sorted {
            Ok(sorted_nodes) => {
                proof {
                    let dom = graph_nodes(frame.nodes).dom();
                    assert forall|i: usize| #[trigger] dom.contains(i) implies graph_nodes(frame.nodes)[i] == i
                        && i < frame.passes.len() && pass_ready(frame.passes@[i as int], resources@) by {
                        assert(graph_nodes(old(frame).nodes).dom().contains(i));
                    }
                    lemma_in_graph_all(dom, sorted_nodes@);
                }
                let ghost old_self = *self;
                let ghost passes0 = frame.passes@;
                let ghost resources0 = resources@;
                let lists = self.link(&frame.nodes, &mut frame.passes, sorted_nodes.as_slice(), resources);
                proof {
                    let dom = graph_nodes(frame.nodes).dom();
                    assert(passes0 == old(frame).passes@);
                    assert(lists@[0].nodes@ == sorted_nodes@);
                    assert forall|j: int| #![trigger lists@[0].nodes@[j]] 0 <= j < lists@[0].nodes@.len() implies {
                        let order = lists@[0].nodes@;
                        let i = order[j];
                        let link = pass_step(passes0[i as int], link_fold(dom, passes0, order.take(j), link_start(resources0)));
                        &&& self.node_barriers@.contains_key(i)
                        &&& self.node_barriers@[i].image_barriers@ == link.barriers
                        &&& pass_relinked(passes0[i as int], frame.passes@[i as int], link)
                    } by {
                        assert(dom.contains(sorted_nodes@[j]));
                    }
                }
                Ok(lists)
            },
            Err(cycle) => Err(cycle),
        }
    }
}

proof fn lemma_in_graph_all(nodes: Set<usize>, order: Seq<usize>)
    requires
        forall|j: int| 0 <= j < order.len() ==> nodes.contains(#[trigger] order[j]),
    ensures
        in_graph(nodes, order) == order,
    decreases order.len(),
{
    if order.len() > 0 {
        lemma_in_graph_all(nodes, order.drop_last());
        assert(nodes.contains(order[order.len() - 1]));
        assert(order.drop_last().push(order.last()) =~= order);
    }
}

} // verus!
