//! The dependency graph of a frame, held in a `petgraph` stable graph, and the
//! multimap used to match readers with writers.

use vstd::prelude::*;
use petgraph::stable_graph::StableGraph;
use petgraph::graph::NodeIndex;
use petgraph::visit::Dfs;
use petgraph::Directed;
use fixedbitset::FixedBitSet;
use multimap::MultiMap;
use std::collections::hash_map::RandomState;

verus! {

#[verifier::external_type_specification]
#[verifier::external_body]
#[verifier::reject_recursive_types(N)]
#[verifier::reject_recursive_types(E)]
#[verifier::reject_recursive_types(Ty)]
#[verifier::reject_recursive_types(Ix)]
pub struct ExStableGraph<N, E, Ty, Ix>(StableGraph<N, E, Ty, Ix>);

#[verifier::external_type_specification]
#[verifier::external_body]
pub struct ExDirected(Directed);

#[verifier::external_type_specification]
#[verifier::external_body]
#[verifier::reject_recursive_types(Ix)]
pub struct ExNodeIndex<Ix>(NodeIndex<Ix>);

#[verifier::external_type_specification]
#[verifier::external_body]
#[verifier::reject_recursive_types(N)]
#[verifier::reject_recursive_types(VM)]
pub struct ExDfs<N, VM>(Dfs<N, VM>);

#[verifier::external_type_specification]
#[verifier::external_body]
pub struct ExFixedBitSet(FixedBitSet);

#[verifier::external_type_specification]
#[verifier::external_body]
#[verifier::reject_recursive_types(K)]
#[verifier::reject_recursive_types(V)]
#[verifier::reject_recursive_types(S)]
pub struct ExMultiMap<K, V, S>(MultiMap<K, V, S>);

/// A key of a multimap paired with one of its values.
pub type KeyValue = (u64, usize);

/// The directed graph of a frame: node weights are positions of passes.
pub type PassGraph = StableGraph<usize, u32, Directed, u32>;

/// A depth-first traversal over a `PassGraph`.
pub type PassDfs = Dfs<NodeIndex<u32>, FixedBitSet>;

/// A multimap from resource handles to node indices.
pub type HandleMultiMap = MultiMap<u64, usize, RandomState>;

/// The nodes of the graph: node index to node weight.
pub uninterp spec fn graph_nodes(g: StableGraph<usize, u32, Directed, u32>) -> Map<usize, usize>;

/// The directed edges of the graph, as (source, target) pairs.
pub uninterp spec fn graph_edges(g: StableGraph<usize, u32, Directed, u32>) -> Set<(usize, usize)>;

/// The number of index slots of the graph, occupied or vacant.
pub uninterp spec fn graph_slots(g: StableGraph<usize, u32, Directed, u32>) -> nat;

/// The nodes that a traversal has discovered so far.
pub uninterp spec fn dfs_discovered(d: Dfs<NodeIndex<u32>, FixedBitSet>) -> Set<usize>;

/// The nodes that wait on a traversal's stack.
pub uninterp spec fn dfs_stack(d: Dfs<NodeIndex<u32>, FixedBitSet>) -> Set<usize>;

/// The node indices below which a traversal's visit map has room.
pub uninterp spec fn dfs_capacity(d: Dfs<NodeIndex<u32>, FixedBitSet>) -> nat;

/// What a multimap holds: each key with its values in insertion order.
pub uninterp spec fn multimap_contents(m: MultiMap<u64, usize, RandomState>) -> Map<u64, Seq<usize>>;

/// A graph whose nodes are finitely many, lie below its slot count (which
/// a `u32` index bounds), and whose edges join nodes of the graph.
pub open spec fn graph_wf(g: PassGraph) -> bool {
    &&& graph_nodes(g).dom().finite()
    &&& graph_slots(g) <= u32::MAX
    &&& forall|i: usize| #[trigger] graph_nodes(g).dom().contains(i) ==> i < graph_slots(g)
    &&& forall|e: (usize, usize)| #[trigger] graph_edges(g).contains(e)
            ==> graph_nodes(g).dom().contains(e.0) && graph_nodes(g).dom().contains(e.1)
}

/// `order` lists every node exactly once, each before all its successors.
pub open spec fn is_topological_order(order: Seq<usize>, nodes: Set<usize>, edges: Set<(usize, usize)>) -> bool {
    &&& order.no_duplicates()
    &&& forall|n: usize| nodes.contains(n) <==> order.contains(n)
    &&& forall|i: int, j: int|
            0 <= i < order.len() && 0 <= j < order.len() && #[trigger] edges.contains((order[i], order[j]))
            ==> i < j
}

/// `p` is a walk along the edges.
pub open spec fn is_path(edges: Set<(usize, usize)>, p: Seq<usize>) -> bool {
    &&& p.len() >= 1
    &&& forall|i: int| 0 <= i < p.len() - 1 ==> #[trigger] edges.contains((p[i], p[i + 1]))
}

/// `to` can be reached from `from` along the edges (in zero or more steps).
pub open spec fn reachable(edges: Set<(usize, usize)>, from: usize, to: usize) -> bool {
    exists|p: Seq<usize>| is_path(edges, p) && p[0] == from && #[trigger] p.last() == to
}

/// `kv` pairs a key of the multimap with the first of its values.
pub open spec fn is_first_value(contents: Map<u64, Seq<usize>>, kv: KeyValue) -> bool {
    contents.contains_key(kv.0) && contents[kv.0].len() > 0 && contents[kv.0][0] == kv.1
}

/// `StableGraph::new`: an empty directed graph.
#[verifier::external_body]
pub(crate) fn graph_new() -> (graph: PassGraph)
    ensures
        (graph_nodes(graph) == Map::<usize, usize>::empty()),
        (graph_edges(graph) == Set::<(usize, usize)>::empty()),
        graph_slots(graph) == 0,
{
    StableGraph::new()
}

/// `StableGraph::add_node`: fills a vacant slot if there is one, otherwise
/// appends a slot; returns the index of the new node.
#[verifier::external_body]
pub(crate) fn graph_add_node(g: &mut PassGraph, weight: usize) -> (index: usize)
    requires
        graph_wf(*old(g)),
        graph_slots(*old(g)) < u32::MAX,
    ensures
        !graph_nodes(*old(g)).dom().contains(index),
        graph_nodes(*final(g)) == graph_nodes(*old(g)).insert(index, weight),
        graph_edges(*final(g)) == graph_edges(*old(g)),
        graph_nodes(*old(g)).dom().len() == graph_slots(*old(g)) ==> {
            &&& index == graph_slots(*old(g))
            &&& graph_slots(*final(g)) == graph_slots(*old(g)) + 1
        },
        graph_nodes(*old(g)).dom().len() < graph_slots(*old(g)) ==> {
            &&& index < graph_slots(*old(g))
            &&& graph_slots(*final(g)) == graph_slots(*old(g))
        },
{
    g.add_node(weight).index()
}

/// `StableGraph::update_edge`: adds the edge `a -> b` unless it is already
/// there (its weight is then overwritten).
#[verifier::external_body]
pub(crate) fn graph_update_edge(g: &mut PassGraph, a: usize, b: usize, weight: u32)
    requires
        graph_nodes(*old(g)).dom().contains(a),
        graph_nodes(*old(g)).dom().contains(b),
    ensures
        graph_nodes(*final(g)) == graph_nodes(*old(g)),
        graph_edges(*final(g)) == graph_edges(*old(g)).insert((a, b)),
        graph_slots(*final(g)) == graph_slots(*old(g)),
{
    g.update_edge(NodeIndex::new(a), NodeIndex::new(b), weight);
}

/// `StableGraph::node_count`: the number of nodes.
#[verifier::external_body]
pub(crate) fn graph_node_count(g: &PassGraph) -> (count: usize)
    requires
        graph_nodes(*g).dom().finite(),
    ensures
        count == graph_nodes(*g).dom().len(),
{
    g.node_count()
}

/// `StableGraph::node_indices`: the indices of the nodes, in increasing order.
#[verifier::external_body]
pub(crate) fn graph_node_indices(g: &PassGraph) -> (indices: Vec<usize>)
    ensures
        forall|i: int, j: int| 0 <= i < j < indices.len() ==> indices@[i] < indices@[j],
        forall|n: usize| graph_nodes(*g).dom().contains(n) <==> indices@.contains(n),
{
    g.node_indices().map(|n| n.index()).collect()
}

/// `StableGraph::node_weight`: the weight of node `a`, if `a` is a node.
/// The index is converted to the graph's `u32` index type, so it must fit.
#[verifier::external_body]
pub(crate) fn graph_node_weight(g: &PassGraph, a: usize) -> (weight: Option<usize>)
    requires
        a <= u32::MAX,
    ensures
        weight == (if graph_nodes(*g).dom().contains(a) { Some(graph_nodes(*g)[a]) } else { None::<usize> }),
{
    g.node_weight(NodeIndex::new(a)).copied()
}

/// `StableGraph::retain_nodes`: removes every node `i` with `!keep[i]`,
/// together with the edges that touch it; the slots stay.
#[verifier::external_body]
pub(crate) fn graph_retain_nodes(g: &mut PassGraph, keep: &Vec<bool>)
    requires
        graph_wf(*old(g)),
        forall|i: usize| #[trigger] graph_nodes(*old(g)).dom().contains(i) ==> i < keep.len(),
    ensures
        graph_nodes(*final(g)) == graph_nodes(*old(g)).restrict(
            Set::new(|i: usize| i < keep.len() && keep@[i as int])),
        graph_edges(*final(g)) == graph_edges(*old(g)).filter(
            |e: (usize, usize)| keep@[e.0 as int] && keep@[e.1 as int]),
        graph_slots(*final(g)) == graph_slots(*old(g)),
{
    g.retain_nodes(|_, n| keep[n.index()]);
}

/// `petgraph::algo::toposort`: on an acyclic graph, every node ordered before
/// its successors; otherwise an error naming the node at which the cycle
/// was detected (which node is not stated here).
#[verifier::external_body]
pub(crate) fn graph_toposort(g: &PassGraph) -> (result: Result<Vec<usize>, usize>)
    ensures
        match result {
            Ok(order) => is_topological_order(order@, graph_nodes(*g).dom(), graph_edges(*g)),
            Err(_) => !exists|s: Seq<usize>| is_topological_order(s, graph_nodes(*g).dom(), graph_edges(*g)),
        },
{
    match petgraph::algo::toposort(g, None) {
        Ok(order) => Ok(order.into_iter().map(|n| n.index()).collect()),
        Err(cycle) => Err(cycle.node_id().index()),
    }
}

/// `Dfs::new`: a traversal with nothing discovered and `start` on its stack.
#[verifier::external_body]
pub(crate) fn dfs_new(g: &PassGraph, start: usize) -> (d: PassDfs)
    requires
        graph_wf(*g),
        graph_nodes(*g).dom().contains(start),
    ensures
        dfs_discovered(d) == Set::<usize>::empty(),
        dfs_stack(d) == set![start],
        forall|i: usize| #[trigger] graph_nodes(*g).dom().contains(i) ==> i < dfs_capacity(d),
{
    Dfs::new(g, NodeIndex::new(start))
}

/// `Dfs::next`: pops the stack until it finds an undiscovered node, marks it
/// discovered, pushes its undiscovered successors and returns it; returns
/// `None` once the stack is empty.
#[verifier::external_body]
pub(crate) fn dfs_next(d: &mut PassDfs, g: &PassGraph) -> (next: Option<usize>)
    requires
        graph_wf(*g),
        dfs_stack(*old(d)).subset_of(graph_nodes(*g).dom()),
        forall|i: usize| #[trigger] graph_nodes(*g).dom().contains(i) ==> i < dfs_capacity(*old(d)),
    ensures
        dfs_capacity(*final(d)) == dfs_capacity(*old(d)),
        forall|i: usize| #[trigger] dfs_stack(*old(d)).contains(i) && !dfs_stack(*final(d)).contains(i)
            ==> dfs_discovered(*final(d)).contains(i),
        match next {
            Some(n) => {
                &&& dfs_stack(*old(d)).contains(n)
                &&& !dfs_discovered(*old(d)).contains(n)
                &&& dfs_discovered(*final(d)) == dfs_discovered(*old(d)).insert(n)
                &&& forall|s: usize| #[trigger] dfs_stack(*final(d)).contains(s)
                        ==> dfs_stack(*old(d)).contains(s) || graph_edges(*g).contains((n, s))
                &&& forall|s: usize| #[trigger] graph_edges(*g).contains((n, s))
                        ==> dfs_discovered(*final(d)).contains(s) || dfs_stack(*final(d)).contains(s)
            },
            None => {
                &&& dfs_discovered(*final(d)) == dfs_discovered(*old(d))
                &&& dfs_stack(*final(d)) == Set::<usize>::empty()
            },
        },
{
    d.next(g).map(|n| n.index())
}

/// `MultiMap::new`: an empty multimap.
#[verifier::external_body]
pub(crate) fn multimap_new() -> (map: HandleMultiMap)
    ensures
        (multimap_contents(map) == Map::<u64, Seq<usize>>::empty()),
{
    MultiMap::new()
}

/// `MultiMap::insert`: appends `v` to the values of `k`.
#[verifier::external_body]
pub(crate) fn multimap_insert(m: &mut HandleMultiMap, k: u64, v: usize)
    ensures
        multimap_contents(*final(m)) == multimap_contents(*old(m)).insert(k,
            if multimap_contents(*old(m)).contains_key(k) {
                multimap_contents(*old(m))[k].push(v)
            } else {
                seq![v]
            }),
{
    m.insert(k, v);
}

/// `MultiMap::iter`: each key once, paired with its first value, in no
/// promised order.
#[verifier::external_body]
pub(crate) fn multimap_first_pairs(m: &HandleMultiMap) -> (firsts: Vec<KeyValue>)
    requires
        multimap_contents(*m).dom().finite(),
        forall|k: u64| #[trigger] multimap_contents(*m).contains_key(k) ==> multimap_contents(*m)[k].len() > 0,
    ensures
        firsts@.len() == multimap_contents(*m).dom().len(),
        forall|kv: KeyValue| firsts@.contains(kv) <==> is_first_value(multimap_contents(*m), kv),
{
    m.iter().map(|(k, v)| (*k, *v)).collect()
}

/// `MultiMap::get_vec`: all values of `k`, if `k` is a key.
#[verifier::external_body]
pub(crate) fn multimap_get_vec(m: &HandleMultiMap, k: u64) -> (values: Option<Vec<usize>>)
    ensures
        match values {
            Some(v) => multimap_contents(*m).contains_key(k) && v@ == multimap_contents(*m)[k],
            None => !multimap_contents(*m).contains_key(k),
        },
{
    m.get_vec(&k).cloned()
}

} // verus!
