//! Compiling a frame: passes that read a resource are joined to the passes
//! that write it, passes the root does not depend on are dropped, and the
//! rest are sorted so that every pass comes after the passes it depends on.

use vstd::prelude::*;
use crate::graph::{
    PassGraph, graph_nodes, graph_edges, graph_slots, graph_wf, is_topological_order, is_path,
    reachable, multimap_contents, is_first_value, KeyValue, graph_node_indices, graph_node_weight,
    graph_update_edge, graph_node_count, graph_retain_nodes, graph_toposort, dfs_new, dfs_next,
    dfs_discovered, dfs_stack, dfs_capacity, multimap_new, multimap_insert, multimap_first_pairs,
    multimap_get_vec,
};
use crate::pass_node::PassNode;
use crate::pass_type::PassType;

verus! {

/// The resources that node `i` reads.
pub open spec fn node_reads<F, P, V, B>(nodes: Map<usize, usize>, passes: Seq<PassType<F, P, V, B>>, i: usize) -> Seq<u64> {
    passes[nodes[i] as int].spec_reads()
}

/// The resources that node `i` writes.
pub open spec fn node_writes<F, P, V, B>(nodes: Map<usize, usize>, passes: Seq<PassType<F, P, V, B>>, i: usize) -> Seq<u64> {
    passes[nodes[i] as int].spec_writes()
}

/// `r` is the node of least index that reads `h`.
pub open spec fn is_first_reader<F, P, V, B>(nodes: Map<usize, usize>, passes: Seq<PassType<F, P, V, B>>, r: usize, h: u64) -> bool {
    &&& nodes.dom().contains(r)
    &&& node_reads(nodes, passes, r).contains(h)
    &&& forall|i: usize| #![trigger node_reads(nodes, passes, i)]
            nodes.dom().contains(i) && i < r ==> !node_reads(nodes, passes, i).contains(h)
}

/// The edge `e.0 -> e.1` joins the first reader of some resource to another
/// node that writes it. Only the first reader of a resource gets edges.
pub open spec fn is_dependency<F, P, V, B>(nodes: Map<usize, usize>, passes: Seq<PassType<F, P, V, B>>, e: (usize, usize)) -> bool {
    &&& e.0 != e.1
    &&& nodes.dom().contains(e.1)
    &&& exists|h: u64| #[trigger] is_first_reader(nodes, passes, e.0, h) && node_writes(nodes, passes, e.1).contains(h)
}

/// The edges that compiling adds.
pub open spec fn dependency_edges<F, P, V, B>(nodes: Map<usize, usize>, passes: Seq<PassType<F, P, V, B>>) -> Set<(usize, usize)> {
    Set::new(|e: (usize, usize)| is_dependency(nodes, passes, e))
}

/// The nodes reachable from `root`.
pub open spec fn reachable_from(edges: Set<(usize, usize)>, root: usize) -> Set<usize> {
    Set::new(|i: usize| reachable(edges, root, i))
}

/// The edges between nodes reachable from `root`.
pub open spec fn edges_reachable_from(edges: Set<(usize, usize)>, root: usize) -> Set<(usize, usize)> {
    edges.filter(|e: (usize, usize)| reachable(edges, root, e.0) && reachable(edges, root, e.1))
}

/// `order` lists every node exactly once, each after the nodes it has an
/// edge to (a reader after the writers it depends on).
pub open spec fn is_execution_order(order: Seq<usize>, nodes: Set<usize>, edges: Set<(usize, usize)>) -> bool {
    &&& order.no_duplicates()
    &&& forall|n: usize| nodes.contains(n) <==> order.contains(n)
    &&& forall|i: int, j: int|
            0 <= i < order.len() && 0 <= j < order.len() && #[trigger] edges.contains((order[i], order[j]))
            ==> j < i
}

/// The nodes of the graph form a cycle somewhere: no order of them puts
/// every node before its successors.
pub open spec fn has_cycle(nodes: Set<usize>, edges: Set<(usize, usize)>) -> bool {
    !exists|s: Seq<usize>| is_topological_order(s, nodes, edges)
}

/// The graph holds a cycle; `node` is where the search detected it.
pub struct CycleError {
    pub node: usize,
}

proof fn lemma_reachable_root(edges: Set<(usize, usize)>, root: usize)
    ensures
        reachable(edges, root, root),
{
    let p = seq![root];
    assert(is_path(edges, p));
    assert(p.last() == root);
}

proof fn lemma_reachable_step(edges: Set<(usize, usize)>, root: usize, u: usize, s: usize)
    requires
        reachable(edges, root, u),
        edges.contains((u, s)),
    ensures
        reachable(edges, root, s),
{
    let p = choose|p: Seq<usize>| is_path(edges, p) && p[0] == root && #[trigger] p.last() == u;
    let q = p.push(s);
    assert forall|i: int| 0 <= i < q.len() - 1 implies #[trigger] edges.contains((q[i], q[i + 1])) by {
        if i < p.len() - 1 {
            assert(q[i] == p[i] && q[i + 1] == p[i + 1]);
        } else {
            assert(q[i] == u && q[i + 1] == s);
        }
    }
    assert(is_path(edges, q));
    assert(q.last() == s);
}

/// A set that holds `root` and is closed under the edges holds every node
/// on a path from `root`.
proof fn lemma_closed_holds_path(edges: Set<(usize, usize)>, closed: Set<usize>, root: usize, p: Seq<usize>)
    requires
        closed.contains(root),
        forall|u: usize, s: usize| closed.contains(u) && #[trigger] edges.contains((u, s)) ==> closed.contains(s),
        is_path(edges, p),
        p[0] == root,
    ensures
        closed.contains(p.last()),
    decreases p.len(),
{
    if p.len() > 1 {
        let q = p.drop_last();
        assert forall|i: int| 0 <= i < q.len() - 1 implies #[trigger] edges.contains((q[i], q[i + 1])) by {
            assert(edges.contains((p[i], p[i + 1])));
        }
        lemma_closed_holds_path(edges, closed, root, q);
        let i = p.len() - 2;
        assert(edges.contains((p[i], p[i + 1])));
        assert(q.last() == p[i]);
    }
}

/// The index below which all nodes of `indices` have been processed.
spec fn processed_bound(indices: Seq<usize>, k: int) -> int {
    if k < indices.len() { indices[k] as int } else { usize::MAX as int + 1 }
}

/// What the multimap of readers holds after the nodes below `bound`.
spec fn readers_inv<F, P, V, B>(
    contents: Map<u64, Seq<usize>>,
    nodes: Map<usize, usize>,
    passes: Seq<PassType<F, P, V, B>>,
    bound: int,
) -> bool {
    &&& contents.dom().finite()
    &&& forall|h: u64| #[trigger] contents.contains_key(h) ==> {
            &&& contents[h].len() > 0
            &&& is_first_reader(nodes, passes, contents[h][0], h)
            &&& contents[h][0] < bound
        }
    &&& forall|i: usize, h: u64|
            nodes.dom().contains(i) && i < bound && #[trigger] node_reads(nodes, passes, i).contains(h)
            ==> contents.contains_key(h)
}

/// What the multimap of writers holds after the nodes below `bound`.
spec fn writers_inv<F, P, V, B>(
    contents: Map<u64, Seq<usize>>,
    nodes: Map<usize, usize>,
    passes: Seq<PassType<F, P, V, B>>,
    bound: int,
) -> bool {
    &&& contents.dom().finite()
    &&& forall|h: u64, x: usize| contents.contains_key(h) && #[trigger] contents[h].contains(x) ==> {
            &&& nodes.dom().contains(x)
            &&& x < bound
            &&& node_writes(nodes, passes, x).contains(h)
        }
    &&& forall|x: usize, h: u64|
            nodes.dom().contains(x) && x < bound && #[trigger] node_writes(nodes, passes, x).contains(h)
            ==> contents.contains_key(h) && contents[h].contains(x)
}

/// The edges that the pairs of `prefix` give.
spec fn pair_edge(kv: KeyValue, writers: Map<u64, Seq<usize>>, e: (usize, usize)) -> bool {
    &&& e.0 == kv.1
    &&& e.0 != e.1
    &&& writers.contains_key(kv.0)
    &&& writers[kv.0].contains(e.1)
}

spec fn pair_edges(prefix: Seq<KeyValue>, writers: Map<u64, Seq<usize>>) -> Set<(usize, usize)> {
    Set::new(|e: (usize, usize)| exists|q: int| 0 <= q < prefix.len() && #[trigger] pair_edge(prefix[q], writers, e))
}

/// Builds the multimaps from each resource to the nodes that read it and to
/// the nodes that write it, visiting nodes in increasing index order.
fn collect_accesses<F, P, V, B>(nodes: &PassGraph, passes: &Vec<PassType<F, P, V, B>>) -> (maps: (crate::graph::HandleMultiMap, crate::graph::HandleMultiMap))
    requires
        graph_wf(*nodes),
        forall|i: usize| #[trigger] graph_nodes(*nodes).dom().contains(i) ==> graph_nodes(*nodes)[i] < passes.len(),
    ensures
        readers_inv(multimap_contents(maps.0), graph_nodes(*nodes), passes@, usize::MAX as int + 1),
        writers_inv(multimap_contents(maps.1), graph_nodes(*nodes), passes@, usize::MAX as int + 1),
{
    let ghost n0 = graph_nodes(*nodes);
    let indices = graph_node_indices(nodes);
    let mut input_map = multimap_new();
    let mut output_map = multimap_new();
    proof {
        assert(multimap_contents(input_map).dom() =~= Set::<u64>::empty());
        assert(multimap_contents(output_map).dom() =~= Set::<u64>::empty());
        assert forall|x: usize| n0.dom().contains(x) implies x >= processed_bound(indices@, 0) by {
            assert(indices@.contains(x));
            let j = choose|j: int| 0 <= j < indices.len() && indices@[j] == x;
            if j > 0 {
                assert(indices@[0] < indices@[j]);
            }
        }
    }
    let mut k: usize = 0;
    while k < indices.len()
        invariant
            0 <= k <= indices.len(),
            n0 == graph_nodes(*nodes),
            graph_wf(*nodes),
            forall|i: usize| #[trigger] n0.dom().contains(i) ==> n0[i] < passes.len(),
            forall|i: int, j: int| 0 <= i < j < indices.len() ==> indices@[i] < indices@[j],
            forall|n: usize| n0.dom().contains(n) <==> indices@.contains(n),
            readers_inv(multimap_contents(input_map), n0, passes@, processed_bound(indices@, k as int)),
            writers_inv(multimap_contents(output_map), n0, passes@, processed_bound(indices@, k as int)),
        decreases indices.len() - k,
    {
        let i = indices[k];
        assert(indices@.contains(i));
        let ghost next_bound = processed_bound(indices@, k + 1);
        assert(next_bound > i) by {
            if k + 1 < indices.len() {
                assert(indices@[k as int] < indices@[k + 1]);
            }
        }
        // The nodes below `next_bound` are those below `i`, and `i`.
        assert forall|x: usize| n0.dom().contains(x) && x < next_bound implies x <= i by {
            if x > i {
                assert(indices@.contains(x));
                let j = choose|j: int| 0 <= j < indices.len() && indices@[j] == x;
                if j <= k {
                    if j < k {
                        assert(indices@[j] < indices@[k as int]);
                    }
                } else {
                    if j > k + 1 {
                        assert(indices@[k + 1] < indices@[j]);
                    }
                }
            }
        }
        let w = match graph_node_weight(nodes, i) {
            Some(w) => w,
            None => vstd::pervasive::unreached(),
        };
        let reads = passes[w].get_reads();
        let writes = passes[w].get_writes();
        assert(reads@ == node_reads(n0, passes@, i));
        assert(writes@ == node_writes(n0, passes@, i));
        collect_reads::<F, P, V, B>(&mut input_map, &reads, i, Ghost(n0), Ghost(passes@));
        collect_writes::<F, P, V, B>(&mut output_map, &writes, i, Ghost(n0), Ghost(passes@));
        proof {
            let c = multimap_contents(input_map);
            assert forall|x: usize, h: u64|
                n0.dom().contains(x) && x < next_bound && #[trigger] node_reads(n0, passes@, x).contains(h)
                implies c.contains_key(h) by {
                assert(x <= i);
            }
            let o = multimap_contents(output_map);
            assert forall|x: usize, h: u64|
                n0.dom().contains(x) && x < next_bound && #[trigger] node_writes(n0, passes@, x).contains(h)
                implies o.contains_key(h) && o[h].contains(x) by {
                assert(x <= i);
            }
        }
        k = k + 1;
    }
    (input_map, output_map)
}

/// Records node `i` as a reader of each of `reads`.
fn collect_reads<F, P, V, B>(
    input_map: &mut crate::graph::HandleMultiMap,
    reads: &Vec<u64>,
    i: usize,
    Ghost(nodes): Ghost<Map<usize, usize>>,
    Ghost(passes): Ghost<Seq<PassType<F, P, V, B>>>,
)
    requires
        nodes.dom().contains(i),
        reads@ == node_reads(nodes, passes, i),
        readers_inv(multimap_contents(*old(input_map)), nodes, passes, i as int),
    ensures
        readers_inv(multimap_contents(*final(input_map)), nodes, passes, i + 1),
{
    let mut q: usize = 0;
    while q < reads.len()
        invariant
            0 <= q <= reads.len(),
            nodes.dom().contains(i),
            reads@ == node_reads(nodes, passes, i),
            multimap_contents(*input_map).dom().finite(),
            forall|h: u64| #[trigger] multimap_contents(*input_map).contains_key(h) ==> {
                &&& multimap_contents(*input_map)[h].len() > 0
                &&& is_first_reader(nodes, passes, multimap_contents(*input_map)[h][0], h)
                &&& multimap_contents(*input_map)[h][0] <= i
            },
            forall|x: usize, h: u64|
                nodes.dom().contains(x) && x < i && #[trigger] node_reads(nodes, passes, x).contains(h)
                ==> multimap_contents(*input_map).contains_key(h),
            forall|p: int| 0 <= p < q ==> multimap_contents(*input_map).contains_key(#[trigger] reads@[p]),
        decreases reads.len() - q,
    {
        let h = reads[q];
        let ghost before = multimap_contents(*input_map);
        multimap_insert(input_map, h, i);
        proof {
            let after = multimap_contents(*input_map);
            if !before.contains_key(h) {
                assert(node_reads(nodes, passes, i).contains(h)) by {
                    assert(reads@[q as int] == h);
                }
                assert(after[h] == seq![i]);
                assert(is_first_reader(nodes, passes, i, h));
            }
            assert forall|g: u64| #[trigger] after.contains_key(g) implies {
                &&& after[g].len() > 0
                &&& is_first_reader(nodes, passes, after[g][0], g)
                &&& after[g][0] <= i
            } by {
                if g == h && before.contains_key(h) {
                    assert(after[g][0] == before[g][0]);
                }
            }
        }
        q = q + 1;
    }
    proof {
        let c = multimap_contents(*input_map);
        assert forall|x: usize, h: u64|
            nodes.dom().contains(x) && x < i + 1 && #[trigger] node_reads(nodes, passes, x).contains(h)
            implies c.contains_key(h) by {
            if x == i {
                let p = choose|p: int| 0 <= p < reads@.len() && reads@[p] == h;
                assert(c.contains_key(reads@[p]));
            }
        }
    }
}

/// Records node `i` as a writer of each of `writes`.
fn collect_writes<F, P, V, B>(
    output_map: &mut crate::graph::HandleMultiMap,
    writes: &Vec<u64>,
    i: usize,
    Ghost(nodes): Ghost<Map<usize, usize>>,
    Ghost(passes): Ghost<Seq<PassType<F, P, V, B>>>,
)
    requires
        nodes.dom().contains(i),
        writes@ == node_writes(nodes, passes, i),
        writers_inv(multimap_contents(*old(output_map)), nodes, passes, i as int),
    ensures
        writers_inv(multimap_contents(*final(output_map)), nodes, passes, i + 1),
{
    let mut q: usize = 0;
    while q < writes.len()
        invariant
            0 <= q <= writes.len(),
            nodes.dom().contains(i),
            writes@ == node_writes(nodes, passes, i),
            multimap_contents(*output_map).dom().finite(),
            forall|h: u64, x: usize| multimap_contents(*output_map).contains_key(h)
                && #[trigger] multimap_contents(*output_map)[h].contains(x) ==> {
                &&& nodes.dom().contains(x)
                &&& x <= i
                &&& node_writes(nodes, passes, x).contains(h)
            },
            forall|x: usize, h: u64|
                nodes.dom().contains(x) && x < i && #[trigger] node_writes(nodes, passes, x).contains(h)
                ==> multimap_contents(*output_map).contains_key(h) && multimap_contents(*output_map)[h].contains(x),
            forall|p: int| 0 <= p < q ==> multimap_contents(*output_map).contains_key(#[trigger] writes@[p])
                && multimap_contents(*output_map)[writes@[p]].contains(i),
        decreases writes.len() - q,
    {
        let h = writes[q];
        let ghost before = multimap_contents(*output_map);
        multimap_insert(output_map, h, i);
        proof {
            let after = multimap_contents(*output_map);
            assert(node_writes(nodes, passes, i).contains(h)) by {
                assert(writes@[q as int] == h);
            }
            assert forall|g: u64, x: usize| after.contains_key(g) && #[trigger] after[g].contains(x) implies {
                &&& nodes.dom().contains(x)
                &&& x <= i
                &&& node_writes(nodes, passes, x).contains(h)
            } || g != h by {
                if g == h {
                    if before.contains_key(h) {
                        if x != i {
                            let j = choose|j: int| 0 <= j < after[g].len() && after[g][j] == x;
                            assert(before[g].contains(x)) by {
                                assert(before[g][j] == x);
                            }
                        }
                    }
                }
            }
            assert forall|g: u64, x: usize| after.contains_key(g) && #[trigger] after[g].contains(x) implies {
                &&& nodes.dom().contains(x)
                &&& x <= i
                &&& node_writes(nodes, passes, x).contains(g)
            } by {
                if g != h {
                    assert(after[g] == before[g]);
                }
            }
            assert forall|x: usize, g: u64|
                nodes.dom().contains(x) && x < i && #[trigger] node_writes(nodes, passes, x).contains(g)
                implies after.contains_key(g) && after[g].contains(x) by {
                if g == h {
                    assert(before[g].contains(x));
                    let j = choose|j: int| 0 <= j < before[g].len() && before[g][j] == x;
                    assert(after[g][j] == x);
                }
            }
            assert forall|p: int| 0 <= p < q + 1 implies after.contains_key(#[trigger] writes@[p])
                && after[writes@[p]].contains(i) by {
                if writes@[p] == h {
                    assert(after[h].last() == i);
                    assert(after[h][after[h].len() - 1] == i);
                } else {
                    assert(after[writes@[p]] == before[writes@[p]]);
                }
            }
        }
        q = q + 1;
    }
    proof {
        let o = multimap_contents(*output_map);
        assert forall|x: usize, h: u64|
            nodes.dom().contains(x) && x < i + 1 && #[trigger] node_writes(nodes, passes, x).contains(h)
            implies o.contains_key(h) && o[h].contains(x) by {
            if x == i {
                let p = choose|p: int| 0 <= p < writes@.len() && writes@[p] == h;
                assert(o.contains_key(writes@[p]));
            }
        }
    }
}

/// Adds an edge from the first reader of each resource to every other
/// writer of it.
fn add_dependency_edges<F, P, V, B>(
    nodes: &mut PassGraph,
    input_map: &crate::graph::HandleMultiMap,
    output_map: &crate::graph::HandleMultiMap,
    Ghost(passes): Ghost<Seq<PassType<F, P, V, B>>>,
)
    requires
        graph_wf(*old(nodes)),
        readers_inv(multimap_contents(*input_map), graph_nodes(*old(nodes)), passes, usize::MAX as int + 1),
        writers_inv(multimap_contents(*output_map), graph_nodes(*old(nodes)), passes, usize::MAX as int + 1),
    ensures
        graph_wf(*final(nodes)),
        graph_nodes(*final(nodes)) == graph_nodes(*old(nodes)),
        graph_slots(*final(nodes)) == graph_slots(*old(nodes)),
        graph_edges(*final(nodes)) == graph_edges(*old(nodes)).union(
            dependency_edges(graph_nodes(*old(nodes)), passes)),
{
    let ghost n0 = graph_nodes(*nodes);
    let ghost e0 = graph_edges(*nodes);
    let ghost ins = multimap_contents(*input_map);
    let ghost outs_map = multimap_contents(*output_map);
    let pairs = multimap_first_pairs(input_map);
    proof {
        assert(pair_edges(pairs@.take(0), outs_map) =~= Set::<(usize, usize)>::empty());
        assert(e0.union(pair_edges(pairs@.take(0), outs_map)) =~= e0);
    }
    let mut p: usize = 0;
    while p < pairs.len()
        invariant
            0 <= p <= pairs.len(),
            graph_wf(*nodes),
            graph_nodes(*nodes) == n0,
            graph_slots(*nodes) == graph_slots(*old(nodes)),
            ins == multimap_contents(*input_map),
            outs_map == multimap_contents(*output_map),
            readers_inv(ins, n0, passes, usize::MAX as int + 1),
            writers_inv(outs_map, n0, passes, usize::MAX as int + 1),
            forall|kv: KeyValue| pairs@.contains(kv) <==> is_first_value(ins, kv),
            graph_edges(*nodes) == e0.union(pair_edges(pairs@.take(p as int), outs_map)),
        decreases pairs.len() - p,
    {
        let (input, node) = pairs[p];
        let ghost prefix_edges = graph_edges(*nodes);
        proof {
            assert(pairs@.contains(pairs@[p as int]));
            assert(is_first_value(ins, (input, node)));
            assert(n0.dom().contains(node));
        }
        match multimap_get_vec(output_map, input) {
            Some(outs) => {
                let mut t: usize = 0;
                proof {
                    assert(prefix_edges.union(Set::new(|e: (usize, usize)| e.0 == node && e.0 != e.1 && outs@.take(0).contains(e.1))) =~= prefix_edges);
                }
                while t < outs.len()
                    invariant
                        0 <= t <= outs.len(),
                        graph_wf(*nodes),
                        graph_nodes(*nodes) == n0,
                        graph_slots(*nodes) == graph_slots(*old(nodes)),
                        n0.dom().contains(node),
                        outs_map.contains_key(input),
                        outs@ == outs_map[input],
                        writers_inv(outs_map, n0, passes, usize::MAX as int + 1),
                        graph_edges(*nodes) == prefix_edges.union(Set::new(|e: (usize, usize)|
                            e.0 == node && e.0 != e.1 && outs@.take(t as int).contains(e.1))),
                    decreases outs.len() - t,
                {
                    let target = outs[t];
                    let ghost before = graph_edges(*nodes);
                    proof {
                        assert(outs_map[input].contains(target)) by {
                            assert(outs@[t as int] == target);
                        }
                    }
                    if target != node {
                        graph_update_edge(nodes, node, target, 0);
                    }
                    proof {
                        let old_take = outs@.take(t as int);
                        let new_take = outs@.take(t + 1);
                        assert(new_take == old_take.push(target));
                        assert forall|x: usize| new_take.contains(x) <==> (old_take.contains(x) || x == target) by {
                            if new_take.contains(x) {
                                let j = choose|j: int| 0 <= j < new_take.len() && new_take[j] == x;
                                if j < t {
                                    assert(old_take[j] == x);
                                }
                            }
                            if old_take.contains(x) {
                                let j = choose|j: int| 0 <= j < old_take.len() && old_take[j] == x;
                                assert(new_take[j] == x);
                            }
                            if x == target {
                                assert(new_take[t as int] == x);
                            }
                        }
                        assert(graph_edges(*nodes) =~= prefix_edges.union(Set::new(|e: (usize, usize)|
                            e.0 == node && e.0 != e.1 && outs@.take(t + 1).contains(e.1))));
                    }
                    t = t + 1;
                }
                proof {
                    assert(outs@.take(outs.len() as int) == outs@);
                }
            },
            None => {},
        }
        proof {
            let kv = pairs@[p as int];
            assert(pairs@.take(p + 1) == pairs@.take(p as int).push(kv));
            assert forall|e: (usize, usize)| graph_edges(*nodes).contains(e) <==> e0.union(
                pair_edges(pairs@.take(p + 1), outs_map)).contains(e) by {
                if pair_edge(kv, outs_map, e) {
                    assert(pair_edge(pairs@.take(p + 1)[p as int], outs_map, e));
                }
                if pair_edges(pairs@.take(p as int), outs_map).contains(e) {
                    let q = choose|q: int| 0 <= q < p && #[trigger] pair_edge(pairs@.take(p as int)[q], outs_map, e);
                    assert(pair_edge(pairs@.take(p + 1)[q], outs_map, e));
                }
                if pair_edges(pairs@.take(p + 1), outs_map).contains(e) {
                    let q = choose|q: int| 0 <= q < p + 1 && #[trigger] pair_edge(pairs@.take(p + 1)[q], outs_map, e);
                    if q < p {
                        assert(pair_edge(pairs@.take(p as int)[q], outs_map, e));
                    }
                }
            }
            assert(graph_edges(*nodes) =~= e0.union(pair_edges(pairs@.take(p + 1), outs_map)));
        }
        p = p + 1;
    }
    proof {
        assert(pairs@.take(pairs.len() as int) == pairs@);
        lemma_pair_edges_are_dependencies(pairs@, ins, outs_map, n0, passes);
    }
}

/// The edges of the first-reader pairs are exactly the dependency edges.
proof fn lemma_pair_edges_are_dependencies<F, P, V, B>(
    pairs: Seq<KeyValue>,
    ins: Map<u64, Seq<usize>>,
    outs: Map<u64, Seq<usize>>,
    nodes: Map<usize, usize>,
    passes: Seq<PassType<F, P, V, B>>,
)
    requires
        readers_inv(ins, nodes, passes, usize::MAX as int + 1),
        writers_inv(outs, nodes, passes, usize::MAX as int + 1),
        forall|kv: KeyValue| pairs.contains(kv) <==> is_first_value(ins, kv),
    ensures
        pair_edges(pairs, outs) == dependency_edges(nodes, passes),
{
    assert forall|e: (usize, usize)| pair_edges(pairs, outs).contains(e) <==> dependency_edges(nodes, passes).contains(e) by {
        if pair_edges(pairs, outs).contains(e) {
            let q = choose|q: int| 0 <= q < pairs.len() && #[trigger] pair_edge(pairs[q], outs, e);
            let kv = pairs[q];
            assert(pairs.contains(kv));
            assert(is_first_value(ins, kv));
            assert(ins.contains_key(kv.0));
            assert(is_first_reader(nodes, passes, e.0, kv.0));
            assert(outs[kv.0].contains(e.1));
            assert(is_dependency(nodes, passes, e));
        }
        if dependency_edges(nodes, passes).contains(e) {
            let h = choose|h: u64| #[trigger] is_first_reader(nodes, passes, e.0, h) && node_writes(nodes, passes, e.1).contains(h);
            assert(node_reads(nodes, passes, e.0).contains(h));
            assert(ins.contains_key(h));
            let r = ins[h][0];
            assert(is_first_reader(nodes, passes, r, h));
            if r < e.0 {
                assert(!node_reads(nodes, passes, r).contains(h));
            }
            if e.0 < r {
                assert(!node_reads(nodes, passes, e.0).contains(h));
            }
            assert(r == e.0);
            assert(is_first_value(ins, (h, e.0)));
            assert(pairs.contains((h, e.0)));
            let q = choose|q: int| 0 <= q < pairs.len() && pairs[q] == (h, e.0);
            assert(outs.contains_key(h) && outs[h].contains(e.1));
            assert(pair_edge(pairs[q], outs, e));
        }
    }
    assert(pair_edges(pairs, outs) =~= dependency_edges(nodes, passes));
}

/// The edges of the graph once compiling has added the dependencies.
pub open spec fn compiled_edges<F, P, V, B>(
    nodes: Map<usize, usize>,
    edges: Set<(usize, usize)>,
    passes: Seq<PassType<F, P, V, B>>,
) -> Set<(usize, usize)> {
    edges.union(dependency_edges(nodes, passes))
}

/// Marks, by index, the nodes that a depth-first traversal from `root`
/// reaches.
fn mark_reachable(nodes: &PassGraph, root: usize) -> (keep: Vec<bool>)
    requires
        graph_wf(*nodes),
        graph_nodes(*nodes).dom().contains(root),
        forall|i: usize| #[trigger] graph_nodes(*nodes).dom().contains(i) ==> i < graph_nodes(*nodes).dom().len(),
    ensures
        keep.len() == graph_nodes(*nodes).dom().len(),
        forall|i: usize| #[trigger] graph_nodes(*nodes).dom().contains(i)
            ==> (keep@[i as int] <==> reachable(graph_edges(*nodes), root, i)),
{
    let ghost dom = graph_nodes(*nodes).dom();
    let ghost edges = graph_edges(*nodes);
    let count = graph_node_count(nodes);
    let mut keep: Vec<bool> = Vec::new();
    while keep.len() < count
        invariant
            keep.len() <= count,
            forall|i: int| 0 <= i < keep.len() ==> !keep@[i],
        decreases count - keep.len(),
    {
        keep.push(false);
    }
    let mut dfs = dfs_new(nodes, root);
    proof {
        lemma_reachable_root(edges, root);
    }
    let mut done = false;
    while !done
        invariant
            graph_wf(*nodes),
            dom == graph_nodes(*nodes).dom(),
            edges == graph_edges(*nodes),
            keep.len() == count,
            count == dom.len(),
            forall|i: int| 0 <= i < keep.len() ==> (keep@[i] <==> dfs_discovered(dfs).contains(i as usize)),
            dfs_discovered(dfs).subset_of(dom),
            dfs_stack(dfs).subset_of(dom),
            forall|i: usize| #[trigger] dom.contains(i) ==> i < dfs_capacity(dfs),
            forall|i: usize| #[trigger] dom.contains(i) ==> i < dom.len(),
            forall|i: usize| dfs_discovered(dfs).contains(i) || dfs_stack(dfs).contains(i)
                ==> #[trigger] reachable(edges, root, i),
            dfs_discovered(dfs).contains(root) || dfs_stack(dfs).contains(root),
            forall|u: usize, s: usize| dfs_discovered(dfs).contains(u) && #[trigger] edges.contains((u, s))
                ==> dfs_discovered(dfs).contains(s) || dfs_stack(dfs).contains(s),
            done ==> dfs_stack(dfs) == Set::<usize>::empty(),
        decreases (if done { 0 } else { dom.len() - dfs_discovered(dfs).len() + 1 }),
    {
        let ghost old_dfs = dfs;
        proof {
            vstd::set_lib::lemma_len_subset(dfs_discovered(dfs), dom);
        }
        match dfs_next(&mut dfs, nodes) {
            Some(n) => {
                proof {
                    assert(dom.contains(n));
                    vstd::set_lib::lemma_len_subset(dfs_discovered(dfs), dom);
                    assert forall|s: usize| dfs_stack(dfs).contains(s) implies #[trigger] reachable(edges, root, s) by {
                        if !dfs_stack(old_dfs).contains(s) {
                            assert(edges.contains((n, s)));
                            lemma_reachable_step(edges, root, n, s);
                        }
                    }
                }
                keep.set(n, true);
            },
            None => {
                done = true;
            },
        }
    }
    proof {
        let closed = dfs_discovered(dfs);
        assert forall|i: usize| #[trigger] dom.contains(i) implies (keep@[i as int] <==> reachable(edges, root, i)) by {
            if reachable(edges, root, i) {
                let p = choose|p: Seq<usize>| is_path(edges, p) && p[0] == root && #[trigger] p.last() == i;
                lemma_closed_holds_path(edges, closed, root, p);
            }
        }
    }
    keep
}

/// Compiles the graph of a frame. Every node is joined to the nodes it
/// depends on (see `dependency_edges`); the nodes that `root_index` does not
/// reach are removed; what remains is returned in execution order, every
/// node after the nodes it depends on. A cycle among the remaining nodes is
/// an error, returned rather than raised: whether there is one is only known
/// once the nodes are sorted, so no caller could rule it out beforehand.
pub fn compile<F, P, V, B>(
    nodes: &mut PassGraph,
    passes: &Vec<PassType<F, P, V, B>>,
    root_index: usize,
) -> (sorted: Result<Vec<usize>, CycleError>)
    requires
        graph_wf(*old(nodes)),
        graph_nodes(*old(nodes)).dom().contains(root_index),
        forall|i: usize| #[trigger] graph_nodes(*old(nodes)).dom().contains(i)
            ==> i < graph_nodes(*old(nodes)).dom().len() && graph_nodes(*old(nodes))[i] < passes.len(),
    ensures
        graph_wf(*final(nodes)),
        graph_slots(*final(nodes)) == graph_slots(*old(nodes)),
        graph_nodes(*final(nodes)) == graph_nodes(*old(nodes)).restrict(reachable_from(
            compiled_edges(graph_nodes(*old(nodes)), graph_edges(*old(nodes)), passes@), root_index)),
        graph_edges(*final(nodes)) == edges_reachable_from(
            compiled_edges(graph_nodes(*old(nodes)), graph_edges(*old(nodes)), passes@), root_index),
        match sorted {
            Ok(order) => is_execution_order(order@, graph_nodes(*final(nodes)).dom(), graph_edges(*final(nodes))),
            Err(_) => has_cycle(graph_nodes(*final(nodes)).dom(), graph_edges(*final(nodes))),
        },
{
    let ghost n0 = graph_nodes(*nodes);
    let ghost e1 = compiled_edges(graph_nodes(*nodes), graph_edges(*nodes), passes@);
    let (input_map, output_map) = collect_accesses(nodes, passes);
    add_dependency_edges::<F, P, V, B>(nodes, &input_map, &output_map, Ghost(passes@));
    assert(graph_edges(*nodes) == e1);
    let keep = mark_reachable(nodes, root_index);
    graph_retain_nodes(nodes, &keep);
    proof {
        assert(graph_nodes(*nodes) =~= n0.restrict(reachable_from(e1, root_index))) by {
            assert forall|i: usize| graph_nodes(*nodes).dom().contains(i) <==> n0.restrict(
                reachable_from(e1, root_index)).dom().contains(i) by {
                if n0.dom().contains(i) {
                    assert(keep@[i as int] <==> reachable(e1, root_index, i));
                }
            }
        }
        assert(graph_edges(*nodes) =~= edges_reachable_from(e1, root_index)) by {
            assert forall|e: (usize, usize)| graph_edges(*nodes).contains(e) <==> edges_reachable_from(
                e1, root_index).contains(e) by {
                if e1.contains(e) {
                    assert(n0.dom().contains(e.0) && n0.dom().contains(e.1));
                    assert(keep@[e.0 as int] <==> reachable(e1, root_index, e.0));
                    assert(keep@[e.1 as int] <==> reachable(e1, root_index, e.1));
                }
            }
        }
        assert forall|e: (usize, usize)| #[trigger] graph_edges(*nodes).contains(e) implies graph_nodes(
            *nodes).dom().contains(e.0) && graph_nodes(*nodes).dom().contains(e.1) by {
            assert(e1.contains(e));
        }
        assert(graph_nodes(*nodes).dom().subset_of(n0.dom()));
        vstd::set_lib::lemma_len_subset(graph_nodes(*nodes).dom(), n0.dom());
    }
    match graph_toposort(nodes) {
        Ok(order) => {
            let mut sorted: Vec<usize> = Vec::new();
            let mut i: usize = order.len();
            while i > 0
                invariant
                    i <= order.len(),
                    sorted.len() == order.len() - i,
                    forall|j: int| 0 <= j < sorted.len() ==> sorted@[j] == order@[order.len() - 1 - j],
                decreases i,
            {
                i = i - 1;
                sorted.push(order[i]);
            }
            proof {
                let len = order.len() as int;
                let dom = graph_nodes(*nodes).dom();
                let edges = graph_edges(*nodes);
                assert forall|a: int, b: int| 0 <= a < sorted.len() && 0 <= b < sorted.len() && a != b
                    implies sorted@[a] != sorted@[b] by {
                    assert(order@[len - 1 - a] != order@[len - 1 - b]);
                }
                assert forall|n: usize| dom.contains(n) <==> sorted@.contains(n) by {
                    if dom.contains(n) {
                        assert(order@.contains(n));
                        let j = choose|j: int| 0 <= j < len && order@[j] == n;
                        assert(sorted@[len - 1 - j] == n);
                    }
                    if sorted@.contains(n) {
                        let j = choose|j: int| 0 <= j < sorted.len() && sorted@[j] == n;
                        assert(order@[len - 1 - j] == n);
                        assert(order@.contains(n));
                    }
                }
                assert forall|a: int, b: int|
                    0 <= a < sorted.len() && 0 <= b < sorted.len() && #[trigger] edges.contains((sorted@[a], sorted@[b]))
                    implies b < a by {
                    let x = len - 1 - a;
                    let y = len - 1 - b;
                    assert(edges.contains((order@[x], order@[y])));
                }
            }
            Ok(sorted)
        },
        Err(node) => Err(CycleError { node }),
    }
}


/// The pass at the root of a frame is never removed by compiling: it
/// reaches itself.
pub proof fn law_compiling_keeps_root<F, P, V, B>(
    nodes: Map<usize, usize>,
    edges: Set<(usize, usize)>,
    passes: Seq<PassType<F, P, V, B>>,
    root: usize,
)
    requires
        nodes.dom().contains(root),
    ensures
        nodes.restrict(reachable_from(compiled_edges(nodes, edges, passes), root)).dom().contains(root),
{
    lemma_reachable_root(compiled_edges(nodes, edges, passes), root);
}

/// In a compiled frame, a graphics pass that draws into an image as its
/// depth attachment is kept for, and runs before, the first pass that reads
/// that image, wherever that reader is kept.
pub proof fn law_depth_writer_runs_before_first_reader<F, P, V, B>(
    nodes: Map<usize, usize>,
    edges: Set<(usize, usize)>,
    passes: Seq<PassType<F, P, V, B>>,
    root: usize,
    order: Seq<usize>,
    reader: usize,
    writer: usize,
    h: u64,
)
    requires
        is_execution_order(
            order,
            nodes.restrict(reachable_from(compiled_edges(nodes, edges, passes), root)).dom(),
            edges_reachable_from(compiled_edges(nodes, edges, passes), root),
        ),
        reachable(compiled_edges(nodes, edges, passes), root, reader),
        is_first_reader(nodes, passes, reader, h),
        nodes.dom().contains(writer),
        writer != reader,
        passes[nodes[writer] as int] matches PassType::Graphics(n) && n.depth_target matches Some(d)
            && d.resource_image == h,
    ensures
        order.contains(reader),
        order.contains(writer),
        forall|i: int, j: int| 0 <= i < order.len() && 0 <= j < order.len() && order[i] == writer && order[j] == reader
            ==> i < j,
{
    crate::pass_type::law_passes_touch_their_resources(passes[nodes[writer] as int]);
    law_writer_runs_before_first_reader(nodes, edges, passes, root, order, reader, writer, h);
}

/// In a compiled frame, a pass that writes a resource runs before the
/// first pass that reads it, wherever that reader is kept.
pub proof fn law_writer_runs_before_first_reader<F, P, V, B>(
    nodes: Map<usize, usize>,
    edges: Set<(usize, usize)>,
    passes: Seq<PassType<F, P, V, B>>,
    root: usize,
    order: Seq<usize>,
    reader: usize,
    writer: usize,
    h: u64,
)
    requires
        is_execution_order(
            order,
            nodes.restrict(reachable_from(compiled_edges(nodes, edges, passes), root)).dom(),
            edges_reachable_from(compiled_edges(nodes, edges, passes), root),
        ),
        reachable(compiled_edges(nodes, edges, passes), root, reader),
        is_first_reader(nodes, passes, reader, h),
        nodes.dom().contains(writer),
        writer != reader,
        node_writes(nodes, passes, writer).contains(h),
    ensures
        order.contains(reader),
        order.contains(writer),
        forall|i: int, j: int| 0 <= i < order.len() && 0 <= j < order.len() && order[i] == writer && order[j] == reader
            ==> i < j,
{
    let e = compiled_edges(nodes, edges, passes);
    let kept = nodes.restrict(reachable_from(e, root)).dom();
    assert(is_first_reader(nodes, passes, reader, h) && node_writes(nodes, passes, writer).contains(h));
    assert(is_dependency(nodes, passes, (reader, writer)));
    assert(e.contains((reader, writer)));
    lemma_reachable_step(e, root, reader, writer);
    assert(kept.contains(reader));
    assert(kept.contains(writer));
    assert(edges_reachable_from(e, root).contains((reader, writer)));
    assert forall|i: int, j: int| 0 <= i < order.len() && 0 <= j < order.len() && order[i] == writer && order[j] == reader
        implies i < j by {
        assert(edges_reachable_from(e, root).contains((order[j], order[i])));
    }
}

/// Along a path from the root inside the kept graph, every later node
/// comes earlier in the execution order than the root.
proof fn lemma_path_runs_before_root(
    e: Set<(usize, usize)>,
    root: usize,
    order: Seq<usize>,
    nodes: Set<usize>,
    p: Seq<usize>,
)
    requires
        is_execution_order(order, nodes, edges_reachable_from(e, root)),
        nodes.contains(root),
        forall|n: usize| #[trigger] reachable(e, root, n) ==> nodes.contains(n),
        is_path(e, p),
        p[0] == root,
        p.len() >= 2,
    ensures
        order.contains(p.last()),
        order.index_of(p.last()) < order.index_of(root),
    decreases p.len(),
{
    let q = p.drop_last();
    assert forall|i: int| 0 <= i < q.len() - 1 implies #[trigger] e.contains((q[i], q[i + 1])) by {
        assert(e.contains((p[i], p[i + 1])));
    }
    assert(is_path(e, q));
    let u = q.last();
    let v = p.last();
    let k = p.len() - 2;
    assert(e.contains((p[k], p[k + 1])));
    assert(u == p[k]);
    assert(v == p[k + 1]);
    assert(reachable(e, root, u)) by {
        assert(q[0] == root);
    }
    lemma_reachable_step(e, root, u, v);
    assert(edges_reachable_from(e, root).contains((u, v)));
    assert(order.contains(u));
    assert(order.contains(v));
    assert(order.contains(root));
    let iu = order.index_of(u);
    let iv = order.index_of(v);
    assert(order[iu] == u && order[iv] == v);
    assert(edges_reachable_from(e, root).contains((order[iu], order[iv])));
    assert(iv < iu);
    if q.len() >= 2 {
        lemma_path_runs_before_root(e, root, order, nodes, q);
    } else {
        assert(u == root);
    }
}

/// In a compiled frame, the root pass runs last: every other kept pass is
/// reached from the root, so the root depends on it.
pub proof fn law_root_runs_last<F, P, V, B>(
    nodes: Map<usize, usize>,
    edges: Set<(usize, usize)>,
    passes: Seq<PassType<F, P, V, B>>,
    root: usize,
    order: Seq<usize>,
)
    requires
        nodes.dom().contains(root),
        is_execution_order(
            order,
            nodes.restrict(reachable_from(compiled_edges(nodes, edges, passes), root)).dom(),
            edges_reachable_from(compiled_edges(nodes, edges, passes), root),
        ),
        forall|e: (usize, usize)| #[trigger] edges.contains(e) ==> nodes.dom().contains(e.0) && nodes.dom().contains(e.1),
    ensures
        order.len() > 0,
        order.last() == root,
{
    let e = compiled_edges(nodes, edges, passes);
    let kept = nodes.restrict(reachable_from(e, root)).dom();
    lemma_reachable_root(e, root);
    assert(kept.contains(root));
    assert(order.contains(root));
    assert forall|n: usize| #[trigger] reachable(e, root, n) implies kept.contains(n) by {
        let p = choose|p: Seq<usize>| is_path(e, p) && p[0] == root && #[trigger] p.last() == n;
        if p.len() == 1 {
            assert(n == root);
        } else {
            let k = p.len() - 2;
            assert(e.contains((p[k], p[k + 1])));
            if edges.contains((p[k], p[k + 1])) {
            } else {
                assert(is_dependency(nodes, passes, (p[k], p[k + 1])));
            }
        }
    }
    let last = order.last();
    let ir = order.index_of(root);
    if ir != order.len() - 1 {
        assert(kept.contains(last));
        assert(reachable(e, root, last));
        let p = choose|p: Seq<usize>| is_path(e, p) && p[0] == root && #[trigger] p.last() == last;
        assert(p.len() >= 2) by {
            if p.len() == 1 {
                assert(last == root);
                assert(order[order.len() - 1] == order[ir]);
            }
        }
        lemma_path_runs_before_root(e, root, order, kept, p);
        assert(order.index_of(last) == order.len() - 1) by {
            assert(order[order.len() - 1] == last);
        }
    }
}

} // verus!
