//! A frame: the passes added to it, in a graph, and the state it is in.

use vstd::prelude::*;
use crate::graph::{PassGraph, graph_nodes, graph_edges, graph_slots, graph_wf, graph_new, graph_add_node};
use crate::pass_type::PassType;

verus! {

#[derive(Clone, Copy, Debug, PartialEq, Eq, Structural)]
pub enum FrameState {
    New,
    Started,
    Ended,
}

/// The passes of a frame and the graph over them: node `i` of the graph is
/// `passes[i]`. A frame is started with its root pass (the one that
/// produces the frame's result), takes more passes while started, and is
/// ended before it is compiled.
pub struct Frame<F, P, V, B> {
    pub nodes: PassGraph,
    pub passes: Vec<PassType<F, P, V, B>>,
    pub root_index: Option<usize>,
    pub state: FrameState,
    pub sorted_nodes: Vec<usize>,
}

impl<F, P, V, B> Frame<F, P, V, B> {
    /// Node `i` of the graph is pass `i`; until the frame is compiled every
    /// pass is a node; the root is a node once the frame is started.
    pub open spec fn well_formed(&self) -> bool {
        &&& graph_wf(self.nodes)
        &&& graph_slots(self.nodes) == self.passes.len()
        &&& forall|i: usize| #[trigger] graph_nodes(self.nodes).dom().contains(i)
                ==> graph_nodes(self.nodes)[i] == i && i < self.passes.len()
        &&& self.state != FrameState::Ended ==> graph_nodes(self.nodes).dom().len() == self.passes.len()
        &&& self.state != FrameState::Ended ==> forall|i: usize|
                #[trigger] graph_nodes(self.nodes).dom().contains(i) <==> i < self.passes.len()
        &&& (self.state == FrameState::New <==> self.root_index is None)
        &&& self.state == FrameState::Started ==> graph_nodes(self.nodes).dom().contains(self.root_index->Some_0)
    }

    /// A new frame, with no passes.
    pub fn new() -> (frame: Self)
        ensures
            frame.well_formed(),
            frame.state == FrameState::New,
            frame.passes@.len() == 0,
            frame.sorted_nodes@.len() == 0,
            graph_edges(frame.nodes) == Set::<(usize, usize)>::empty(),
    {
        Frame {
            nodes: graph_new(),
            passes: Vec::new(),
            root_index: None,
            state: FrameState::New,
            sorted_nodes: Vec::new(),
        }
    }

    fn push_node(&mut self, node: PassType<F, P, V, B>) -> (index: usize)
        requires
            old(self).well_formed(),
            old(self).state != FrameState::Ended,
            old(self).passes.len() < u32::MAX,
        ensures
            index == old(self).passes.len(),
            final(self).passes@ == old(self).passes@.push(node),
            graph_nodes(final(self).nodes) == graph_nodes(old(self).nodes).insert(index, index),
            graph_edges(final(self).nodes) == graph_edges(old(self).nodes),
            graph_slots(final(self).nodes) == index + 1,
            final(self).root_index == old(self).root_index,
            final(self).state == old(self).state,
            final(self).sorted_nodes == old(self).sorted_nodes,
    {
        let position = self.passes.len();
        let index = graph_add_node(&mut self.nodes, position);
        self.passes.push(node);
        index
    }

    /// Adds a pass to a started frame and returns its node index.
    pub fn add_node(&mut self, node: PassType<F, P, V, B>) -> (index: usize)
        requires
            old(self).well_formed(),
            old(self).state == FrameState::Started,
            old(self).passes.len() < u32::MAX,
        ensures
            final(self).well_formed(),
            index == old(self).passes.len(),
            final(self).passes@ == old(self).passes@.push(node),
            graph_edges(final(self).nodes) == graph_edges(old(self).nodes),
            final(self).root_index == old(self).root_index,
            final(self).state == FrameState::Started,
    {
        let index = self.push_node(node);
        index
    }

    /// Starts a new frame with the pass whose result the frame is for.
    pub fn start(&mut self, root_node: PassType<F, P, V, B>)
        requires
            old(self).well_formed(),
            old(self).state == FrameState::New,
            old(self).passes.len() < u32::MAX,
        ensures
            final(self).well_formed(),
            final(self).state == FrameState::Started,
            final(self).root_index == Some(old(self).passes.len() as usize),
            final(self).passes@ == old(self).passes@.push(root_node),
            graph_edges(final(self).nodes) == graph_edges(old(self).nodes),
    {
        let index = self.push_node(root_node);
        self.state = FrameState::Started;
        self.root_index = Some(index);
    }

    /// Ends a started frame; it takes no more passes.
    pub fn end(&mut self)
        requires
            old(self).well_formed(),
            old(self).state == FrameState::Started,
        ensures
            final(self).well_formed(),
            final(self).state == FrameState::Ended,
            final(self).nodes == old(self).nodes,
            final(self).passes == old(self).passes,
            final(self).root_index == old(self).root_index,
    {
        self.state = FrameState::Ended;
    }

    /// The root pass's node index, once the frame is started.
    pub fn get_root_index(&self) -> (root: usize)
        requires
            self.well_formed(),
            self.state != FrameState::New,
        ensures
            self.root_index == Some(root),
    {
        match self.root_index {
            Some(root) => root,
            None => vstd::pervasive::unreached(),
        }
    }
}

} // verus!
