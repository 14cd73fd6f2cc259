//! Lists of nodes recorded into one command buffer.

use vstd::prelude::*;

verus! {

/// Pipeline stages at which a queue submission waits.
#[derive(Clone, Copy, Debug, PartialEq, Eq, Structural)]
pub struct QueueWait {
    pub wait_stage_mask: u32,
}

/// Node indices in recording order, with an optional wait.
pub struct CommandList {
    pub nodes: Vec<usize>,
    pub wait: Option<QueueWait>,
}

impl CommandList {
    /// An empty list without a wait.
    pub fn new() -> (list: CommandList)
        ensures
            list.nodes@ == Seq::<usize>::empty(),
            list.wait is None,
    {
        CommandList { nodes: Vec::new(), wait: None }
    }
}

/// A node of the graph with the wait that precedes it.
pub struct LinkedNode {
    pub index: usize,
    pub wait: Option<QueueWait>,
}

} // verus!
