//! Copy passes: images copied from and images copied to.

use vstd::prelude::*;
use crate::pass_node::{PassNode, push_handles};

verus! {

pub struct CopyPassNode<F> {
    pub copy_sources: Vec<u64>,
    pub copy_dests: Vec<u64>,
    pub fill_callback: F,
    pub name: String,
}

pub struct CopyPassNodeBuilder<F> {
    pub copy_sources: Vec<u64>,
    pub copy_dests: Vec<u64>,
    pub fill_callback: Option<F>,
    pub name: String,
}

impl<F> PassNode for CopyPassNode<F> {
    open spec fn spec_name(&self) -> Seq<char> {
        self.name@
    }

    /// The copy sources.
    open spec fn spec_reads(&self) -> Seq<u64> {
        self.copy_sources@
    }

    /// The copy destinations.
    open spec fn spec_writes(&self) -> Seq<u64> {
        self.copy_dests@
    }

    fn get_name(&self) -> (name: &str) {
        self.name.as_str()
    }

    fn get_reads(&self) -> (reads: Vec<u64>) {
        let mut reads: Vec<u64> = Vec::new();
        push_handles(&mut reads, &self.copy_sources);
        reads
    }

    fn get_writes(&self) -> (writes: Vec<u64>) {
        let mut writes: Vec<u64> = Vec::new();
        push_handles(&mut writes, &self.copy_dests);
        writes
    }
}

impl<F> CopyPassNode<F> {
    pub fn builder(name: String) -> (builder: CopyPassNodeBuilder<F>)
        ensures
            builder.name == name,
            builder.copy_sources@.len() == 0,
            builder.copy_dests@.len() == 0,
            builder.fill_callback is None,
    {
        CopyPassNodeBuilder { copy_sources: Vec::new(), copy_dests: Vec::new(), fill_callback: None, name }
    }
}

impl<F> CopyPassNodeBuilder<F> {
    pub fn copy_src(self, copy_src: u64) -> (builder: Self)
        ensures
            builder == (CopyPassNodeBuilder { copy_sources: builder.copy_sources, ..self }),
            builder.copy_sources@ == self.copy_sources@.push(copy_src),
    {
        let mut this = self;
        this.copy_sources.push(copy_src);
        this
    }

    pub fn copy_dst(self, copy_dst: u64) -> (builder: Self)
        ensures
            builder == (CopyPassNodeBuilder { copy_dests: builder.copy_dests, ..self }),
            builder.copy_dests@ == self.copy_dests@.push(copy_dst),
    {
        let mut this = self;
        this.copy_dests.push(copy_dst);
        this
    }

    pub fn fill_commands(self, fill_callback: F) -> (builder: Self)
        ensures
            builder == (CopyPassNodeBuilder { fill_callback: Some(fill_callback), ..self }),
    {
        CopyPassNodeBuilder { fill_callback: Some(fill_callback), ..self }
    }

    /// The pass; an error if no fill callback was set.
    pub fn build(self) -> (result: Result<CopyPassNode<F>, &'static str>)
        ensures
            self.fill_callback is None ==> (result matches Err(e) && e@ == "CopyPassNodeBuilder was incomplete before building"@),
            self.fill_callback is Some ==> (result matches Ok(node) && node == (CopyPassNode {
                copy_sources: self.copy_sources,
                copy_dests: self.copy_dests,
                fill_callback: self.fill_callback->Some_0,
                name: self.name,
            })),
    {
        match self.fill_callback {
            Some(fill_callback) => Ok(
                CopyPassNode {
                    copy_sources: self.copy_sources,
                    copy_dests: self.copy_dests,
                    fill_callback,
                    name: self.name,
                },
            ),
            None => Err("CopyPassNodeBuilder was incomplete before building"),
        }
    }
}

} // verus!
