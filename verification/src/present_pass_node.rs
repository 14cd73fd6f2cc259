//! The pass that hands a swapchain image to presentation.

use vstd::prelude::*;
use crate::pass_node::PassNode;

verus! {

pub struct PresentPassNode {
    pub swapchain_image: u64,
    pub name: String,
}

pub struct PresentPassNodeBuilder {
    pub name: String,
    pub swapchain_image: Option<u64>,
}

impl PresentPassNode {
    pub fn builder(name: String) -> (builder: PresentPassNodeBuilder)
        ensures
            builder.name == name,
            builder.swapchain_image is None,
    {
        PresentPassNodeBuilder { name, swapchain_image: None }
    }
}

impl PresentPassNodeBuilder {
    pub fn swapchain_image(self, swapchain_image: u64) -> (builder: Self)
        ensures
            builder.swapchain_image == Some(swapchain_image),
            builder.name == self.name,
    {
        PresentPassNodeBuilder { swapchain_image: Some(swapchain_image), ..self }
    }

    /// The pass; an error if no swapchain image was set.
    pub fn build(self) -> (result: Result<PresentPassNode, &'static str>)
        ensures
            self.swapchain_image is None ==> (result matches Err(e) && e@ == "PresentPassNode requires a swapchain image"@),
            self.swapchain_image is Some ==> (result matches Ok(node) && node.swapchain_image
                == self.swapchain_image->Some_0 && node.name == self.name),
    {
        match self.swapchain_image {
            Some(swapchain_image) => Ok(PresentPassNode { swapchain_image, name: self.name }),
            None => Err("PresentPassNode requires a swapchain image"),
        }
    }
}

impl PassNode for PresentPassNode {
    open spec fn spec_name(&self) -> Seq<char> {
        self.name@
    }

    /// The swapchain image.
    open spec fn spec_reads(&self) -> Seq<u64> {
        seq![self.swapchain_image]
    }

    /// Nothing.
    open spec fn spec_writes(&self) -> Seq<u64> {
        Seq::empty()
    }

    fn get_name(&self) -> (name: &str) {
        self.name.as_str()
    }

    fn get_reads(&self) -> (reads: Vec<u64>) {
        let mut reads: Vec<u64> = Vec::new();
        reads.push(self.swapchain_image);
        assert(reads@ =~= seq![self.swapchain_image]);
        reads
    }

    fn get_writes(&self) -> (writes: Vec<u64>) {
        let writes: Vec<u64> = Vec::new();
        assert(writes@ =~= Seq::<u64>::empty());
        writes
    }
}

} // verus!
