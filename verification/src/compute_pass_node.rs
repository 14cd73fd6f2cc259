//! Compute passes: bound inputs and outputs and a compute pipeline.

use vstd::prelude::*;
use crate::binding::ResourceBinding;
use crate::pass_node::{PassNode, binding_handles, push_binding_handles};
use crate::pipeline::ComputePipelineDescription;

verus! {

pub struct ComputePassNode<F> {
    pub inputs: Vec<ResourceBinding>,
    pub outputs: Vec<ResourceBinding>,
    pub fill_callback: F,
    pub pipeline_description: ComputePipelineDescription,
    pub name: String,
}

pub struct ComputePassNodeBuilder<F> {
    pub name: String,
    pub inputs: Vec<ResourceBinding>,
    pub outputs: Vec<ResourceBinding>,
    pub pipeline_description: Option<ComputePipelineDescription>,
    pub fill_callback: Option<F>,
}

impl<F> PassNode for ComputePassNode<F> {
    open spec fn spec_name(&self) -> Seq<char> {
        self.name@
    }

    open spec fn spec_reads(&self) -> Seq<u64> {
        binding_handles(self.inputs@)
    }

    open spec fn spec_writes(&self) -> Seq<u64> {
        binding_handles(self.outputs@)
    }

    fn get_name(&self) -> (name: &str) {
        self.name.as_str()
    }

    fn get_reads(&self) -> (reads: Vec<u64>) {
        let mut reads: Vec<u64> = Vec::new();
        push_binding_handles(&mut reads, &self.inputs);
        reads
    }

    fn get_writes(&self) -> (writes: Vec<u64>) {
        let mut writes: Vec<u64> = Vec::new();
        push_binding_handles(&mut writes, &self.outputs);
        writes
    }
}

impl<F> ComputePassNode<F> {
    pub fn builder(name: String) -> (builder: ComputePassNodeBuilder<F>)
        ensures
            builder.name == name,
            builder.inputs@.len() == 0,
            builder.outputs@.len() == 0,
            builder.pipeline_description is None,
            builder.fill_callback is None,
    {
        ComputePassNodeBuilder {
            name,
            inputs: Vec::new(),
            outputs: Vec::new(),
            pipeline_description: None,
            fill_callback: None,
        }
    }
}

impl<F> ComputePassNodeBuilder<F> {
    pub fn pipeline_description(self, pipeline_description: ComputePipelineDescription) -> (builder: Self)
        ensures
            builder == (ComputePassNodeBuilder { pipeline_description: Some(pipeline_description), ..self }),
    {
        ComputePassNodeBuilder { pipeline_description: Some(pipeline_description), ..self }
    }

    pub fn input(self, input: ResourceBinding) -> (builder: Self)
        ensures
            builder == (ComputePassNodeBuilder { inputs: builder.inputs, ..self }),
            builder.inputs@ == self.inputs@.push(input),
    {
        let mut this = self;
        this.inputs.push(input);
        this
    }

    pub fn output(self, output: ResourceBinding) -> (builder: Self)
        ensures
            builder == (ComputePassNodeBuilder { outputs: builder.outputs, ..self }),
            builder.outputs@ == self.outputs@.push(output),
    {
        let mut this = self;
        this.outputs.push(output);
        this
    }

    pub fn fill_commands(self, fill_callback: F) -> (builder: Self)
        ensures
            builder == (ComputePassNodeBuilder { fill_callback: Some(fill_callback), ..self }),
    {
        ComputePassNodeBuilder { fill_callback: Some(fill_callback), ..self }
    }

    /// The pass; an error if no fill callback was set. With a callback, a
    /// pipeline description must have been set too.
    pub fn build(self) -> (result: Result<ComputePassNode<F>, &'static str>)
        requires
            self.fill_callback is Some ==> self.pipeline_description is Some,
        ensures
            self.fill_callback is None ==> (result matches Err(e) && e@ == "ComputePassNodeBuilder was incomplete before building"@),
            self.fill_callback is Some ==> (result matches Ok(node) && node == (ComputePassNode {
                inputs: self.inputs,
                outputs: self.outputs,
                fill_callback: self.fill_callback->Some_0,
                pipeline_description: self.pipeline_description->Some_0,
                name: self.name,
            })),
    {
        match self.fill_callback {
            Some(fill_callback) => match self.pipeline_description {
                Some(pipeline_description) => Ok(
                    ComputePassNode {
                        inputs: self.inputs,
                        outputs: self.outputs,
                        fill_callback,
                        pipeline_description,
                        name: self.name,
                    },
                ),
                None => vstd::pervasive::unreached(),
            },
            None => Err("ComputePassNodeBuilder was incomplete before building"),
        }
    }
}

} // verus!
