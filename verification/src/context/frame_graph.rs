//! A simple frame of passes: passes are added once the frame has started,
//! the frame is compiled, and ending it hands the passes out for execution,
//! last added first.

use vstd::prelude::*;
use crate::context::resource_manager::ResourceHandle;

verus! {

/// A pass by its pipeline objects (as handles), the resources it reads and
/// writes, and the callback that records it. `F` is the callback.
pub struct PassNode<F> {
    pub layout: u64,
    pub pipeline: u64,
    pub renderpass: u64,
    pub inputs: Vec<ResourceHandle>,
    pub outputs: Vec<ResourceHandle>,
    pub fill_callback: F,
}

impl<F> PassNode<F> {
    pub fn builder() -> (builder: PassNodeBuilder<F>)
        ensures
            builder.layout is None,
            builder.pipeline is None,
            builder.renderpass is None,
            builder.inputs is None,
            builder.outputs is None,
            builder.fill_callback is None,
    {
        PassNodeBuilder { layout: None, pipeline: None, renderpass: None, inputs: None, outputs: None, fill_callback: None }
    }

    pub fn get_inputs(&self) -> (inputs: &[ResourceHandle])
        ensures
            inputs@ == self.inputs@,
    {
        self.inputs.as_slice()
    }

    pub fn get_outputs(&self) -> (outputs: &[ResourceHandle])
        ensures
            outputs@ == self.outputs@,
    {
        self.outputs.as_slice()
    }
}

pub struct PassNodeBuilder<F> {
    pub layout: Option<u64>,
    pub pipeline: Option<u64>,
    pub renderpass: Option<u64>,
    pub inputs: Option<Vec<ResourceHandle>>,
    pub outputs: Option<Vec<ResourceHandle>>,
    pub fill_callback: Option<F>,
}

impl<F> PassNodeBuilder<F> {
    pub fn layout(self, layout: u64) -> (builder: Self)
        ensures
            builder.layout == Some(layout),
            builder.pipeline == self.pipeline,
            builder.renderpass == self.renderpass,
            builder.inputs == self.inputs,
            builder.outputs == self.outputs,
            builder.fill_callback == self.fill_callback,
    {
        PassNodeBuilder { layout: Some(layout), ..self }
    }

    pub fn pipeline(self, pipeline: u64) -> (builder: Self)
        ensures
            builder.pipeline == Some(pipeline),
            builder.layout == self.layout,
            builder.renderpass == self.renderpass,
            builder.inputs == self.inputs,
            builder.outputs == self.outputs,
            builder.fill_callback == self.fill_callback,
    {
        PassNodeBuilder { pipeline: Some(pipeline), ..self }
    }

    pub fn renderpass(self, renderpass: u64) -> (builder: Self)
        ensures
            builder.renderpass == Some(renderpass),
            builder.layout == self.layout,
            builder.pipeline == self.pipeline,
            builder.inputs == self.inputs,
            builder.outputs == self.outputs,
            builder.fill_callback == self.fill_callback,
    {
        PassNodeBuilder { renderpass: Some(renderpass), ..self }
    }

    pub fn inputs(self, inputs: Vec<ResourceHandle>) -> (builder: Self)
        ensures
            builder.inputs == Some(inputs),
            builder.layout == self.layout,
            builder.pipeline == self.pipeline,
            builder.renderpass == self.renderpass,
            builder.outputs == self.outputs,
            builder.fill_callback == self.fill_callback,
    {
        PassNodeBuilder { inputs: Some(inputs), ..self }
    }

    pub fn outputs(self, outputs: Vec<ResourceHandle>) -> (builder: Self)
        ensures
            builder.outputs == Some(outputs),
            builder.layout == self.layout,
            builder.pipeline == self.pipeline,
            builder.renderpass == self.renderpass,
            builder.inputs == self.inputs,
            builder.fill_callback == self.fill_callback,
    {
        PassNodeBuilder { outputs: Some(outputs), ..self }
    }

    pub fn fill_commands(&mut self, fill_callback: F)
        ensures
            final(self).fill_callback == Some(fill_callback),
            final(self).layout == old(self).layout,
            final(self).pipeline == old(self).pipeline,
            final(self).renderpass == old(self).renderpass,
            final(self).inputs == old(self).inputs,
            final(self).outputs == old(self).outputs,
    {
        self.fill_callback = Some(fill_callback);
    }

    /// The pass, once layout, pipeline, render pass and callback are set;
    /// inputs and outputs left unset are empty. The builder gives up its
    /// inputs, outputs and callback.
    pub fn build(&mut self) -> (node: Result<PassNode<F>, &'static str>)
        requires
            old(self).layout is Some,
            old(self).pipeline is Some,
            old(self).renderpass is Some,
            old(self).fill_callback is Some,
        ensures
            node matches Ok(n) && {
                &&& n.layout == old(self).layout->Some_0
                &&& n.pipeline == old(self).pipeline->Some_0
                &&& n.renderpass == old(self).renderpass->Some_0
                &&& n.inputs@ == (match old(self).inputs { Some(v) => v@, None => Seq::empty() })
                &&& n.outputs@ == (match old(self).outputs { Some(v) => v@, None => Seq::empty() })
                &&& n.fill_callback == old(self).fill_callback->Some_0
            },
            final(self).inputs is None,
            final(self).outputs is None,
            final(self).fill_callback is None,
            final(self).layout == old(self).layout,
            final(self).pipeline == old(self).pipeline,
            final(self).renderpass == old(self).renderpass,
    {
        let inputs = match self.inputs.take() {
            Some(i) => i,
            None => Vec::new(),
        };
        let outputs = match self.outputs.take() {
            Some(o) => o,
            None => Vec::new(),
        };
        let fill_callback = match self.fill_callback.take() {
            Some(f) => f,
            None => vstd::pervasive::unreached(),
        };
        let layout = match self.layout { Some(l) => l, None => vstd::pervasive::unreached() };
        let pipeline = match self.pipeline { Some(p) => p, None => vstd::pervasive::unreached() };
        let renderpass = match self.renderpass { Some(r) => r, None => vstd::pervasive::unreached() };
        Ok(PassNode { layout, pipeline, renderpass, inputs, outputs, fill_callback })
    }
}

/// The passes of a frame, and how far the frame has come.
pub struct FrameGraph<N> {
    pub nodes: Vec<N>,
    pub frame_started: bool,
    pub compiled: bool,
}

impl<N> FrameGraph<N> {
    pub fn new() -> (graph: Self)
        ensures
            graph.nodes@.len() == 0,
            !graph.frame_started,
            !graph.compiled,
    {
        FrameGraph { nodes: Vec::new(), frame_started: false, compiled: false }
    }

    /// Starts the frame; it must not have been started.
    pub fn start(&mut self)
        requires
            !old(self).frame_started,
        ensures
            final(self).frame_started,
            final(self).compiled == old(self).compiled,
            final(self).nodes@ == old(self).nodes@,
    {
        self.frame_started = true;
    }

    /// Adds a pass to a started frame that is not compiled yet.
    pub fn add_node(&mut self, node: N)
        requires
            old(self).frame_started,
            !old(self).compiled,
        ensures
            final(self).nodes@ == old(self).nodes@.push(node),
            final(self).frame_started,
            !final(self).compiled,
    {
        self.nodes.push(node);
    }

    /// Compiles a started frame, once.
    pub fn compile(&mut self)
        requires
            old(self).frame_started,
            !old(self).compiled,
        ensures
            final(self).compiled,
            final(self).frame_started,
            final(self).nodes@ == old(self).nodes@,
    {
        self.compiled = true;
    }

    /// Ends a compiled frame: the passes come out in the order they are to
    /// execute, the last added first, and the frame keeps none.
    pub fn end(&mut self) -> (execution_order: Vec<N>)
        requires
            old(self).frame_started,
            old(self).compiled,
        ensures
            execution_order@ == old(self).nodes@.reverse(),
            final(self).nodes@.len() == 0,
            final(self).frame_started,
            final(self).compiled,
    {
        let mut execution_order: Vec<N> = Vec::new();
        let ghost nodes0 = self.nodes@;
        while self.nodes.len() > 0
            invariant
                self.frame_started,
                self.compiled,
                self.nodes@.len() <= nodes0.len(),
                self.nodes@ == nodes0.take(self.nodes@.len() as int),
                execution_order@ == nodes0.skip(self.nodes@.len() as int).reverse(),
            decreases self.nodes@.len(),
        {
            let ghost before = self.nodes@;
            let node = match self.nodes.pop() {
                Some(n) => n,
                None => vstd::pervasive::unreached(),
            };
            execution_order.push(node);
            proof {
                let k = self.nodes@.len() as int;
                assert(self.nodes@ =~= nodes0.take(k));
                assert(nodes0.skip(k) =~= seq![node] + nodes0.skip(k + 1));
                assert(execution_order@ =~= nodes0.skip(k).reverse());
            }
        }
        proof {
            assert(nodes0.skip(0) =~= nodes0);
        }
        execution_order
    }
}

} // verus!
