//! Graphics passes: bound inputs and outputs, color and depth attachments,
//! and the callback that records their draw commands. The pipeline
//! description (`P`), viewport (`V`), framebuffer (`B`) and callback (`F`)
//! are carried for the executor; the graph does not look into them.

use vstd::prelude::*;
use crate::attachment::AttachmentReference;
use crate::binding::ResourceBinding;
use crate::pass_node::{
    PassNode, attachment_handles, binding_handles, optional_handle, push_attachment_handles,
    push_binding_handles,
};

verus! {

/// A scissor rectangle.
#[derive(Clone, Copy, Debug, PartialEq, Eq, Structural)]
pub struct Rect2D {
    pub x: i32,
    pub y: i32,
    pub width: u32,
    pub height: u32,
}

pub struct GraphicsPassNode<F, P, V, B> {
    pub pipeline_description: Option<P>,
    pub render_targets: Vec<AttachmentReference>,
    pub depth_target: Option<AttachmentReference>,
    pub inputs: Vec<ResourceBinding>,
    pub outputs: Vec<ResourceBinding>,
    pub tagged_resources: Vec<u64>,
    pub framebuffer: Option<B>,
    pub viewport: Option<V>,
    pub scissor: Option<Rect2D>,
    pub fill_callback: F,
    pub name: String,
}

pub struct PassNodeBuilder<F, P, V> {
    pub pipeline_description: Option<P>,
    pub render_targets: Vec<AttachmentReference>,
    pub depth_target: Option<AttachmentReference>,
    pub inputs: Vec<ResourceBinding>,
    pub outputs: Vec<ResourceBinding>,
    pub tagged_resources: Vec<u64>,
    pub fill_callback: Option<F>,
    pub viewport: Option<V>,
    pub scissor: Option<Rect2D>,
    pub name: String,
}

impl<F, P, V, B> PassNode for GraphicsPassNode<F, P, V, B> {
    open spec fn spec_name(&self) -> Seq<char> {
        self.name@
    }

    /// Inputs, then render targets, then the depth target: attachments
    /// depend on earlier writes too.
    open spec fn spec_reads(&self) -> Seq<u64> {
        binding_handles(self.inputs@) + attachment_handles(self.render_targets@) + optional_handle(
            self.depth_target,
        )
    }

    /// Outputs, then render targets, then the depth target.
    open spec fn spec_writes(&self) -> Seq<u64> {
        binding_handles(self.outputs@) + attachment_handles(self.render_targets@) + optional_handle(
            self.depth_target,
        )
    }

    fn get_name(&self) -> (name: &str) {
        self.name.as_str()
    }

    fn get_reads(&self) -> (reads: Vec<u64>) {
        let mut reads: Vec<u64> = Vec::new();
        push_binding_handles(&mut reads, &self.inputs);
        push_attachment_handles(&mut reads, &self.render_targets);
        if let Some(dt) = &self.depth_target {
            reads.push(dt.resource_image);
        }
        assert(reads@ =~= self.spec_reads());
        reads
    }

    fn get_writes(&self) -> (writes: Vec<u64>) {
        let mut writes: Vec<u64> = Vec::new();
        push_binding_handles(&mut writes, &self.outputs);
        push_attachment_handles(&mut writes, &self.render_targets);
        if let Some(dt) = &self.depth_target {
            writes.push(dt.resource_image);
        }
        assert(writes@ =~= self.spec_writes());
        writes
    }
}

impl<F, P, V, B> GraphicsPassNode<F, P, V, B> {
    /// A builder with the given name and nothing else set.
    pub fn builder(name: String) -> (builder: PassNodeBuilder<F, P, V>)
        ensures
            builder.name == name,
            builder.pipeline_description is None,
            builder.render_targets@.len() == 0,
            builder.depth_target is None,
            builder.inputs@.len() == 0,
            builder.outputs@.len() == 0,
            builder.tagged_resources@.len() == 0,
            builder.fill_callback is None,
            builder.viewport is None,
            builder.scissor is None,
    {
        PassNodeBuilder {
            pipeline_description: None,
            render_targets: Vec::new(),
            depth_target: None,
            inputs: Vec::new(),
            outputs: Vec::new(),
            tagged_resources: Vec::new(),
            fill_callback: None,
            viewport: None,
            scissor: None,
            name,
        }
    }

    pub fn get_pipeline_description(&self) -> (description: &Option<P>)
        ensures
            *description == self.pipeline_description,
    {
        &self.pipeline_description
    }

    /// Keeps the framebuffer alive as long as the pass.
    pub fn set_framebuffer(passnode: &mut Self, framebuffer: B)
        ensures
            final(passnode).framebuffer == Some(framebuffer),
            final(passnode).pipeline_description == old(passnode).pipeline_description,
            final(passnode).render_targets == old(passnode).render_targets,
            final(passnode).depth_target == old(passnode).depth_target,
            final(passnode).inputs == old(passnode).inputs,
            final(passnode).outputs == old(passnode).outputs,
            final(passnode).tagged_resources == old(passnode).tagged_resources,
            final(passnode).viewport == old(passnode).viewport,
            final(passnode).scissor == old(passnode).scissor,
            final(passnode).fill_callback == old(passnode).fill_callback,
            final(passnode).name == old(passnode).name,
    {
        passnode.framebuffer = Some(framebuffer);
    }

    /// The framebuffer of the pass, which must have been set.
    pub fn get_framebuffer(&self) -> (framebuffer: &B)
        requires
            self.framebuffer is Some,
        ensures
            Some(*framebuffer) == self.framebuffer,
    {
        match &self.framebuffer {
            Some(fb) => fb,
            None => vstd::pervasive::unreached(),
        }
    }

    pub fn get_inputs(&self) -> (inputs: &[ResourceBinding])
        ensures
            inputs@ == self.inputs@,
    {
        self.inputs.as_slice()
    }

    pub fn get_outputs(&self) -> (outputs: &[ResourceBinding])
        ensures
            outputs@ == self.outputs@,
    {
        self.outputs.as_slice()
    }

    pub fn get_rendertargets(&self) -> (render_targets: &[AttachmentReference])
        ensures
            render_targets@ == self.render_targets@,
    {
        self.render_targets.as_slice()
    }

    /// The inputs, to be changed in place; the rest of the pass stays.
    pub fn get_inputs_mut(&mut self) -> (inputs: &mut Vec<ResourceBinding>)
        ensures
            *inputs == old(self).inputs,
            *final(self) == (GraphicsPassNode { inputs: *final(inputs), ..*old(self) }),
    {
        &mut self.inputs
    }

    /// The outputs, to be changed in place; the rest of the pass stays.
    pub fn get_outputs_mut(&mut self) -> (outputs: &mut Vec<ResourceBinding>)
        ensures
            *outputs == old(self).outputs,
            *final(self) == (GraphicsPassNode { outputs: *final(outputs), ..*old(self) }),
    {
        &mut self.outputs
    }

    /// The render targets, to be changed in place; the rest of the pass
    /// stays.
    pub fn get_rendertargets_mut(&mut self) -> (render_targets: &mut Vec<AttachmentReference>)
        ensures
            *render_targets == old(self).render_targets,
            *final(self) == (GraphicsPassNode { render_targets: *final(render_targets), ..*old(self) }),
    {
        &mut self.render_targets
    }

    /// The depth target, to be changed in place; the rest of the pass
    /// stays.
    pub fn get_depth_mut(&mut self) -> (depth_target: &mut Option<AttachmentReference>)
        ensures
            *depth_target == old(self).depth_target,
            *final(self) == (GraphicsPassNode { depth_target: *final(depth_target), ..*old(self) }),
    {
        &mut self.depth_target
    }
}

impl<F, P, V> PassNodeBuilder<F, P, V> {
    pub fn pipeline_description(self, pipeline_description: P) -> (builder: Self)
        ensures
            builder == (PassNodeBuilder { pipeline_description: Some(pipeline_description), ..self }),
    {
        PassNodeBuilder { pipeline_description: Some(pipeline_description), ..self }
    }

    /// Keeps a resource alive as long as the pass, without binding it.
    pub fn tag(self, tagged_resource: u64) -> (builder: Self)
        ensures
            builder == (PassNodeBuilder {
                tagged_resources: builder.tagged_resources,
                ..self
            }),
            builder.tagged_resources@ == self.tagged_resources@.push(tagged_resource),
    {
        let mut this = self;
        this.tagged_resources.push(tagged_resource);
        this
    }

    /// Adds a bound input.
    pub fn read(self, input: ResourceBinding) -> (builder: Self)
        ensures
            builder == (PassNodeBuilder { inputs: builder.inputs, ..self }),
            builder.inputs@ == self.inputs@.push(input),
    {
        let mut this = self;
        this.inputs.push(input);
        this
    }

    /// Adds a bound output.
    pub fn write(self, output: ResourceBinding) -> (builder: Self)
        ensures
            builder == (PassNodeBuilder { outputs: builder.outputs, ..self }),
            builder.outputs@ == self.outputs@.push(output),
    {
        let mut this = self;
        this.outputs.push(output);
        this
    }

    /// Adds a color attachment.
    pub fn render_target(self, render_target: AttachmentReference) -> (builder: Self)
        ensures
            builder == (PassNodeBuilder { render_targets: builder.render_targets, ..self }),
            builder.render_targets@ == self.render_targets@.push(render_target),
    {
        let mut this = self;
        this.render_targets.push(render_target);
        this
    }

    /// Sets (or replaces) the depth attachment.
    pub fn depth_target(self, depth_target: AttachmentReference) -> (builder: Self)
        ensures
            builder == (PassNodeBuilder { depth_target: Some(depth_target), ..self }),
    {
        PassNodeBuilder { depth_target: Some(depth_target), ..self }
    }

    pub fn fill_commands(self, fill_callback: F) -> (builder: Self)
        ensures
            builder == (PassNodeBuilder { fill_callback: Some(fill_callback), ..self }),
    {
        PassNodeBuilder { fill_callback: Some(fill_callback), ..self }
    }

    pub fn viewport(self, viewport: V) -> (builder: Self)
        ensures
            builder == (PassNodeBuilder { viewport: Some(viewport), ..self }),
    {
        PassNodeBuilder { viewport: Some(viewport), ..self }
    }

    pub fn scissor(self, scissor: Rect2D) -> (builder: Self)
        ensures
            builder == (PassNodeBuilder { scissor: Some(scissor), ..self }),
    {
        PassNodeBuilder { scissor: Some(scissor), ..self }
    }

    /// The pass, without a framebuffer yet. A fill callback must have been
    /// set; with one, building always succeeds.
    pub fn build<B>(self) -> (result: Result<GraphicsPassNode<F, P, V, B>, &'static str>)
        requires
            self.fill_callback is Some,
        ensures
            result matches Ok(node) && node == (GraphicsPassNode {
                pipeline_description: self.pipeline_description,
                render_targets: self.render_targets,
                depth_target: self.depth_target,
                inputs: self.inputs,
                outputs: self.outputs,
                tagged_resources: self.tagged_resources,
                framebuffer: None::<B>,
                viewport: self.viewport,
                scissor: self.scissor,
                fill_callback: self.fill_callback->Some_0,
                name: self.name,
            }),
    {
        match self.fill_callback {
            Some(fill_callback) => Ok(
                GraphicsPassNode {
                    pipeline_description: self.pipeline_description,
                    render_targets: self.render_targets,
                    depth_target: self.depth_target,
                    inputs: self.inputs,
                    outputs: self.outputs,
                    tagged_resources: self.tagged_resources,
                    framebuffer: None,
                    viewport: self.viewport,
                    scissor: self.scissor,
                    fill_callback,
                    name: self.name,
                },
            ),
            None => Err("PassNodeBuilder was incomplete before building"),
        }
    }
}

} // verus!
