//! Render passes for graphics passes: the attachment layout derived from a
//! pass's attachments, and a cache of created render passes by pass name.

use vstd::prelude::*;
use crate::attachment::AttachmentReference;
use crate::named_cache::NamedCache;
use crate::vk;

verus! {

/// Stencil load and store operations of an attachment.
#[derive(Clone, Copy, Debug, PartialEq, Eq, Structural)]
pub struct StencilAttachmentInfo {
    pub stencil_load_op: i32,
    pub stencil_store_op: i32,
}

pub struct AttachmentInfo {
    pub samples: u32,
    pub format: i32,
    pub layout: i32,
    pub load_op: i32,
    pub store_op: i32,
    pub stencil_attachment: Option<StencilAttachmentInfo>,
}

/// One attachment of a render pass.
#[derive(Clone, Copy, Debug, PartialEq, Eq, Structural)]
pub struct AttachmentDescription {
    pub format: i32,
    pub samples: u32,
    pub load_op: i32,
    pub store_op: i32,
    pub initial_layout: i32,
    pub final_layout: i32,
}

/// A reference from the subpass to an attachment.
#[derive(Clone, Copy, Debug, PartialEq, Eq, Structural)]
pub struct SubpassAttachment {
    pub attachment: u32,
    pub layout: i32,
}

/// The attachments of a single-subpass render pass and how its subpass
/// uses them.
pub struct RenderpassLayout {
    pub attachments: Vec<AttachmentDescription>,
    pub color_attachment_refs: Vec<SubpassAttachment>,
    pub depth_ref: Option<SubpassAttachment>,
}

/// An attachment is loaded unless its layout is undefined (then its
/// contents are not needed), always stored, and left in `final_layout`.
pub open spec fn describe_attachment(a: AttachmentReference, final_layout: i32) -> AttachmentDescription {
    AttachmentDescription {
        format: a.format,
        samples: a.samples,
        load_op: if a.layout == vk::LAYOUT_UNDEFINED { vk::LOAD_OP_DONT_CARE } else { vk::LOAD_OP_LOAD },
        store_op: vk::STORE_OP_STORE,
        initial_layout: a.layout,
        final_layout,
    }
}

fn attachment_description(a: AttachmentReference, final_layout: i32) -> (d: AttachmentDescription)
    ensures
        d == describe_attachment(a, final_layout),
{
    let mut load_op = vk::LOAD_OP_LOAD;
    if a.layout == vk::LAYOUT_UNDEFINED {
        load_op = vk::LOAD_OP_DONT_CARE;
    }
    AttachmentDescription {
        format: a.format,
        samples: a.samples,
        load_op,
        store_op: vk::STORE_OP_STORE,
        initial_layout: a.layout,
        final_layout,
    }
}

/// `layout` is the layout of a render pass over `color_attachments` and
/// `depth_attachment`: the depth attachment (if any) first, then the color
/// attachments in order, each referred to by its position.
pub open spec fn describes_renderpass(
    layout: RenderpassLayout,
    color_attachments: Seq<AttachmentReference>,
    depth_attachment: Option<AttachmentReference>,
) -> bool {
    let first = if depth_attachment is Some { 1int } else { 0int };
    &&& layout.attachments@.len() == first + color_attachments.len()
    &&& depth_attachment matches Some(d) ==> layout.attachments@[0] == describe_attachment(
        d, vk::LAYOUT_DEPTH_STENCIL_ATTACHMENT_OPTIMAL)
    &&& forall|j: int| 0 <= j < color_attachments.len() ==> layout.attachments@[first + j]
        == describe_attachment(#[trigger] color_attachments[j], vk::LAYOUT_COLOR_ATTACHMENT_OPTIMAL)
    &&& layout.depth_ref == (if depth_attachment is Some {
        Some(SubpassAttachment { attachment: 0, layout: vk::LAYOUT_DEPTH_STENCIL_ATTACHMENT_OPTIMAL })
    } else {
        None::<SubpassAttachment>
    })
    &&& layout.color_attachment_refs@.len() == color_attachments.len()
    &&& forall|j: int| 0 <= j < color_attachments.len() ==> #[trigger] layout.color_attachment_refs@[j]
        == SubpassAttachment { attachment: (first + j) as u32, layout: vk::LAYOUT_COLOR_ATTACHMENT_OPTIMAL }
}

/// The depth attachment (if any) comes first, so that a depth-only draw
/// works, then the color attachments in order; the subpass refers to each
/// by its position, in the depth or color attachment layout.
pub fn describe_renderpass(
    color_attachments: &[AttachmentReference],
    depth_attachment: &Option<AttachmentReference>,
) -> (layout: RenderpassLayout)
    requires
        color_attachments@.len() + 1 < u32::MAX,
    ensures
        describes_renderpass(layout, color_attachments@, *depth_attachment),
{
    let mut attachment_descs: Vec<AttachmentDescription> = Vec::new();
    let mut color_attachment_refs: Vec<SubpassAttachment> = Vec::new();
    let mut depth_ref: Option<SubpassAttachment> = None;
    let mut attachment_index: u32 = 0;
    match depth_attachment {
        Some(d) => {
            attachment_descs.push(attachment_description(*d, vk::LAYOUT_DEPTH_STENCIL_ATTACHMENT_OPTIMAL));
            depth_ref = Some(SubpassAttachment { attachment: attachment_index, layout: vk::LAYOUT_DEPTH_STENCIL_ATTACHMENT_OPTIMAL });
            attachment_index = attachment_index + 1;
        },
        None => {},
    }
    let ghost first: int = if depth_attachment is Some { 1int } else { 0int };
    let mut i: usize = 0;
    while i < color_attachments.len()
        invariant
            0 <= i <= color_attachments.len(),
            color_attachments@.len() + 1 < u32::MAX,
            first == (if depth_attachment is Some { 1int } else { 0int }),
            attachment_index == first + i,
            attachment_descs@.len() == first + i,
            color_attachment_refs@.len() == i,
            *depth_attachment matches Some(d) ==> attachment_descs@[0] == describe_attachment(
                d, vk::LAYOUT_DEPTH_STENCIL_ATTACHMENT_OPTIMAL),
            forall|j: int| 0 <= j < i ==> attachment_descs@[first + j]
                == describe_attachment(#[trigger] color_attachments@[j], vk::LAYOUT_COLOR_ATTACHMENT_OPTIMAL),
            forall|j: int| 0 <= j < i ==> #[trigger] color_attachment_refs@[j]
                == (SubpassAttachment { attachment: (first + j) as u32, layout: vk::LAYOUT_COLOR_ATTACHMENT_OPTIMAL }),
            depth_ref == (if depth_attachment is Some {
                Some(SubpassAttachment { attachment: 0, layout: vk::LAYOUT_DEPTH_STENCIL_ATTACHMENT_OPTIMAL })
            } else {
                None::<SubpassAttachment>
            }),
        decreases color_attachments.len() - i,
    {
        let color_attachment = color_attachments[i];
        attachment_descs.push(attachment_description(color_attachment, vk::LAYOUT_COLOR_ATTACHMENT_OPTIMAL));
        color_attachment_refs.push(SubpassAttachment { attachment: attachment_index, layout: vk::LAYOUT_COLOR_ATTACHMENT_OPTIMAL });
        attachment_index = attachment_index + 1;
        i = i + 1;
    }
    RenderpassLayout { attachments: attachment_descs, color_attachment_refs, depth_ref }
}

/// The render passes created so far, by the name of the pass that uses
/// them. `R` is the render pass object.
pub struct VulkanRenderpassManager<R> {
    pub renderpass_map: NamedCache<R>,
}

impl<R> VulkanRenderpassManager<R> {
    pub fn new() -> (manager: Self)
        ensures
            manager.renderpass_map.well_formed(),
            manager.renderpass_map.entries@.len() == 0,
    {
        VulkanRenderpassManager { renderpass_map: NamedCache::new() }
    }

    /// The cached render pass of `pass_name`, if one was created.
    pub fn fetch_renderpass(&self, pass_name: &str) -> (renderpass: Option<&R>)
        requires
            self.renderpass_map.well_formed(),
        ensures
            match renderpass {
                Some(r) => self.renderpass_map.has(pass_name@) && *r == self.renderpass_map.value_of(pass_name@),
                None => !self.renderpass_map.has(pass_name@),
            },
    {
        let key = pass_name.to_owned();
        self.renderpass_map.get(&key)
    }

    /// Caches the render pass created for `pass_name`.
    pub fn cache_renderpass(&mut self, pass_name: &str, renderpass: R)
        requires
            old(self).renderpass_map.well_formed(),
            !old(self).renderpass_map.has(pass_name@),
        ensures
            final(self).renderpass_map.well_formed(),
            final(self).renderpass_map.has(pass_name@),
            final(self).renderpass_map.value_of(pass_name@) == renderpass,
            forall|n: Seq<char>| n != pass_name@ ==> (final(self).renderpass_map.has(n) == old(self).renderpass_map.has(n)),
    {
        self.renderpass_map.insert(pass_name.to_owned(), renderpass);
    }
}


/// The dependency of the subpass on what follows the render pass.
#[derive(Clone, Copy, Debug, PartialEq, Eq, Structural)]
pub struct SubpassDependency {
    pub src_subpass: u32,
    pub dst_subpass: u32,
    pub src_access_mask: u32,
    pub dst_access_mask: u32,
    pub src_stage_mask: u32,
    pub dst_stage_mask: u32,
}

/// The index that names the outside of a render pass.
pub const SUBPASS_EXTERNAL: u32 = 0xffff_ffffu32;

/// What a render pass not yet cached is created from.
pub struct RenderpassPlan {
    pub layout: RenderpassLayout,
    pub dependency: SubpassDependency,
}

/// A cached render pass, or what to create one from.
pub enum RenderpassRequest<'a, R> {
    Cached(&'a R),
    Create(RenderpassPlan),
}

/// The single subpass's writes are made visible to whatever follows.
pub open spec fn external_dependency() -> SubpassDependency {
    SubpassDependency {
        src_subpass: 0,
        dst_subpass: SUBPASS_EXTERNAL,
        src_access_mask: vk::ACCESS_NONE,
        dst_access_mask: vk::ACCESS_MEMORY_WRITE,
        src_stage_mask: vk::STAGE_TOP_OF_PIPE,
        dst_stage_mask: vk::STAGE_COLOR_ATTACHMENT_OUTPUT,
    }
}

impl<R> VulkanRenderpassManager<R> {
    /// The render pass of `pass_name`: the cached one, or else the layout
    /// (see `describe_renderpass`) and subpass dependency to create it
    /// from; the caller then caches what it created.
    pub fn create_or_fetch_renderpass(
        &self,
        pass_name: &str,
        color_attachments: &[AttachmentReference],
        depth_attachment: &Option<AttachmentReference>,
    ) -> (request: RenderpassRequest<'_, R>)
        requires
            self.renderpass_map.well_formed(),
            color_attachments@.len() + 1 < u32::MAX,
        ensures
            match request {
                RenderpassRequest::Cached(r) => self.renderpass_map.has(pass_name@) && *r == self.renderpass_map.value_of(pass_name@),
                RenderpassRequest::Create(plan) => !self.renderpass_map.has(pass_name@)
                    && plan.dependency == external_dependency()
                    && describes_renderpass(plan.layout, color_attachments@, *depth_attachment),
            },
    {
        match self.fetch_renderpass(pass_name) {
            Some(r) => RenderpassRequest::Cached(r),
            None => {
                let layout = describe_renderpass(color_attachments, depth_attachment);
                let dependency = SubpassDependency {
                    src_subpass: 0,
                    dst_subpass: SUBPASS_EXTERNAL,
                    src_access_mask: vk::ACCESS_NONE,
                    dst_access_mask: vk::ACCESS_MEMORY_WRITE,
                    src_stage_mask: vk::STAGE_TOP_OF_PIPE,
                    dst_stage_mask: vk::STAGE_COLOR_ATTACHMENT_OUTPUT,
                };
                RenderpassRequest::Create(RenderpassPlan { layout, dependency })
            },
        }
    }
}

/// An attachment as a pass declares it: format and the layouts it enters
/// and leaves the pass in.
#[derive(Clone, Copy, Debug, PartialEq, Eq, Structural)]
pub struct NodeAttachmentDescription {
    pub format: i32,
    pub initial_layout: i32,
    pub final_layout: i32,
}

impl NodeAttachmentDescription {
    pub fn new(format: i32, initial_layout: i32, final_layout: i32) -> (description: NodeAttachmentDescription)
        ensures
            description == (NodeAttachmentDescription { format, initial_layout, final_layout }),
    {
        NodeAttachmentDescription { format, initial_layout, final_layout }
    }
}

/// The attachments a pass declares.
pub struct RenderpassContract {
    pub attachments: Vec<NodeAttachmentDescription>,
}

impl RenderpassContract {
    pub fn new(attachments: Vec<NodeAttachmentDescription>) -> (contract: RenderpassContract)
        ensures
            contract.attachments@ == attachments@,
    {
        RenderpassContract { attachments }
    }
}


/// A pass that declares the attachments it works with.
pub trait NodeContract {
    fn get_contract(&self) -> &RenderpassContract;
}

/// A render pass keeps what was drawn before: each attachment (color or
/// depth) that is in a defined layout is loaded, and only one in the
/// undefined layout, whose contents nobody needs, is not; every attachment
/// is stored, starts in the layout it is in, and the subpass uses color
/// attachments in the color layout and the depth attachment in the depth
/// layout.
pub proof fn law_renderpass_keeps_defined_contents(
    layout: RenderpassLayout,
    color_attachments: Seq<AttachmentReference>,
    depth_attachment: Option<AttachmentReference>,
)
    requires
        describes_renderpass(layout, color_attachments, depth_attachment),
    ensures
        forall|j: int| #![trigger color_attachments[j]] 0 <= j < color_attachments.len() ==> {
            let first = if depth_attachment is Some { 1int } else { 0int };
            let a = layout.attachments@[first + j];
            &&& (color_attachments[j].layout != vk::LAYOUT_UNDEFINED ==> a.load_op == vk::LOAD_OP_LOAD)
            &&& (color_attachments[j].layout == vk::LAYOUT_UNDEFINED ==> a.load_op == vk::LOAD_OP_DONT_CARE)
            &&& a.store_op == vk::STORE_OP_STORE
            &&& a.initial_layout == color_attachments[j].layout
            &&& a.format == color_attachments[j].format
            &&& a.final_layout == vk::LAYOUT_COLOR_ATTACHMENT_OPTIMAL
        },
        depth_attachment matches Some(d) ==> {
            let a = layout.attachments@[0];
            &&& (d.layout != vk::LAYOUT_UNDEFINED ==> a.load_op == vk::LOAD_OP_LOAD)
            &&& (d.layout == vk::LAYOUT_UNDEFINED ==> a.load_op == vk::LOAD_OP_DONT_CARE)
            &&& a.store_op == vk::STORE_OP_STORE
            &&& a.initial_layout == d.layout
            &&& a.final_layout == vk::LAYOUT_DEPTH_STENCIL_ATTACHMENT_OPTIMAL
        },
{
    let first = if depth_attachment is Some { 1int } else { 0int };
    assert(layout.color_attachment_refs@.len() == color_attachments.len());
    assert forall|j: int| 0 <= j < color_attachments.len() implies
        layout.attachments@[first + j] == describe_attachment(#[trigger] color_attachments[j], vk::LAYOUT_COLOR_ATTACHMENT_OPTIMAL) by {
    }
    assert forall|j: int| 0 <= j < color_attachments.len() implies
        (#[trigger] color_attachments[j]).layout != vk::LAYOUT_UNDEFINED ==> layout.attachments@[first + j].load_op == vk::LOAD_OP_LOAD by {
    }
    assert forall|j: int| 0 <= j < color_attachments.len() implies
        layout.attachments@[first + j].format == (#[trigger] color_attachments[j]).format by {
    }
}

} // verus!
