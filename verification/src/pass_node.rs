//! What every pass tells the graph: its name, and the handles of the
//! resources it reads and writes.

use vstd::prelude::*;
use crate::binding::ResourceBinding;
use crate::attachment::AttachmentReference;

verus! {

/// A pass of the frame graph.
pub trait PassNode {
    spec fn spec_name(&self) -> Seq<char>;

    spec fn spec_reads(&self) -> Seq<u64>;

    spec fn spec_writes(&self) -> Seq<u64>;

    fn get_name(&self) -> (name: &str)
        ensures
            name@ == self.spec_name();

    fn get_reads(&self) -> (reads: Vec<u64>)
        ensures
            reads@ == self.spec_reads();

    fn get_writes(&self) -> (writes: Vec<u64>)
        ensures
            writes@ == self.spec_writes();
}

/// The handles of the bound resources, in order.
pub open spec fn binding_handles(bindings: Seq<ResourceBinding>) -> Seq<u64> {
    bindings.map_values(|b: ResourceBinding| b.resource)
}

/// The handles of the attached images, in order.
pub open spec fn attachment_handles(attachments: Seq<AttachmentReference>) -> Seq<u64> {
    attachments.map_values(|a: AttachmentReference| a.resource_image)
}

/// The handle of the optional attachment, as a sequence of zero or one.
pub open spec fn optional_handle(attachment: Option<AttachmentReference>) -> Seq<u64> {
    match attachment {
        Some(a) => seq![a.resource_image],
        None => Seq::empty(),
    }
}

/// Appends the handles of `bindings` to `out`.
pub fn push_binding_handles(out: &mut Vec<u64>, bindings: &Vec<ResourceBinding>)
    ensures
        final(out)@ == old(out)@ + binding_handles(bindings@),
{
    let mut i: usize = 0;
    while i < bindings.len()
        invariant
            i <= bindings.len(),
            out@ == old(out)@ + binding_handles(bindings@.take(i as int)),
        decreases bindings.len() - i,
    {
        out.push(bindings[i].resource);
        assert(bindings@.take(i + 1) == bindings@.take(i as int).push(bindings@[i as int]));
        i = i + 1;
    }
    assert(bindings@.take(bindings.len() as int) == bindings@);
}

/// Appends the handles of `attachments` to `out`.
pub fn push_attachment_handles(out: &mut Vec<u64>, attachments: &Vec<AttachmentReference>)
    ensures
        final(out)@ == old(out)@ + attachment_handles(attachments@),
{
    let mut i: usize = 0;
    while i < attachments.len()
        invariant
            i <= attachments.len(),
            out@ == old(out)@ + attachment_handles(attachments@.take(i as int)),
        decreases attachments.len() - i,
    {
        out.push(attachments[i].resource_image);
        assert(attachments@.take(i + 1) == attachments@.take(i as int).push(attachments@[i as int]));
        i = i + 1;
    }
    assert(attachments@.take(attachments.len() as int) == attachments@);
}

/// Appends the handles of `handles` to `out`.
pub fn push_handles(out: &mut Vec<u64>, handles: &Vec<u64>)
    ensures
        final(out)@ == old(out)@ + handles@,
{
    let mut i: usize = 0;
    while i < handles.len()
        invariant
            i <= handles.len(),
            out@ == old(out)@ + handles@.take(i as int),
        decreases handles.len() - i,
    {
        out.push(handles[i]);
        assert(handles@.take(i + 1) == handles@.take(i as int).push(handles@[i as int]));
        i = i + 1;
    }
    assert(handles@.take(handles.len() as int) == handles@);
}

} // verus!
