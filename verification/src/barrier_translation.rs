//! Turning the barriers that linking produced into what one pipeline-barrier
//! command needs: the union of the stages, and one memory barrier per
//! resource with its subresource range and queue family.

use vstd::prelude::*;
use crate::barrier::{ImageBarrier, BufferBarrier};
use crate::linker::NodeBarriers;
use crate::resource::{ResourceMap, ResourceType};
use crate::util::{aspect_mask_of, get_aspect_mask_from_format};
use crate::vk;

verus! {

broadcast use vstd::std_specs::hash::group_hash_axioms;

/// An image memory barrier over the first mip level and array layer of the
/// image, for all of its aspects.
#[derive(Clone, Copy, Debug, PartialEq, Eq, Structural)]
pub struct ImageMemoryBarrier {
    pub resource: u64,
    pub src_access: u32,
    pub dst_access: u32,
    pub old_layout: i32,
    pub new_layout: i32,
    pub src_queue_family: u32,
    pub dst_queue_family: u32,
    pub aspect_mask: u32,
    pub base_mip_level: u32,
    pub level_count: u32,
    pub base_array_layer: u32,
    pub layer_count: u32,
}

/// A buffer memory barrier over a range of the buffer.
#[derive(Clone, Copy, Debug, PartialEq, Eq, Structural)]
pub struct BufferMemoryBarrier {
    pub resource: u64,
    pub src_access: u32,
    pub dst_access: u32,
    pub offset: u64,
    pub size: u64,
    pub src_queue_family: u32,
    pub dst_queue_family: u32,
}

/// Everything one pipeline-barrier command takes.
pub struct BarrierTranslation {
    pub source_stage: u32,
    pub dest_stage: u32,
    pub image_barriers: Vec<ImageMemoryBarrier>,
    pub buffer_barriers: Vec<BufferMemoryBarrier>,
}

/// The union of `acc` and all the stage masks in `stages`.
pub open spec fn stage_union(acc: u32, stages: Seq<u32>) -> u32
    decreases stages.len(),
{
    if stages.len() == 0 {
        acc
    } else {
        stage_union(acc, stages.drop_last()) | stages.last()
    }
}

pub open spec fn image_source_stages(bs: Seq<ImageBarrier>) -> Seq<u32> {
    bs.map_values(|b: ImageBarrier| b.source_stage)
}

pub open spec fn image_dest_stages(bs: Seq<ImageBarrier>) -> Seq<u32> {
    bs.map_values(|b: ImageBarrier| b.dest_stage)
}

pub open spec fn buffer_source_stages(bs: Seq<BufferBarrier>) -> Seq<u32> {
    bs.map_values(|b: BufferBarrier| b.source_stage)
}

pub open spec fn buffer_dest_stages(bs: Seq<BufferBarrier>) -> Seq<u32> {
    bs.map_values(|b: BufferBarrier| b.dest_stage)
}

/// Every resource of an image barrier is an image of a defined format, and
/// every resource of a buffer barrier is a buffer.
pub open spec fn barriers_resolved(
    images: Seq<ImageBarrier>,
    buffers: Seq<BufferBarrier>,
    resources: Map<u64, ResourceType>,
) -> bool {
    &&& forall|i: int| 0 <= i < images.len() ==> {
        let h = #[trigger] images[i].resource;
        &&& resources.contains_key(h)
        &&& resources[h] is Image
        &&& resources[h]->Image_0.format != vk::FORMAT_UNDEFINED
    }
    &&& forall|i: int| 0 <= i < buffers.len() ==> {
        let h = #[trigger] buffers[i].resource;
        &&& resources.contains_key(h)
        &&& resources[h] is Buffer
    }
}

pub open spec fn translate_image_barrier(b: ImageBarrier, format: i32, queue_family: u32) -> ImageMemoryBarrier {
    ImageMemoryBarrier {
        resource: b.resource,
        src_access: b.source_access,
        dst_access: b.dest_access,
        old_layout: b.old_layout,
        new_layout: b.new_layout,
        src_queue_family: queue_family,
        dst_queue_family: queue_family,
        aspect_mask: aspect_mask_of(format),
        base_mip_level: 0,
        level_count: 1,
        base_array_layer: 0,
        layer_count: 1,
    }
}

pub open spec fn translate_buffer_barrier(b: BufferBarrier, queue_family: u32) -> BufferMemoryBarrier {
    BufferMemoryBarrier {
        resource: b.resource,
        src_access: b.source_access,
        dst_access: b.dest_access,
        offset: b.offset as u64,
        size: b.size as u64,
        src_queue_family: queue_family,
        dst_queue_family: queue_family,
    }
}

proof fn lemma_stage_union_push(acc: u32, stages: Seq<u32>, s: u32)
    ensures
        stage_union(acc, stages.push(s)) == stage_union(acc, stages) | s,
{
    assert(stages.push(s).drop_last() == stages);
}

/// The union of stage masks covers its starting value and every mask in it.
pub proof fn lemma_stage_union_covers(acc: u32, stages: Seq<u32>)
    ensures
        stage_union(acc, stages) & acc == acc,
        forall|i: int| 0 <= i < stages.len() ==> #[trigger] (stage_union(acc, stages) & stages[i]) == stages[i],
    decreases stages.len(),
{
    if stages.len() > 0 {
        let rest = stages.drop_last();
        lemma_stage_union_covers(acc, rest);
        let u = stage_union(acc, rest);
        let l = stages.last();
        assert(((u | l) & l) == l) by (bit_vector);
        assert(u & acc == acc ==> ((u | l) & acc) == acc) by (bit_vector);
        assert forall|i: int| 0 <= i < stages.len() implies #[trigger] (stage_union(acc, stages) & stages[i]) == stages[i] by {
            if i < stages.len() - 1 {
                let x = stages[i];
                assert(rest[i] == x);
                assert(u & x == x ==> ((u | l) & x) == x) by (bit_vector);
            }
        }
    } else {
        assert(acc & acc == acc) by (bit_vector);
    }
}

/// The stage masks and memory barriers of one pipeline barrier: the source
/// (destination) stage is the union of the source (destination) stages of
/// all image barriers, then all buffer barriers; each barrier becomes a
/// memory barrier on the given queue family, an image barrier with the
/// aspects of its image's format.
pub fn translate_barriers(barriers: &NodeBarriers, resources: &ResourceMap, queue_family: u32) -> (translation: BarrierTranslation)
    requires
        barriers_resolved(barriers.image_barriers@, barriers.buffer_barriers@, resources@),
    ensures
        translation.source_stage == stage_union(
            stage_union(vk::STAGE_NONE, image_source_stages(barriers.image_barriers@)),
            buffer_source_stages(barriers.buffer_barriers@)),
        translation.dest_stage == stage_union(
            stage_union(vk::STAGE_NONE, image_dest_stages(barriers.image_barriers@)),
            buffer_dest_stages(barriers.buffer_barriers@)),
        translation.image_barriers@.len() == barriers.image_barriers@.len(),
        forall|i: int| 0 <= i < barriers.image_barriers@.len() ==> #[trigger] translation.image_barriers@[i]
            == translate_image_barrier(
                barriers.image_barriers@[i],
                resources@[barriers.image_barriers@[i].resource]->Image_0.format,
                queue_family),
        translation.buffer_barriers@.len() == barriers.buffer_barriers@.len(),
        forall|i: int| 0 <= i < barriers.buffer_barriers@.len() ==> #[trigger] translation.buffer_barriers@[i]
            == translate_buffer_barrier(barriers.buffer_barriers@[i], queue_family),
{
    let images = &barriers.image_barriers;
    let buffers = &barriers.buffer_barriers;
    let mut source_stage = vk::STAGE_NONE;
    let mut dest_stage = vk::STAGE_NONE;
    let mut i: usize = 0;
    while i < images.len()
        invariant
            0 <= i <= images.len(),
            source_stage == stage_union(vk::STAGE_NONE, image_source_stages(images@.take(i as int))),
            dest_stage == stage_union(vk::STAGE_NONE, image_dest_stages(images@.take(i as int))),
        decreases images.len() - i,
    {
        proof {
            let next = images@.take(i + 1);
            assert(next == images@.take(i as int).push(images@[i as int]));
            assert(image_source_stages(next) == image_source_stages(images@.take(i as int)).push(images@[i as int].source_stage));
            assert(image_dest_stages(next) == image_dest_stages(images@.take(i as int)).push(images@[i as int].dest_stage));
            lemma_stage_union_push(vk::STAGE_NONE, image_source_stages(images@.take(i as int)), images@[i as int].source_stage);
            lemma_stage_union_push(vk::STAGE_NONE, image_dest_stages(images@.take(i as int)), images@[i as int].dest_stage);
        }
        source_stage = source_stage | images[i].source_stage;
        dest_stage = dest_stage | images[i].dest_stage;
        i = i + 1;
    }
    proof {
        assert(images@.take(images.len() as int) == images@);
    }
    let ghost image_source = source_stage;
    let ghost image_dest = dest_stage;
    let mut i: usize = 0;
    while i < buffers.len()
        invariant
            0 <= i <= buffers.len(),
            source_stage == stage_union(image_source, buffer_source_stages(buffers@.take(i as int))),
            dest_stage == stage_union(image_dest, buffer_dest_stages(buffers@.take(i as int))),
        decreases buffers.len() - i,
    {
        proof {
            let next = buffers@.take(i + 1);
            assert(next == buffers@.take(i as int).push(buffers@[i as int]));
            assert(buffer_source_stages(next) == buffer_source_stages(buffers@.take(i as int)).push(buffers@[i as int].source_stage));
            assert(buffer_dest_stages(next) == buffer_dest_stages(buffers@.take(i as int)).push(buffers@[i as int].dest_stage));
            lemma_stage_union_push(image_source, buffer_source_stages(buffers@.take(i as int)), buffers@[i as int].source_stage);
            lemma_stage_union_push(image_dest, buffer_dest_stages(buffers@.take(i as int)), buffers@[i as int].dest_stage);
        }
        source_stage = source_stage | buffers[i].source_stage;
        dest_stage = dest_stage | buffers[i].dest_stage;
        i = i + 1;
    }
    proof {
        assert(buffers@.take(buffers.len() as int) == buffers@);
    }

    let mut buffer_barriers: Vec<BufferMemoryBarrier> = Vec::new();
    let mut i: usize = 0;
    while i < buffers.len()
        invariant
            0 <= i <= buffers.len(),
            buffer_barriers@.len() == i,
            forall|j: int| 0 <= j < i ==> #[trigger] buffer_barriers@[j] == translate_buffer_barrier(buffers@[j], queue_family),
        decreases buffers.len() - i,
    {
        let bb = buffers[i];
        buffer_barriers.push(BufferMemoryBarrier {
            resource: bb.resource,
            src_access: bb.source_access,
            dst_access: bb.dest_access,
            offset: bb.offset as u64,
            size: bb.size as u64,
            src_queue_family: queue_family,
            dst_queue_family: queue_family,
        });
        i = i + 1;
    }

    let mut image_barriers: Vec<ImageMemoryBarrier> = Vec::new();
    let mut i: usize = 0;
    while i < images.len()
        invariant
            0 <= i <= images.len(),
            barriers_resolved(images@, buffers@, resources@),
            image_barriers@.len() == i,
            forall|j: int| 0 <= j < i ==> #[trigger] image_barriers@[j] == translate_image_barrier(
                images@[j], resources@[images@[j].resource]->Image_0.format, queue_family),
        decreases images.len() - i,
    {
        let ib = images[i];
        let format = match resources.get(&ib.resource) {
            Some(ResourceType::Image(image)) => image.format,
            _ => vstd::pervasive::unreached(),
        };
        let aspect_mask = get_aspect_mask_from_format(format);
        image_barriers.push(ImageMemoryBarrier {
            resource: ib.resource,
            src_access: ib.source_access,
            dst_access: ib.dest_access,
            old_layout: ib.old_layout,
            new_layout: ib.new_layout,
            src_queue_family: queue_family,
            dst_queue_family: queue_family,
            aspect_mask,
            base_mip_level: 0,
            level_count: 1,
            base_array_layer: 0,
            layer_count: 1,
        });
        i = i + 1;
    }

    BarrierTranslation { source_stage, dest_stage, image_barriers, buffer_barriers }
}


/// The stages of one pipeline barrier cover the stages of every barrier it
/// carries: each source (destination) stage of an image or buffer barrier
/// is part of the translated source (destination) stage.
pub proof fn law_translated_stages_cover_barriers(images: Seq<ImageBarrier>, buffers: Seq<BufferBarrier>)
    ensures
        forall|i: int| 0 <= i < images.len() ==> (#[trigger] stage_union(
            stage_union(vk::STAGE_NONE, image_source_stages(images)), buffer_source_stages(buffers))
            & images[i].source_stage) == images[i].source_stage,
        forall|i: int| 0 <= i < images.len() ==> (#[trigger] stage_union(
            stage_union(vk::STAGE_NONE, image_dest_stages(images)), buffer_dest_stages(buffers))
            & images[i].dest_stage) == images[i].dest_stage,
        forall|i: int| 0 <= i < buffers.len() ==> (#[trigger] stage_union(
            stage_union(vk::STAGE_NONE, image_source_stages(images)), buffer_source_stages(buffers))
            & buffers[i].source_stage) == buffers[i].source_stage,
        forall|i: int| 0 <= i < buffers.len() ==> (#[trigger] stage_union(
            stage_union(vk::STAGE_NONE, image_dest_stages(images)), buffer_dest_stages(buffers))
            & buffers[i].dest_stage) == buffers[i].dest_stage,
{
    let is = stage_union(vk::STAGE_NONE, image_source_stages(images));
    let id = stage_union(vk::STAGE_NONE, image_dest_stages(images));
    lemma_stage_union_covers(vk::STAGE_NONE, image_source_stages(images));
    lemma_stage_union_covers(vk::STAGE_NONE, image_dest_stages(images));
    lemma_stage_union_covers(is, buffer_source_stages(buffers));
    lemma_stage_union_covers(id, buffer_dest_stages(buffers));
    let s = stage_union(is, buffer_source_stages(buffers));
    let d = stage_union(id, buffer_dest_stages(buffers));
    assert forall|i: int| 0 <= i < images.len() implies (#[trigger] stage_union(
        stage_union(vk::STAGE_NONE, image_source_stages(images)), buffer_source_stages(buffers))
        & images[i].source_stage) == images[i].source_stage by {
        let x = images[i].source_stage;
        assert(image_source_stages(images)[i] == x);
        assert(is & x == x);
        assert(s & is == is);
        assert((s & is == is && is & x == x) ==> s & x == x) by (bit_vector);
    }
    assert forall|i: int| 0 <= i < images.len() implies (#[trigger] stage_union(
        stage_union(vk::STAGE_NONE, image_dest_stages(images)), buffer_dest_stages(buffers))
        & images[i].dest_stage) == images[i].dest_stage by {
        let x = images[i].dest_stage;
        assert(image_dest_stages(images)[i] == x);
        assert(id & x == x);
        assert(d & id == id);
        assert((d & id == id && id & x == x) ==> d & x == x) by (bit_vector);
    }
    assert forall|i: int| 0 <= i < buffers.len() implies (#[trigger] stage_union(
        stage_union(vk::STAGE_NONE, image_source_stages(images)), buffer_source_stages(buffers))
        & buffers[i].source_stage) == buffers[i].source_stage by {
        assert(buffer_source_stages(buffers)[i] == buffers[i].source_stage);
    }
    assert forall|i: int| 0 <= i < buffers.len() implies (#[trigger] stage_union(
        stage_union(vk::STAGE_NONE, image_dest_stages(images)), buffer_dest_stages(buffers))
        & buffers[i].dest_stage) == buffers[i].dest_stage by {
        assert(buffer_dest_stages(buffers)[i] == buffers[i].dest_stage);
    }
}


/// Whether `translate_barriers` can take these barriers: every image
/// barrier is on an image of a defined format and every buffer barrier on
/// a buffer.
pub fn can_translate(barriers: &NodeBarriers, resources: &ResourceMap) -> (ok: bool)
    ensures
        ok == barriers_resolved(barriers.image_barriers@, barriers.buffer_barriers@, resources@),
{
    let mut i: usize = 0;
    while i < barriers.image_barriers.len()
        invariant
            0 <= i <= barriers.image_barriers.len(),
            forall|j: int| 0 <= j < i ==> {
                let h = #[trigger] barriers.image_barriers@[j].resource;
                &&& resources@.contains_key(h)
                &&& resources@[h] is Image
                &&& resources@[h]->Image_0.format != vk::FORMAT_UNDEFINED
            },
        decreases barriers.image_barriers.len() - i,
    {
        match resources.get(&barriers.image_barriers[i].resource) {
            Some(ResourceType::Image(image)) => {
                if image.format == vk::FORMAT_UNDEFINED {
                    proof {
                        let h = barriers.image_barriers@[i as int].resource;
                        assert(resources@[h]->Image_0.format == vk::FORMAT_UNDEFINED);
                    }
                    return false;
                }
            },
            _ => {
                proof {
                    let h = barriers.image_barriers@[i as int].resource;
                    assert(!(resources@.contains_key(h) && resources@[h] is Image));
                }
                return false;
            },
        }
        i = i + 1;
    }
    let mut i: usize = 0;
    while i < barriers.buffer_barriers.len()
        invariant
            0 <= i <= barriers.buffer_barriers.len(),
            forall|j: int| 0 <= j < barriers.image_barriers@.len() ==> {
                let h = #[trigger] barriers.image_barriers@[j].resource;
                &&& resources@.contains_key(h)
                &&& resources@[h] is Image
                &&& resources@[h]->Image_0.format != vk::FORMAT_UNDEFINED
            },
            forall|j: int| 0 <= j < i ==> {
                let h = #[trigger] barriers.buffer_barriers@[j].resource;
                &&& resources@.contains_key(h)
                &&& resources@[h] is Buffer
            },
        decreases barriers.buffer_barriers.len() - i,
    {
        match resources.get(&barriers.buffer_barriers[i].resource) {
            Some(ResourceType::Buffer(_)) => {},
            _ => {
                proof {
                    let h = barriers.buffer_barriers@[i as int].resource;
                    assert(!(resources@.contains_key(h) && resources@[h] is Buffer));
                }
                return false;
            },
        }
        i = i + 1;
    }
    true
}


/// A global memory barrier.
#[derive(Clone, Copy, Debug, PartialEq, Eq, Structural)]
pub struct MemoryBarrier {
    pub src_access: u32,
    pub dst_access: u32,
}

/// The barrier recorded before a frame's passes, with its source and
/// destination stages: what the host wrote becomes visible to the vertex
/// input and vertex shader stages, as uniforms, indices and vertex
/// attributes.
pub fn host_write_barrier() -> (barrier: (u32, u32, MemoryBarrier))
    ensures
        barrier == (vk::STAGE_HOST, vk::STAGE_VERTEX_INPUT | vk::STAGE_VERTEX_SHADER, MemoryBarrier {
            src_access: vk::ACCESS_HOST_WRITE,
            dst_access: vk::ACCESS_UNIFORM_READ | vk::ACCESS_INDEX_READ | vk::ACCESS_VERTEX_ATTRIBUTE_READ,
        }),
{
    (vk::STAGE_HOST, vk::STAGE_VERTEX_INPUT | vk::STAGE_VERTEX_SHADER, MemoryBarrier {
        src_access: vk::ACCESS_HOST_WRITE,
        dst_access: vk::ACCESS_UNIFORM_READ | vk::ACCESS_INDEX_READ | vk::ACCESS_VERTEX_ATTRIBUTE_READ,
    })
}

} // verus!
