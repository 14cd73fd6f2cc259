//! Descriptor writes: for each resource a pass binds, what is written into
//! which slot of which descriptor set.

use vstd::prelude::*;
use crate::binding::{BindingType, BufferBindingInfo, ImageBindingInfo, ResourceBinding};
use crate::resource::{BufferInfo, ImageInfo, ResourceMap, ResourceType};
use crate::vk;

verus! {

broadcast use vstd::std_specs::hash::group_hash_axioms;

/// The image part of a descriptor write: the image (whose view is bound),
/// the layout it is bound in, and whether its sampler is bound with it.
#[derive(Clone, Copy, Debug, PartialEq, Eq, Structural)]
pub struct DescriptorImageInfo {
    pub image: u64,
    pub image_layout: i32,
    pub with_sampler: bool,
}

/// The buffer part of a descriptor write: a range of a buffer.
#[derive(Clone, Copy, Debug, PartialEq, Eq, Structural)]
pub struct DescriptorBufferInfo {
    pub buffer: u64,
    pub offset: u64,
    pub range: u64,
}

#[derive(Clone, Copy, Debug, PartialEq, Eq, Structural)]
pub struct DescriptorImageUpdate {
    pub image_info: DescriptorImageInfo,
    pub descriptor_type: i32,
    pub binding_set: u64,
    pub binding_slot: u32,
}

#[derive(Clone, Copy, Debug, PartialEq, Eq, Structural)]
pub struct DescriptorBufferUpdate {
    pub buffer_info: DescriptorBufferInfo,
    pub descriptor_type: i32,
    pub binding_set: u64,
    pub binding_slot: u32,
}

/// The descriptor writes of a pass, images and buffers apart.
pub struct DescriptorUpdate {
    pub image_infos: Vec<DescriptorImageUpdate>,
    pub buffer_infos: Vec<DescriptorBufferUpdate>,
}

#[derive(Clone, Copy, Debug, PartialEq, Eq, Structural)]
pub enum DescriptorPayload {
    Image(DescriptorImageInfo),
    Buffer(DescriptorBufferInfo),
}

/// One descriptor write: one element written at `dst_binding` of `dst_set`.
#[derive(Clone, Copy, Debug, PartialEq, Eq, Structural)]
pub struct WriteDescriptorSet {
    pub dst_set: u64,
    pub dst_binding: u32,
    pub dst_array_element: u32,
    pub descriptor_type: i32,
    pub payload: DescriptorPayload,
}

pub open spec fn image_write(u: DescriptorImageUpdate) -> WriteDescriptorSet {
    WriteDescriptorSet {
        dst_set: u.binding_set,
        dst_binding: u.binding_slot,
        dst_array_element: 0,
        descriptor_type: u.descriptor_type,
        payload: DescriptorPayload::Image(u.image_info),
    }
}

pub open spec fn buffer_write(u: DescriptorBufferUpdate) -> WriteDescriptorSet {
    WriteDescriptorSet {
        dst_set: u.binding_set,
        dst_binding: u.binding_slot,
        dst_array_element: 0,
        descriptor_type: u.descriptor_type,
        payload: DescriptorPayload::Buffer(u.buffer_info),
    }
}

impl DescriptorUpdate {
    pub fn new() -> (update: DescriptorUpdate)
        ensures
            update.image_infos@.len() == 0,
            update.buffer_infos@.len() == 0,
    {
        DescriptorUpdate { image_infos: Vec::new(), buffer_infos: Vec::new() }
    }

    /// One write per update: all image writes, in order, then all buffer
    /// writes, each at array element 0.
    pub fn create_descriptor_writes(&self) -> (writes: Vec<WriteDescriptorSet>)
        ensures
            writes@ == self.image_infos@.map_values(|u: DescriptorImageUpdate| image_write(u))
                + self.buffer_infos@.map_values(|u: DescriptorBufferUpdate| buffer_write(u)),
    {
        let mut writes: Vec<WriteDescriptorSet> = Vec::new();
        let mut i: usize = 0;
        while i < self.image_infos.len()
            invariant
                0 <= i <= self.image_infos.len(),
                writes@ == self.image_infos@.take(i as int).map_values(|u: DescriptorImageUpdate| image_write(u)),
            decreases self.image_infos.len() - i,
        {
            let u = self.image_infos[i];
            writes.push(WriteDescriptorSet {
                dst_set: u.binding_set,
                dst_binding: u.binding_slot,
                dst_array_element: 0,
                descriptor_type: u.descriptor_type,
                payload: DescriptorPayload::Image(u.image_info),
            });
            proof {
                assert(self.image_infos@.take(i + 1) == self.image_infos@.take(i as int).push(u));
                assert(writes@ =~= self.image_infos@.take(i + 1).map_values(|u: DescriptorImageUpdate| image_write(u)));
            }
            i = i + 1;
        }
        proof {
            assert(self.image_infos@.take(self.image_infos.len() as int) == self.image_infos@);
        }
        let ghost image_writes = writes@;
        let mut i: usize = 0;
        while i < self.buffer_infos.len()
            invariant
                0 <= i <= self.buffer_infos.len(),
                writes@ == image_writes + self.buffer_infos@.take(i as int).map_values(|u: DescriptorBufferUpdate| buffer_write(u)),
            decreases self.buffer_infos.len() - i,
        {
            let u = self.buffer_infos[i];
            writes.push(WriteDescriptorSet {
                dst_set: u.binding_set,
                dst_binding: u.binding_slot,
                dst_array_element: 0,
                descriptor_type: u.descriptor_type,
                payload: DescriptorPayload::Buffer(u.buffer_info),
            });
            proof {
                assert(self.buffer_infos@.take(i + 1) == self.buffer_infos@.take(i as int).push(u));
                assert(writes@ =~= image_writes + self.buffer_infos@.take(i + 1).map_values(|u: DescriptorBufferUpdate| buffer_write(u)));
            }
            i = i + 1;
        }
        proof {
            assert(self.buffer_infos@.take(self.buffer_infos.len() as int) == self.buffer_infos@);
        }
        writes
    }
}

/// An image with a sampler is bound as a combined image sampler, one
/// without as a storage image.
pub open spec fn image_descriptor_type(image: ImageInfo) -> i32 {
    if image.has_sampler { vk::DESCRIPTOR_COMBINED_IMAGE_SAMPLER } else { vk::DESCRIPTOR_STORAGE_IMAGE }
}

pub fn get_descriptor_image_info(handle: u64, image: &ImageInfo, binding_info: &ImageBindingInfo) -> (result: (DescriptorImageInfo, i32))
    ensures
        result.0 == (DescriptorImageInfo { image: handle, image_layout: binding_info.layout, with_sampler: image.has_sampler }),
        result.1 == image_descriptor_type(*image),
{
    let descriptor_type = if image.has_sampler {
        vk::DESCRIPTOR_COMBINED_IMAGE_SAMPLER
    } else {
        vk::DESCRIPTOR_STORAGE_IMAGE
    };
    (DescriptorImageInfo { image: handle, image_layout: binding_info.layout, with_sampler: image.has_sampler }, descriptor_type)
}

/// A buffer is always bound as a uniform buffer.
pub fn get_descriptor_buffer_info(handle: u64, buffer: &BufferInfo, binding: &BufferBindingInfo) -> (result: (DescriptorBufferInfo, i32))
    ensures
        result.0 == (DescriptorBufferInfo { buffer: handle, offset: binding.offset, range: binding.range }),
        result.1 == vk::DESCRIPTOR_UNIFORM_BUFFER,
{
    (DescriptorBufferInfo { buffer: handle, offset: binding.offset, range: binding.range }, vk::DESCRIPTOR_UNIFORM_BUFFER)
}

/// Every binding names a resolved resource of the kind it binds, in a set
/// that exists.
pub open spec fn descriptors_resolvable(
    bindings: Seq<ResourceBinding>,
    resources: Map<u64, ResourceType>,
    set_count: nat,
) -> bool {
    forall|i: int| 0 <= i < bindings.len() ==> {
        let b = #[trigger] bindings[i];
        &&& resources.contains_key(b.resource)
        &&& b.binding_info.set < set_count
        &&& (resources[b.resource] is Image <==> b.binding_info.binding_type is Image)
    }
}

/// The image updates of the image bindings, in order.
pub open spec fn image_updates(
    bindings: Seq<ResourceBinding>,
    resources: Map<u64, ResourceType>,
    sets: Seq<u64>,
) -> Seq<DescriptorImageUpdate>
    decreases bindings.len(),
{
    if bindings.len() == 0 {
        Seq::empty()
    } else {
        let rest = image_updates(bindings.drop_last(), resources, sets);
        let b = bindings.last();
        match (resources[b.resource], b.binding_info.binding_type) {
            (ResourceType::Image(image), BindingType::Image(info)) => rest.push(DescriptorImageUpdate {
                image_info: DescriptorImageInfo { image: b.resource, image_layout: info.layout, with_sampler: image.has_sampler },
                descriptor_type: image_descriptor_type(image),
                binding_set: sets[b.binding_info.set as int],
                binding_slot: b.binding_info.slot,
            }),
            _ => rest,
        }
    }
}

/// The buffer updates of the buffer bindings, in order.
pub open spec fn buffer_updates(
    bindings: Seq<ResourceBinding>,
    resources: Map<u64, ResourceType>,
    sets: Seq<u64>,
) -> Seq<DescriptorBufferUpdate>
    decreases bindings.len(),
{
    if bindings.len() == 0 {
        Seq::empty()
    } else {
        let rest = buffer_updates(bindings.drop_last(), resources, sets);
        let b = bindings.last();
        match (resources[b.resource], b.binding_info.binding_type) {
            (ResourceType::Buffer(_), BindingType::Buffer(info)) => rest.push(DescriptorBufferUpdate {
                buffer_info: DescriptorBufferInfo { buffer: b.resource, offset: info.offset, range: info.range },
                descriptor_type: vk::DESCRIPTOR_UNIFORM_BUFFER,
                binding_set: sets[b.binding_info.set as int],
                binding_slot: b.binding_info.slot,
            }),
            _ => rest,
        }
    }
}

/// Appends the descriptor updates of `bindings`: each binding is written
/// into the descriptor set its binding names, at its slot.
pub fn resolve_descriptors(
    bindings: &Vec<ResourceBinding>,
    resources: &ResourceMap,
    descriptor_sets: &Vec<u64>,
    descriptor_updates: &mut DescriptorUpdate,
)
    requires
        descriptors_resolvable(bindings@, resources@, descriptor_sets@.len()),
    ensures
        final(descriptor_updates).image_infos@ == old(descriptor_updates).image_infos@
            + image_updates(bindings@, resources@, descriptor_sets@),
        final(descriptor_updates).buffer_infos@ == old(descriptor_updates).buffer_infos@
            + buffer_updates(bindings@, resources@, descriptor_sets@),
{
    let ghost images0 = descriptor_updates.image_infos@;
    let ghost buffers0 = descriptor_updates.buffer_infos@;
    let mut i: usize = 0;
    while i < bindings.len()
        invariant
            0 <= i <= bindings.len(),
            descriptors_resolvable(bindings@, resources@, descriptor_sets@.len()),
            descriptor_updates.image_infos@ == images0 + image_updates(bindings@.take(i as int), resources@, descriptor_sets@),
            descriptor_updates.buffer_infos@ == buffers0 + buffer_updates(bindings@.take(i as int), resources@, descriptor_sets@),
        decreases bindings.len() - i,
    {
        let binding = bindings[i];
        proof {
            assert(bindings@.take(i + 1).drop_last() == bindings@.take(i as int));
            assert(bindings@.take(i + 1).last() == binding);
            assert(bindings@[i as int] == binding);
        }
        let resolved = match resources.get(&binding.resource) {
            Some(r) => *r,
            None => vstd::pervasive::unreached(),
        };
        let set_count: usize = descriptor_sets.len();
        assert(binding.binding_info.set < set_count);
        let set_index = binding.binding_info.set as usize;
        assert(set_index as int == binding.binding_info.set as int);
        let descriptor_set = descriptor_sets[set_index];
        let ghost next = bindings@.take(i + 1);
        let ghost done = bindings@.take(i as int);
        match (resolved, binding.binding_info.binding_type) {
            (ResourceType::Image(resolved_image), BindingType::Image(image_binding)) => {
                let (image_info, descriptor_type) = get_descriptor_image_info(binding.resource, &resolved_image, &image_binding);
                descriptor_updates.image_infos.push(DescriptorImageUpdate {
                    image_info,
                    descriptor_type,
                    binding_set: descriptor_set,
                    binding_slot: binding.binding_info.slot,
                });
                proof {
                    assert(image_updates(next, resources@, descriptor_sets@) == image_updates(done, resources@, descriptor_sets@).push(
                        descriptor_updates.image_infos@.last()));
                    assert(buffer_updates(next, resources@, descriptor_sets@) == buffer_updates(done, resources@, descriptor_sets@));
                    assert(descriptor_updates.image_infos@ =~= images0 + image_updates(next, resources@, descriptor_sets@));
                }
            },
            (ResourceType::Buffer(resolved_buffer), BindingType::Buffer(buffer_binding)) => {
                let (buffer_info, descriptor_type) = get_descriptor_buffer_info(binding.resource, &resolved_buffer, &buffer_binding);
                descriptor_updates.buffer_infos.push(DescriptorBufferUpdate {
                    buffer_info,
                    descriptor_type,
                    binding_set: descriptor_set,
                    binding_slot: binding.binding_info.slot,
                });
                proof {
                    assert(buffer_updates(next, resources@, descriptor_sets@) == buffer_updates(done, resources@, descriptor_sets@).push(
                        descriptor_updates.buffer_infos@.last()));
                    assert(image_updates(next, resources@, descriptor_sets@) == image_updates(done, resources@, descriptor_sets@));
                    assert(descriptor_updates.buffer_infos@ =~= buffers0 + buffer_updates(next, resources@, descriptor_sets@));
                }
            },
            _ => {
                vstd::pervasive::unreached::<()>();
            },
        }
        i = i + 1;
    }
    proof {
        assert(bindings@.take(bindings.len() as int) == bindings@);
    }
}


/// Every binding that can be resolved yields exactly one descriptor update:
/// an image update for an image, a buffer update for a buffer.
pub proof fn law_one_update_per_binding(bindings: Seq<ResourceBinding>, resources: Map<u64, ResourceType>, sets: Seq<u64>)
    requires
        descriptors_resolvable(bindings, resources, sets.len()),
    ensures
        image_updates(bindings, resources, sets).len() + buffer_updates(bindings, resources, sets).len() == bindings.len(),
    decreases bindings.len(),
{
    if bindings.len() > 0 {
        let rest = bindings.drop_last();
        assert forall|i: int| 0 <= i < rest.len() implies {
            let b = #[trigger] rest[i];
            &&& resources.contains_key(b.resource)
            &&& b.binding_info.set < sets.len()
            &&& (resources[b.resource] is Image <==> b.binding_info.binding_type is Image)
        } by {
            assert(rest[i] == bindings[i]);
        }
        law_one_update_per_binding(rest, resources, sets);
        let b = bindings.last();
        assert(bindings[bindings.len() - 1] == b);
    }
}

} // verus!
