//! Resource handles: transient resources, known by how they will be
//! created, and persistent resources, created and bound to memory up front.

use vstd::prelude::*;
use std::collections::HashMap;

verus! {

broadcast use vstd::std_specs::hash::group_hash_axioms;

/// A resource by handle. Handles of both kinds come from one counter, so
/// no number is used twice.
#[derive(Clone, Copy, Hash)]
pub enum ResourceHandle {
    Transient(u32),
    Persistent(u32),
}

impl PartialEq for ResourceHandle {
    fn eq(&self, other: &Self) -> (equal: bool) {
        match (self, other) {
            (ResourceHandle::Transient(x), ResourceHandle::Transient(y)) => *x == *y,
            (ResourceHandle::Persistent(x), ResourceHandle::Persistent(y)) => *x == *y,
            _ => false,
        }
    }
}

impl vstd::std_specs::cmp::PartialEqSpecImpl for ResourceHandle {
    open spec fn obeys_eq_spec() -> bool {
        true
    }

    open spec fn eq_spec(&self, other: &Self) -> bool {
        match (*self, *other) {
            (ResourceHandle::Transient(x), ResourceHandle::Transient(y)) => x == y,
            (ResourceHandle::Persistent(x), ResourceHandle::Persistent(y)) => x == y,
            _ => false,
        }
    }
}

impl Eq for ResourceHandle {}

/// How a buffer is to be created.
#[derive(Clone, Copy, Debug, PartialEq, Eq, Structural)]
pub struct BufferCreateInfo {
    pub size: u64,
    pub usage: u32,
    pub sharing_mode: i32,
}

/// How an image is to be created.
#[derive(Clone, Copy, Debug, PartialEq, Eq, Structural)]
pub struct ImageCreateInfo {
    pub format: i32,
    pub width: u32,
    pub height: u32,
    pub depth: u32,
    pub usage: u32,
}

#[derive(Clone, Copy, Debug, PartialEq, Eq, Structural)]
pub enum ResourceCreateInfo {
    Buffer(BufferCreateInfo),
    Image(ImageCreateInfo),
}

/// A device resource by its handle.
#[derive(Clone, Copy, Debug, PartialEq, Eq, Structural)]
pub enum ResourceType {
    Buffer(u64),
    Image(u64),
}

#[derive(Clone, Copy)]
pub struct TransientResource {
    pub handle: ResourceHandle,
    pub create_info: ResourceCreateInfo,
}

/// A persistent resource with its memory. `A` is the allocation.
pub struct PersistentResource<A> {
    pub handle: ResourceHandle,
    pub resource: ResourceType,
    pub allocation: A,
}

#[derive(Clone, Copy)]
pub struct ResolvedResource {
    pub handle: ResourceHandle,
    pub resource: ResourceType,
}

/// The resources created so far, by handle number, and the next number.
pub struct ResourceManager<A> {
    pub next_handle: u32,
    pub transient_resource_map: HashMap<u32, TransientResource>,
    pub persistent_resource_map: HashMap<u32, PersistentResource<A>>,
}

impl<A> ResourceManager<A> {
    /// Every number in use is below the next one.
    pub open spec fn well_formed(&self) -> bool {
        &&& forall|n: u32| #[trigger] self.transient_resource_map@.contains_key(n) ==> n < self.next_handle
        &&& forall|n: u32| #[trigger] self.persistent_resource_map@.contains_key(n) ==> n < self.next_handle
    }

    pub fn new() -> (manager: Self)
        ensures
            manager.well_formed(),
            manager.next_handle == 0,
            manager.transient_resource_map@ == Map::<u32, TransientResource>::empty(),
            manager.persistent_resource_map@ == Map::<u32, PersistentResource<A>>::empty(),
    {
        ResourceManager { next_handle: 0, transient_resource_map: HashMap::new(), persistent_resource_map: HashMap::new() }
    }

    /// A new transient buffer, to be created as `create_info` says.
    pub fn create_buffer_transient(&mut self, create_info: &BufferCreateInfo) -> (handle: ResourceHandle)
        requires
            old(self).well_formed(),
            old(self).next_handle < u32::MAX,
        ensures
            final(self).well_formed(),
            handle == ResourceHandle::Transient(old(self).next_handle),
            final(self).next_handle == old(self).next_handle + 1,
            !old(self).transient_resource_map@.contains_key(old(self).next_handle),
            final(self).transient_resource_map@ == old(self).transient_resource_map@.insert(
                old(self).next_handle,
                TransientResource { handle, create_info: ResourceCreateInfo::Buffer(*create_info) }),
            final(self).persistent_resource_map@ == old(self).persistent_resource_map@,
    {
        let number = self.next_handle;
        let ret_handle = ResourceHandle::Transient(number);
        self.next_handle = self.next_handle + 1;
        self.transient_resource_map.insert(number, TransientResource {
            handle: ret_handle,
            create_info: ResourceCreateInfo::Buffer(*create_info),
        });
        ret_handle
    }

    /// Registers a persistent resource that has been created and bound to
    /// `allocation`, under a new handle.
    pub fn create_buffer_persistent(&mut self, resource: ResourceType, allocation: A) -> (handle: ResourceHandle)
        requires
            old(self).well_formed(),
            old(self).next_handle < u32::MAX,
        ensures
            final(self).well_formed(),
            handle == ResourceHandle::Persistent(old(self).next_handle),
            final(self).next_handle == old(self).next_handle + 1,
            !old(self).persistent_resource_map@.contains_key(old(self).next_handle),
            final(self).persistent_resource_map@ == old(self).persistent_resource_map@.insert(
                old(self).next_handle,
                PersistentResource { handle, resource, allocation }),
            final(self).transient_resource_map@ == old(self).transient_resource_map@,
    {
        let number = self.next_handle;
        let ret_handle = ResourceHandle::Persistent(number);
        self.next_handle = self.next_handle + 1;
        self.persistent_resource_map.insert(number, PersistentResource { handle: ret_handle, resource, allocation });
        ret_handle
    }

    /// The device resource behind a persistent handle. Transient resources
    /// are not resolved here.
    pub fn resolve_resource(&self, handle: &ResourceHandle) -> (resolved: ResolvedResource)
        requires
            *handle matches ResourceHandle::Persistent(n) && self.persistent_resource_map@.contains_key(n),
        ensures
            resolved.handle == *handle,
            resolved.resource == self.persistent_resource_map@[handle->Persistent_0].resource,
    {
        match handle {
            ResourceHandle::Transient(_) => vstd::pervasive::unreached(),
            ResourceHandle::Persistent(n) => {
                let found = match self.persistent_resource_map.get(n) {
                    Some(r) => r,
                    None => vstd::pervasive::unreached(),
                };
                ResolvedResource { handle: *handle, resource: found.resource }
            },
        }
    }

    /// The memory of a persistent buffer, which is where its contents are
    /// written. Transient buffers cannot be updated.
    pub fn buffer_allocation(&self, buffer: &ResourceHandle) -> (allocation: &A)
        requires
            *buffer matches ResourceHandle::Persistent(n) && self.persistent_resource_map@.contains_key(n),
        ensures
            *allocation == self.persistent_resource_map@[buffer->Persistent_0].allocation,
    {
        match buffer {
            ResourceHandle::Transient(_) => vstd::pervasive::unreached(),
            ResourceHandle::Persistent(n) => match self.persistent_resource_map.get(n) {
                Some(r) => &r.allocation,
                None => vstd::pervasive::unreached(),
            },
        }
    }
}

} // verus!
