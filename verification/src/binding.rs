//! How a pass binds a resource into its descriptor sets.

use vstd::prelude::*;

verus! {

/// An image bound in the given layout.
#[derive(Clone, Copy, Debug, PartialEq, Eq, Structural)]
pub struct ImageBindingInfo {
    pub layout: i32,
}

/// A range of a buffer.
#[derive(Clone, Copy, Debug, PartialEq, Eq, Structural)]
pub struct BufferBindingInfo {
    pub offset: u64,
    pub range: u64,
}

#[derive(Clone, Copy, Debug, PartialEq, Eq, Structural)]
pub enum BindingType {
    Buffer(BufferBindingInfo),
    Image(ImageBindingInfo),
}

/// Where and how a resource is bound: descriptor set and slot, and the
/// pipeline stage and access with which the pass uses it.
#[derive(Clone, Copy, Debug, PartialEq, Eq, Structural)]
pub struct BindingInfo {
    pub binding_type: BindingType,
    pub set: u64,
    pub slot: u32,
    pub stage: u32,
    pub access: u32,
}

/// A resource, by handle, with its binding.
#[derive(Clone, Copy, Debug, PartialEq, Eq, Structural)]
pub struct ResourceBinding {
    pub resource: u64,
    pub binding_info: BindingInfo,
}

} // verus!
