//! Device resources as the frame graph sees them: a handle, and for images
//! the format, extent and the layout the image is currently in.

use vstd::prelude::*;
use std::collections::HashMap;

verus! {

/// What the frame graph knows of a device image.
#[derive(Clone, Copy, Debug, PartialEq, Eq, Structural)]
pub struct ImageInfo {
    pub format: i32,
    pub layout: i32,
    pub width: u32,
    pub height: u32,
    pub depth: u32,
    pub has_sampler: bool,
}

/// What the frame graph knows of a device buffer.
#[derive(Clone, Copy, Debug, PartialEq, Eq, Structural)]
pub struct BufferInfo {
    pub size: u64,
}

/// A resolved device resource.
#[derive(Clone, Copy, Debug, PartialEq, Eq, Structural)]
pub enum ResourceType {
    Buffer(BufferInfo),
    Image(ImageInfo),
}

/// The resolved resources of a frame, by handle. A handle that is absent
/// names a resource that was never resolved.
pub type ResourceMap = HashMap<u64, ResourceType>;

/// `handle` names a resolved image.
pub open spec fn is_image(resources: Map<u64, ResourceType>, handle: u64) -> bool {
    resources.contains_key(handle) && resources[handle] is Image
}

/// The image that `handle` names (meaningful when `is_image`).
pub open spec fn image_of(resources: Map<u64, ResourceType>, handle: u64) -> ImageInfo {
    resources[handle]->Image_0
}

} // verus!
