//! Render targets and depth targets of a graphics pass.

use vstd::prelude::*;
use crate::resource::{ResourceMap, ResourceType, is_image, image_of};
use crate::vk::LAYOUT_UNDEFINED;

verus! {

broadcast use vstd::std_specs::hash::group_hash_axioms;

/// An image used as an attachment, with the layout the render pass expects
/// it in when the pass begins.
#[derive(Clone, Copy, Debug, PartialEq, Eq, Structural)]
pub struct AttachmentReference {
    pub resource_image: u64,
    pub format: i32,
    pub samples: u32,
    pub layout: i32,
}

impl AttachmentReference {
    /// An attachment of the image `resource_image`, in its format, starting
    /// from an undefined layout. The handle must name a resolved image.
    pub fn new(resources: &ResourceMap, resource_image: u64, samples: u32) -> (attachment: AttachmentReference)
        requires
            is_image(resources@, resource_image),
        ensures
            attachment.resource_image == resource_image,
            attachment.format == image_of(resources@, resource_image).format,
            attachment.samples == samples,
            attachment.layout == LAYOUT_UNDEFINED,
    {
        let format = match resources.get(&resource_image) {
            Some(ResourceType::Image(image)) => image.format,
            _ => 0,
        };
        AttachmentReference { resource_image, format, samples, layout: LAYOUT_UNDEFINED }
    }
}

} // verus!
