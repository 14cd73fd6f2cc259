//! Small helpers shared by the renderer: image aspects by format.

use vstd::prelude::*;
use crate::vk;

verus! {

pub fn add(left: usize, right: usize) -> (sum: usize)
    requires
        left + right <= usize::MAX,
    ensures
        sum == left + right,
{
    left + right
}

/// The aspects of an image of the given format: depth for depth formats,
/// stencil for stencil formats, both for combined formats, color otherwise.
pub open spec fn aspect_mask_of(format: i32) -> u32 {
    if format == vk::FORMAT_D16_UNORM || format == vk::FORMAT_D32_SFLOAT {
        vk::ASPECT_DEPTH
    } else if format == vk::FORMAT_D16_UNORM_S8_UINT || format == vk::FORMAT_D24_UNORM_S8_UINT
        || format == vk::FORMAT_D32_SFLOAT_S8_UINT {
        vk::ASPECT_DEPTH | vk::ASPECT_STENCIL
    } else if format == vk::FORMAT_S8_UINT {
        vk::ASPECT_STENCIL
    } else {
        vk::ASPECT_COLOR
    }
}

/// The aspect mask for views and barriers of an image of `format`. An
/// undefined format has no aspects to speak of and is not accepted.
pub fn get_aspect_mask_from_format(format: i32) -> (mask: u32)
    requires
        format != vk::FORMAT_UNDEFINED,
    ensures
        mask == aspect_mask_of(format),
{
    if format == vk::FORMAT_D16_UNORM || format == vk::FORMAT_D32_SFLOAT {
        vk::ASPECT_DEPTH
    } else if format == vk::FORMAT_D16_UNORM_S8_UINT || format == vk::FORMAT_D24_UNORM_S8_UINT
        || format == vk::FORMAT_D32_SFLOAT_S8_UINT {
        vk::ASPECT_DEPTH | vk::ASPECT_STENCIL
    } else if format == vk::FORMAT_S8_UINT {
        vk::ASPECT_STENCIL
    } else {
        vk::ASPECT_COLOR
    }
}

/// Depth formats have the depth aspect (and no color aspect), combined
/// depth-stencil formats also have the stencil aspect, the stencil-only
/// format has only the stencil aspect, and every other format is a color
/// format with only the color aspect.
pub proof fn law_aspects_follow_format(format: i32)
    ensures
        format == vk::FORMAT_D16_UNORM || format == vk::FORMAT_D32_SFLOAT ==> aspect_mask_of(format) == vk::ASPECT_DEPTH,
        format == vk::FORMAT_D16_UNORM_S8_UINT || format == vk::FORMAT_D24_UNORM_S8_UINT
            || format == vk::FORMAT_D32_SFLOAT_S8_UINT ==> aspect_mask_of(format) == vk::ASPECT_DEPTH | vk::ASPECT_STENCIL,
        format == vk::FORMAT_S8_UINT ==> aspect_mask_of(format) == vk::ASPECT_STENCIL,
        format != vk::FORMAT_D16_UNORM && format != vk::FORMAT_D32_SFLOAT && format != vk::FORMAT_D16_UNORM_S8_UINT
            && format != vk::FORMAT_D24_UNORM_S8_UINT && format != vk::FORMAT_D32_SFLOAT_S8_UINT
            && format != vk::FORMAT_S8_UINT ==> aspect_mask_of(format) == vk::ASPECT_COLOR,
{
}

} // verus!
