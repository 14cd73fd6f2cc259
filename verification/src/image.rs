//! Uploading a decoded image as a sampled texture: the format it gets, how
//! it is created, and the barriers around the copy into it.

use vstd::prelude::*;
use crate::barrier_translation::ImageMemoryBarrier;
use crate::context::resource_manager::ImageCreateInfo;
use crate::vk;

verus! {

/// The pixel layout of a decoded image.
#[derive(Clone, Copy, Debug, PartialEq, Eq, Structural)]
pub enum ImageKind {
    Rgb16,
    Rgba16,
    Rgb32F,
    Rgba32F,
    Rgb8,
    Rgba8,
    Other,
}

/// The texture format of a decoded image, and whether its pixels must
/// first be widened to RGBA8. Eight-bit images are sRGB unless they hold
/// linear data.
pub open spec fn spec_texture_format(kind: ImageKind, is_linear: bool) -> (i32, bool) {
    match kind {
        ImageKind::Rgb16 => (vk::FORMAT_R16G16B16_SFLOAT, false),
        ImageKind::Rgba16 => (vk::FORMAT_R16G16B16A16_SFLOAT, false),
        ImageKind::Rgb32F => (vk::FORMAT_R32G32B32_SFLOAT, false),
        ImageKind::Rgba32F => (vk::FORMAT_R32G32B32A32_SFLOAT, false),
        ImageKind::Rgb8 => (if is_linear { vk::FORMAT_R8G8B8A8_UNORM } else { vk::FORMAT_R8G8B8A8_SRGB }, true),
        _ => (if is_linear { vk::FORMAT_R8G8B8A8_UNORM } else { vk::FORMAT_R8G8B8A8_SRGB }, false),
    }
}

/// Images of other layouts are not supported.
pub fn texture_format(kind: ImageKind, is_linear: bool) -> (format: (i32, bool))
    requires
        kind != ImageKind::Other,
    ensures
        format == spec_texture_format(kind, is_linear),
{
    let srgb_or_linear = if is_linear { vk::FORMAT_R8G8B8A8_UNORM } else { vk::FORMAT_R8G8B8A8_SRGB };
    match kind {
        ImageKind::Rgb16 => (vk::FORMAT_R16G16B16_SFLOAT, false),
        ImageKind::Rgba16 => (vk::FORMAT_R16G16B16A16_SFLOAT, false),
        ImageKind::Rgb32F => (vk::FORMAT_R32G32B32_SFLOAT, false),
        ImageKind::Rgba32F => (vk::FORMAT_R32G32B32A32_SFLOAT, false),
        ImageKind::Rgb8 => (srgb_or_linear, true),
        ImageKind::Rgba8 => (srgb_or_linear, false),
        ImageKind::Other => vstd::pervasive::unreached(),
    }
}

/// The first `n` RGB8 pixels of `rgb` as RGBA8 pixels, fully opaque.
pub open spec fn rgba_pixels(rgb: Seq<u8>, n: nat) -> Seq<u8>
    decreases n,
{
    if n == 0 {
        Seq::empty()
    } else {
        let p = (n - 1) as nat;
        rgba_pixels(rgb, p) + seq![rgb[3 * p as int], rgb[3 * p as int + 1], rgb[3 * p as int + 2], 255u8]
    }
}

/// RGB8 pixels widened to RGBA8: each whole pixel of `rgb` keeps its three
/// channels and gains an opaque alpha.
pub fn widen_to_rgba(rgb: &Vec<u8>) -> (rgba: Vec<u8>)
    ensures
        rgba@ == rgba_pixels(rgb@, rgb@.len() / 3),
        rgba@.len() == 4 * (rgb@.len() / 3),
{
    let mut rgba: Vec<u8> = Vec::new();
    let mut i: usize = 0;
    let ghost mut p: nat = 0;
    while rgb.len() - i >= 3
        invariant
            i == 3 * p,
            i <= rgb.len(),
            rgba@ == rgba_pixels(rgb@, p),
            rgba@.len() == 4 * p,
        decreases rgb.len() - i,
    {
        rgba.push(rgb[i]);
        rgba.push(rgb[i + 1]);
        rgba.push(rgb[i + 2]);
        rgba.push(255u8);
        proof {
            assert(rgba@ =~= rgba_pixels(rgb@, p) + seq![rgb@[3 * p as int], rgb@[3 * p as int + 1], rgb@[3 * p as int + 2], 255u8]);
            p = p + 1;
        }
        i = i + 3;
    }
    assert(p == rgb@.len() / 3);
    rgba
}

/// A two-dimensional texture of one mip level and layer, copied into and
/// then sampled.
pub fn texture_create_info(format: i32, width: u32, height: u32) -> (info: ImageCreateInfo)
    ensures
        info == (ImageCreateInfo {
            format,
            width,
            height,
            depth: 1,
            usage: vk::IMAGE_USAGE_TRANSFER_DST | vk::IMAGE_USAGE_SAMPLED,
        }),
{
    ImageCreateInfo { format, width, height, depth: 1, usage: vk::IMAGE_USAGE_TRANSFER_DST | vk::IMAGE_USAGE_SAMPLED }
}

/// A barrier on the color aspect of the first level and layer of `image`.
pub open spec fn color_barrier(image: u64, queue_family: u32, src_access: u32, dst_access: u32, old_layout: i32, new_layout: i32) -> ImageMemoryBarrier {
    ImageMemoryBarrier {
        resource: image,
        src_access,
        dst_access,
        old_layout,
        new_layout,
        src_queue_family: queue_family,
        dst_queue_family: queue_family,
        aspect_mask: vk::ASPECT_COLOR,
        base_mip_level: 0,
        level_count: 1,
        base_array_layer: 0,
        layer_count: 1,
    }
}

/// The two pipeline barriers around a buffer-to-image copy: from the top
/// of the pipe into a transfer destination, then from the transfer to
/// shader reads from the vertex stage on. Each is a source stage, a
/// destination stage and a barrier.
pub struct UploadBarriers {
    pub before_copy: (u32, u32, ImageMemoryBarrier),
    pub after_copy: (u32, u32, ImageMemoryBarrier),
}

pub fn upload_barriers(image: u64, queue_family: u32) -> (barriers: UploadBarriers)
    ensures
        barriers.before_copy == (vk::STAGE_TOP_OF_PIPE, vk::STAGE_TRANSFER, color_barrier(image, queue_family,
            vk::ACCESS_NONE, vk::ACCESS_TRANSFER_WRITE, vk::LAYOUT_UNDEFINED, vk::LAYOUT_TRANSFER_DST_OPTIMAL)),
        barriers.after_copy == (vk::STAGE_TRANSFER, vk::STAGE_VERTEX_SHADER, color_barrier(image, queue_family,
            vk::ACCESS_TRANSFER_WRITE, vk::ACCESS_SHADER_READ, vk::LAYOUT_TRANSFER_DST_OPTIMAL, vk::LAYOUT_SHADER_READ_ONLY_OPTIMAL)),
{
    let pre = ImageMemoryBarrier {
        resource: image,
        src_access: vk::ACCESS_NONE,
        dst_access: vk::ACCESS_TRANSFER_WRITE,
        old_layout: vk::LAYOUT_UNDEFINED,
        new_layout: vk::LAYOUT_TRANSFER_DST_OPTIMAL,
        src_queue_family: queue_family,
        dst_queue_family: queue_family,
        aspect_mask: vk::ASPECT_COLOR,
        base_mip_level: 0,
        level_count: 1,
        base_array_layer: 0,
        layer_count: 1,
    };
    let post = ImageMemoryBarrier {
        src_access: vk::ACCESS_TRANSFER_WRITE,
        dst_access: vk::ACCESS_SHADER_READ,
        old_layout: vk::LAYOUT_TRANSFER_DST_OPTIMAL,
        new_layout: vk::LAYOUT_SHADER_READ_ONLY_OPTIMAL,
        ..pre
    };
    UploadBarriers {
        before_copy: (vk::STAGE_TOP_OF_PIPE, vk::STAGE_TRANSFER, pre),
        after_copy: (vk::STAGE_TRANSFER, vk::STAGE_VERTEX_SHADER, post),
    }
}


/// The queue family index that leaves ownership where it is.
pub const QUEUE_FAMILY_IGNORED: u32 = 0xffff_ffffu32;

/// The barrier that hands a swapchain image, last written by a transfer,
/// to presentation; it runs from the transfer stage to the bottom of the
/// pipe.
pub fn present_transition(image: u64) -> (barrier: (u32, u32, ImageMemoryBarrier))
    ensures
        barrier == (vk::STAGE_TRANSFER, vk::STAGE_BOTTOM_OF_PIPE, color_barrier(image, QUEUE_FAMILY_IGNORED,
            vk::ACCESS_TRANSFER_WRITE, vk::ACCESS_NONE, vk::LAYOUT_TRANSFER_DST_OPTIMAL, vk::LAYOUT_PRESENT_SRC)),
{
    (vk::STAGE_TRANSFER, vk::STAGE_BOTTOM_OF_PIPE, ImageMemoryBarrier {
        resource: image,
        src_access: vk::ACCESS_TRANSFER_WRITE,
        dst_access: vk::ACCESS_NONE,
        old_layout: vk::LAYOUT_TRANSFER_DST_OPTIMAL,
        new_layout: vk::LAYOUT_PRESENT_SRC,
        src_queue_family: QUEUE_FAMILY_IGNORED,
        dst_queue_family: QUEUE_FAMILY_IGNORED,
        aspect_mask: vk::ASPECT_COLOR,
        base_mip_level: 0,
        level_count: 1,
        base_array_layer: 0,
        layer_count: 1,
    })
}

/// Frames recorded while earlier ones may still be executing.
pub const MAX_FRAMES_IN_FLIGHT: usize = 2usize;

/// The frame slot after `current`, wrapping around.
pub fn next_frame_in_flight(current: usize) -> (next: usize)
    requires
        current < MAX_FRAMES_IN_FLIGHT,
    ensures
        next == (current + 1) % (MAX_FRAMES_IN_FLIGHT as int),
        next < MAX_FRAMES_IN_FLIGHT,
{
    (current + 1) % MAX_FRAMES_IN_FLIGHT
}

/// Eight-bit color images (RGB or RGBA) are sampled as sRGB unless they
/// hold linear data, which is sampled as UNORM; RGB ones are widened to
/// RGBA first and RGBA ones are not. Floating-point images keep their
/// channel count and are never widened.
pub proof fn law_eight_bit_textures_are_srgb_unless_linear(kind: ImageKind, is_linear: bool)
    ensures
        kind == ImageKind::Rgb8 || kind == ImageKind::Rgba8 ==> {
            &&& !is_linear ==> spec_texture_format(kind, is_linear).0 == vk::FORMAT_R8G8B8A8_SRGB
            &&& is_linear ==> spec_texture_format(kind, is_linear).0 == vk::FORMAT_R8G8B8A8_UNORM
            &&& spec_texture_format(kind, is_linear).1 == (kind == ImageKind::Rgb8)
        },
        kind == ImageKind::Rgb16 ==> spec_texture_format(kind, is_linear) == (vk::FORMAT_R16G16B16_SFLOAT, false),
        kind == ImageKind::Rgba16 ==> spec_texture_format(kind, is_linear) == (vk::FORMAT_R16G16B16A16_SFLOAT, false),
        kind == ImageKind::Rgb32F ==> spec_texture_format(kind, is_linear) == (vk::FORMAT_R32G32B32_SFLOAT, false),
        kind == ImageKind::Rgba32F ==> spec_texture_format(kind, is_linear) == (vk::FORMAT_R32G32B32A32_SFLOAT, false),
{
}

} // verus!
