//! The Vulkan enumerant and flag values that the frame graph reasons about,
//! as the plain integers that the Vulkan specification assigns to them.

use vstd::prelude::*;

verus! {

// VkAccessFlagBits
pub const ACCESS_NONE: u32 = 0u32;
pub const ACCESS_INDEX_READ: u32 = 0x2u32;
pub const ACCESS_VERTEX_ATTRIBUTE_READ: u32 = 0x4u32;
pub const ACCESS_UNIFORM_READ: u32 = 0x8u32;
pub const ACCESS_SHADER_READ: u32 = 0x20u32;
pub const ACCESS_SHADER_WRITE: u32 = 0x40u32;
pub const ACCESS_COLOR_ATTACHMENT_READ: u32 = 0x80u32;
pub const ACCESS_COLOR_ATTACHMENT_WRITE: u32 = 0x100u32;
pub const ACCESS_DEPTH_STENCIL_ATTACHMENT_READ: u32 = 0x200u32;
pub const ACCESS_DEPTH_STENCIL_ATTACHMENT_WRITE: u32 = 0x400u32;
pub const ACCESS_TRANSFER_READ: u32 = 0x800u32;
pub const ACCESS_TRANSFER_WRITE: u32 = 0x1000u32;
pub const ACCESS_HOST_WRITE: u32 = 0x4000u32;
pub const ACCESS_MEMORY_WRITE: u32 = 0x10000u32;

// VkPipelineStageFlagBits
pub const STAGE_NONE: u32 = 0u32;
pub const STAGE_TOP_OF_PIPE: u32 = 0x1u32;
pub const STAGE_VERTEX_INPUT: u32 = 0x4u32;
pub const STAGE_VERTEX_SHADER: u32 = 0x8u32;
pub const STAGE_FRAGMENT_SHADER: u32 = 0x80u32;
pub const STAGE_EARLY_FRAGMENT_TESTS: u32 = 0x100u32;
pub const STAGE_COLOR_ATTACHMENT_OUTPUT: u32 = 0x400u32;
pub const STAGE_COMPUTE_SHADER: u32 = 0x800u32;
pub const STAGE_TRANSFER: u32 = 0x1000u32;
pub const STAGE_BOTTOM_OF_PIPE: u32 = 0x2000u32;
pub const STAGE_HOST: u32 = 0x4000u32;
pub const STAGE_ALL_GRAPHICS: u32 = 0x8000u32;
pub const STAGE_ALL_COMMANDS: u32 = 0x10000u32;

// VkImageLayout
pub const LAYOUT_UNDEFINED: i32 = 0i32;
pub const LAYOUT_GENERAL: i32 = 1i32;
pub const LAYOUT_COLOR_ATTACHMENT_OPTIMAL: i32 = 2i32;
pub const LAYOUT_DEPTH_STENCIL_ATTACHMENT_OPTIMAL: i32 = 3i32;
pub const LAYOUT_SHADER_READ_ONLY_OPTIMAL: i32 = 5i32;
pub const LAYOUT_TRANSFER_SRC_OPTIMAL: i32 = 6i32;
pub const LAYOUT_TRANSFER_DST_OPTIMAL: i32 = 7i32;
pub const LAYOUT_PRESENT_SRC: i32 = 1000001002i32;

// VkFormat
pub const FORMAT_UNDEFINED: i32 = 0i32;
pub const FORMAT_R8G8B8A8_UNORM: i32 = 37i32;
pub const FORMAT_R8G8B8A8_SRGB: i32 = 43i32;
pub const FORMAT_D16_UNORM: i32 = 124i32;
pub const FORMAT_D32_SFLOAT: i32 = 126i32;
pub const FORMAT_S8_UINT: i32 = 127i32;
pub const FORMAT_D16_UNORM_S8_UINT: i32 = 128i32;
pub const FORMAT_D24_UNORM_S8_UINT: i32 = 129i32;
pub const FORMAT_D32_SFLOAT_S8_UINT: i32 = 130i32;
pub const FORMAT_R32G32_SFLOAT: i32 = 103i32;
pub const FORMAT_R16G16B16_SFLOAT: i32 = 90i32;
pub const FORMAT_R16G16B16A16_SFLOAT: i32 = 97i32;
pub const FORMAT_R32G32B32_SFLOAT: i32 = 106i32;
pub const FORMAT_R32G32B32A32_SFLOAT: i32 = 109i32;

// VkImageUsageFlagBits
pub const IMAGE_USAGE_TRANSFER_DST: u32 = 0x2u32;
pub const IMAGE_USAGE_SAMPLED: u32 = 0x4u32;
pub const IMAGE_USAGE_COLOR_ATTACHMENT: u32 = 0x10u32;

// VkImageAspectFlagBits
pub const ASPECT_COLOR: u32 = 0x1u32;
pub const ASPECT_DEPTH: u32 = 0x2u32;
pub const ASPECT_STENCIL: u32 = 0x4u32;

// VkAttachmentLoadOp / VkAttachmentStoreOp
pub const LOAD_OP_LOAD: i32 = 0i32;
pub const LOAD_OP_DONT_CARE: i32 = 2i32;
pub const STORE_OP_STORE: i32 = 0i32;

// VkDescriptorType
pub const DESCRIPTOR_COMBINED_IMAGE_SAMPLER: i32 = 1i32;
pub const DESCRIPTOR_STORAGE_IMAGE: i32 = 3i32;
pub const DESCRIPTOR_UNIFORM_BUFFER: i32 = 6i32;

// VkShaderStageFlagBits
pub const SHADER_STAGE_VERTEX: u32 = 0x1u32;
pub const SHADER_STAGE_FRAGMENT: u32 = 0x10u32;
pub const SHADER_STAGE_COMPUTE: u32 = 0x20u32;

// VkQueueFlagBits
pub const QUEUE_GRAPHICS: u32 = 0x1u32;
pub const QUEUE_COMPUTE: u32 = 0x2u32;

// VkColorSpaceKHR / VkPresentModeKHR
pub const COLOR_SPACE_SRGB_NONLINEAR: i32 = 0i32;
pub const PRESENT_MODE_IMMEDIATE: i32 = 0i32;
pub const PRESENT_MODE_FIFO: i32 = 2i32;

// VkCompareOp / VkBlendFactor / VkBlendOp / VkColorComponentFlags
pub const COMPARE_OP_LESS_OR_EQUAL: i32 = 3i32;
pub const BLEND_FACTOR_ZERO: i32 = 0i32;
pub const BLEND_FACTOR_ONE: i32 = 1i32;
pub const BLEND_FACTOR_SRC_ALPHA: i32 = 6i32;
pub const BLEND_FACTOR_ONE_MINUS_SRC_ALPHA: i32 = 7i32;
pub const BLEND_OP_ADD: i32 = 0i32;
pub const COLOR_COMPONENT_RGBA: u32 = 0xfu32;

// VK_WHOLE_SIZE: a buffer range to the end of the buffer
pub const WHOLE_SIZE: u64 = 0xffff_ffff_ffff_ffffu64;

// VkDynamicState / VkVertexInputRate
pub const DYNAMIC_STATE_VIEWPORT: i32 = 0i32;
pub const DYNAMIC_STATE_SCISSOR: i32 = 1i32;
pub const VERTEX_INPUT_RATE_VERTEX: i32 = 0i32;

// VkLogicOp / VkStencilOp / VkCompareOp
pub const LOGIC_OP_CLEAR: i32 = 0i32;
pub const LOGIC_OP_NO_OP: i32 = 5i32;
pub const LOGIC_OP_COPY: i32 = 3i32;
pub const STENCIL_OP_KEEP: i32 = 0i32;
pub const COMPARE_OP_ALWAYS: i32 = 7i32;

// VkCullModeFlagBits / VkFrontFace / VkPolygonMode
pub const CULL_MODE_NONE: u32 = 0u32;
pub const CULL_MODE_BACK: u32 = 0x2u32;
pub const FRONT_FACE_CLOCKWISE: i32 = 1i32;
pub const POLYGON_MODE_FILL: i32 = 0i32;

} // verus!
