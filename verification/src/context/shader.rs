//! Descriptor types as shader reflection names them, and as Vulkan does.

use vstd::prelude::*;

verus! {

/// A descriptor type as reported by SPIR-V reflection.
#[derive(Clone, Copy, Debug, PartialEq, Eq, Structural)]
pub enum ReflectDescriptorType {
    Undefined,
    Sampler,
    CombinedImageSampler,
    SampledImage,
    StorageImage,
    UniformTexelBuffer,
    StorageTexelBuffer,
    UniformBuffer,
    StorageBuffer,
    UniformBufferDynamic,
    StorageBufferDynamic,
    InputAttachment,
    AccelerationStructureNV,
}

/// The Vulkan descriptor type of each reflected type.
pub open spec fn vk_descriptor_type(t: ReflectDescriptorType) -> i32 {
    match t {
        ReflectDescriptorType::Sampler => 0,
        ReflectDescriptorType::CombinedImageSampler => 1,
        ReflectDescriptorType::SampledImage => 2,
        ReflectDescriptorType::StorageImage => 3,
        ReflectDescriptorType::UniformTexelBuffer => 4,
        ReflectDescriptorType::StorageTexelBuffer => 5,
        ReflectDescriptorType::UniformBuffer => 6,
        ReflectDescriptorType::StorageBuffer => 7,
        ReflectDescriptorType::UniformBufferDynamic => 8,
        ReflectDescriptorType::StorageBufferDynamic => 9,
        ReflectDescriptorType::InputAttachment => 10,
        ReflectDescriptorType::AccelerationStructureNV => 1000165000,
        ReflectDescriptorType::Undefined => -1i32,
    }
}

/// An undefined type has no Vulkan counterpart and is not accepted.
pub fn translate_descriptor_type(reflect_type: ReflectDescriptorType) -> (descriptor_type: i32)
    requires
        reflect_type != ReflectDescriptorType::Undefined,
    ensures
        descriptor_type == vk_descriptor_type(reflect_type),
{
    match reflect_type {
        ReflectDescriptorType::Sampler => 0,
        ReflectDescriptorType::CombinedImageSampler => 1,
        ReflectDescriptorType::SampledImage => 2,
        ReflectDescriptorType::StorageImage => 3,
        ReflectDescriptorType::UniformTexelBuffer => 4,
        ReflectDescriptorType::StorageTexelBuffer => 5,
        ReflectDescriptorType::UniformBuffer => 6,
        ReflectDescriptorType::StorageBuffer => 7,
        ReflectDescriptorType::UniformBufferDynamic => 8,
        ReflectDescriptorType::StorageBufferDynamic => 9,
        ReflectDescriptorType::InputAttachment => 10,
        ReflectDescriptorType::AccelerationStructureNV => 1000165000,
        ReflectDescriptorType::Undefined => vstd::pervasive::unreached(),
    }
}

} // verus!
