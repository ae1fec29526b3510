//! Vulkan handle types and other opaque values that the library carries
//! through its logic without looking inside them.

use vstd::prelude::*;
use vulkanalia::vk;

verus! {

/// `vk::RenderPass`: a render pass handle.
#[verifier::external_type_specification]
#[verifier::external_body]
pub struct ExRenderPass(vk::RenderPass);

/// `vk::Framebuffer`: a framebuffer handle.
#[verifier::external_type_specification]
#[verifier::external_body]
pub struct ExFramebuffer(vk::Framebuffer);

/// `vk::Image`: an image handle.
#[verifier::external_type_specification]
#[verifier::external_body]
pub struct ExImage(vk::Image);

/// `vk::ImageView`: an image view handle.
#[verifier::external_type_specification]
#[verifier::external_body]
pub struct ExImageView(vk::ImageView);

/// `vulkanalia_vma::Allocation`: a memory allocation made by the allocator.
#[verifier::external_type_specification]
#[verifier::external_body]
pub struct ExAllocation(vulkanalia_vma::Allocation);

/// `vk::Semaphore`: a semaphore handle.
#[verifier::external_type_specification]
#[verifier::external_body]
pub struct ExSemaphore(vk::Semaphore);

/// `vk::Fence`: a fence handle.
#[verifier::external_type_specification]
#[verifier::external_body]
pub struct ExFence(vk::Fence);

/// `vk::DescriptorPool`: a descriptor pool handle.
#[verifier::external_type_specification]
#[verifier::external_body]
pub struct ExDescriptorPool(vk::DescriptorPool);

/// `vk::DescriptorSetLayout`: a descriptor set layout handle.
#[verifier::external_type_specification]
#[verifier::external_body]
pub struct ExDescriptorSetLayout(vk::DescriptorSetLayout);

/// `vk::DescriptorSet`: a descriptor set handle.
#[verifier::external_type_specification]
#[verifier::external_body]
pub struct ExDescriptorSet(vk::DescriptorSet);

/// `vk::Buffer`: a buffer handle.
#[verifier::external_type_specification]
#[verifier::external_body]
pub struct ExBuffer(vk::Buffer);

/// `vk::VertexInputBindingDescription`: how vertex data is laid out in a binding.
#[verifier::external_type_specification]
#[verifier::external_body]
pub struct ExVertexInputBindingDescription(vk::VertexInputBindingDescription);

/// `vk::VertexInputAttributeDescription`: where a vertex attribute is read from.
#[verifier::external_type_specification]
#[verifier::external_body]
pub struct ExVertexInputAttributeDescription(vk::VertexInputAttributeDescription);

/// `vk::PushConstantRange`: a range of push constants seen by some stages.
#[verifier::external_type_specification]
#[verifier::external_body]
pub struct ExPushConstantRange(vk::PushConstantRange);

/// `vulkanalia::bytecode::Bytecode`: SPIR-V code copied into an aligned buffer.
#[verifier::external_type_specification]
#[verifier::external_body]
pub struct ExBytecode(vulkanalia::bytecode::Bytecode);

/// `std::path::PathBuf`: a file system path.
#[verifier::external_type_specification]
#[verifier::external_body]
pub struct ExPathBuf(std::path::PathBuf);

} // verus!
