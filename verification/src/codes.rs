//! Raw codes of the Vulkan constants that more than one part of the library
//! uses, read from vulkanalia.

use vstd::prelude::*;
use vulkanalia::vk;

verus! {

/// Raw bits of `vk::ShaderStageFlags::VERTEX` (vulkanalia: `1`).
pub open spec fn stage_vertex_bits() -> u32 {
    1
}

/// Raw bits of `vk::ShaderStageFlags::TESSELLATION_CONTROL` (vulkanalia: `1 << 1`).
pub open spec fn stage_tessellation_control_bits() -> u32 {
    2
}

/// Raw bits of `vk::ShaderStageFlags::TESSELLATION_EVALUATION` (vulkanalia: `1 << 2`).
pub open spec fn stage_tessellation_evaluation_bits() -> u32 {
    4
}

/// Raw bits of `vk::ShaderStageFlags::GEOMETRY` (vulkanalia: `1 << 3`).
pub open spec fn stage_geometry_bits() -> u32 {
    8
}

/// Raw bits of `vk::ShaderStageFlags::FRAGMENT` (vulkanalia: `1 << 4`).
pub open spec fn stage_fragment_bits() -> u32 {
    16
}

/// Raw code of `vk::DescriptorType::UNIFORM_BUFFER` (vulkanalia: `Self(6)`).
pub open spec fn descriptor_type_uniform_buffer_code() -> i32 {
    6
}

/// Reads `vk::ShaderStageFlags::VERTEX.bits()`; vulkanalia's source defines
/// the flag as `1`.
#[verifier::external_body]
pub(crate) fn stage_vertex() -> (bits: u32)
    ensures
        bits == stage_vertex_bits(),
{
    vk::ShaderStageFlags::VERTEX.bits()
}

/// Reads `vk::ShaderStageFlags::TESSELLATION_CONTROL.bits()`; vulkanalia's
/// source defines the flag as `1 << 1`.
#[verifier::external_body]
pub(crate) fn stage_tessellation_control() -> (bits: u32)
    ensures
        bits == stage_tessellation_control_bits(),
{
    vk::ShaderStageFlags::TESSELLATION_CONTROL.bits()
}

/// Reads `vk::ShaderStageFlags::TESSELLATION_EVALUATION.bits()`; vulkanalia's
/// source defines the flag as `1 << 2`.
#[verifier::external_body]
pub(crate) fn stage_tessellation_evaluation() -> (bits: u32)
    ensures
        bits == stage_tessellation_evaluation_bits(),
{
    vk::ShaderStageFlags::TESSELLATION_EVALUATION.bits()
}

/// Reads `vk::ShaderStageFlags::GEOMETRY.bits()`; vulkanalia's source defines
/// the flag as `1 << 3`.
#[verifier::external_body]
pub(crate) fn stage_geometry() -> (bits: u32)
    ensures
        bits == stage_geometry_bits(),
{
    vk::ShaderStageFlags::GEOMETRY.bits()
}

/// Reads `vk::ShaderStageFlags::FRAGMENT.bits()`; vulkanalia's source defines
/// the flag as `1 << 4`.
#[verifier::external_body]
pub(crate) fn stage_fragment() -> (bits: u32)
    ensures
        bits == stage_fragment_bits(),
{
    vk::ShaderStageFlags::FRAGMENT.bits()
}

/// Reads `vk::DescriptorType::UNIFORM_BUFFER.as_raw()`; vulkanalia's source
/// defines the constant as `Self(6)`.
#[verifier::external_body]
pub(crate) fn descriptor_type_uniform_buffer() -> (code: i32)
    ensures
        code == descriptor_type_uniform_buffer_code(),
{
    vk::DescriptorType::UNIFORM_BUFFER.as_raw()
}

/// Reads `vk::WHOLE_SIZE`, the range that reaches to the end of a buffer;
/// vulkanalia's source defines it as `!0`, every bit of a `u64` set.
#[verifier::external_body]
pub(crate) fn whole_size() -> (size: u64)
    ensures
        size == u64::MAX,
{
    vk::WHOLE_SIZE
}

} // verus!
