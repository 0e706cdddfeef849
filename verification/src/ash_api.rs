//! The values this library takes from the `ash` crate.
//!
//! Every function here is a thin call into `ash`; its contract restates what
//! the crate's source defines and is not proved.

use vstd::prelude::*;

verus! {

/// How Vulkan packs a version into 32 bits: three bits of variant, seven of
/// major, ten of minor and twelve of patch, from the top down.
pub open spec fn packed_version(variant: u32, major: u32, minor: u32, patch: u32) -> u32 {
    (variant << 29u32) | (major << 22u32) | (minor << 12u32) | patch
}

/// A packed version gives back its components, as long as each fits the
/// bits it is given.
pub proof fn lemma_packed_version_components(variant: u32, major: u32, minor: u32, patch: u32)
    requires
        variant < 8,
        major < 128,
        minor < 1024,
        patch < 4096,
    ensures
        packed_version(variant, major, minor, patch) >> 29u32 == variant,
        (packed_version(variant, major, minor, patch) >> 22u32) & 0x7fu32 == major,
        (packed_version(variant, major, minor, patch) >> 12u32) & 0x3ffu32 == minor,
        packed_version(variant, major, minor, patch) & 0xfffu32 == patch,
{
    let packed = (variant << 29u32) | (major << 22u32) | (minor << 12u32) | patch;
    assert(packed >> 29u32 == variant && (packed >> 22u32) & 0x7fu32 == major && (packed >> 12u32)
        & 0x3ffu32 == minor && packed & 0xfffu32 == patch) by (bit_vector)
        requires
            packed == (variant << 29u32) | (major << 22u32) | (minor << 12u32) | patch,
            variant < 8,
            major < 128,
            minor < 1024,
            patch < 4096,
    ;
}

/// `ash::vk::make_api_version`: shifts the four components into place and
/// combines them with bitwise or. Bits shifted past the top are dropped.
#[verifier::external_body]
pub(crate) fn make_api_version(variant: u32, major: u32, minor: u32, patch: u32) -> (packed: u32)
    ensures
        packed == packed_version(variant, major, minor, patch),
{
    ash::vk::make_api_version(variant, major, minor, patch)
}

/// `ash::vk::QueueFlags::GRAPHICS`, as the raw bit mask read with `as_raw`.
#[verifier::external_body]
pub(crate) fn queue_graphics_bit() -> (bits: u32)
    ensures
        bits == 0x1,
{
    ash::vk::QueueFlags::GRAPHICS.as_raw()
}

/// `ash::vk::QueueFlags::COMPUTE`, as the raw bit mask read with `as_raw`.
#[verifier::external_body]
pub(crate) fn queue_compute_bit() -> (bits: u32)
    ensures
        bits == 0x2,
{
    ash::vk::QueueFlags::COMPUTE.as_raw()
}

/// `ash::vk::QueueFlags::TRANSFER`, as the raw bit mask read with `as_raw`.
#[verifier::external_body]
pub(crate) fn queue_transfer_bit() -> (bits: u32)
    ensures
        bits == 0x4,
{
    ash::vk::QueueFlags::TRANSFER.as_raw()
}

/// `ash::vk::InstanceCreateFlags::ENUMERATE_PORTABILITY_KHR`, as the raw bit
/// mask read with `as_raw`.
#[verifier::external_body]
pub(crate) fn instance_portability_bit() -> (bits: u32)
    ensures
        bits == 0x1,
{
    ash::vk::InstanceCreateFlags::ENUMERATE_PORTABILITY_KHR.as_raw()
}

/// `ash::vk::PhysicalDeviceType::INTEGRATED_GPU`, as the raw value read with
/// `as_raw`.
#[verifier::external_body]
pub(crate) fn device_type_integrated_gpu() -> (raw: i32)
    ensures
        raw == 1,
{
    ash::vk::PhysicalDeviceType::INTEGRATED_GPU.as_raw()
}

/// `ash::vk::PhysicalDeviceType::DISCRETE_GPU`, as the raw value read with
/// `as_raw`.
#[verifier::external_body]
pub(crate) fn device_type_discrete_gpu() -> (raw: i32)
    ensures
        raw == 2,
{
    ash::vk::PhysicalDeviceType::DISCRETE_GPU.as_raw()
}

/// `ash::vk::PhysicalDeviceType::VIRTUAL_GPU`, as the raw value read with
/// `as_raw`.
#[verifier::external_body]
pub(crate) fn device_type_virtual_gpu() -> (raw: i32)
    ensures
        raw == 3,
{
    ash::vk::PhysicalDeviceType::VIRTUAL_GPU.as_raw()
}

/// `ash::vk::PhysicalDeviceType::CPU`, as the raw value read with `as_raw`.
#[verifier::external_body]
pub(crate) fn device_type_cpu() -> (raw: i32)
    ensures
        raw == 4,
{
    ash::vk::PhysicalDeviceType::CPU.as_raw()
}

} // verus!
