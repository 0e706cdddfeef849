//! What is known of a physical device once it has been enumerated.

use vstd::prelude::*;
use crate::ash_api;
use crate::flags::QueueFlags;

verus! {

/// The class a physical device reports for itself.
#[derive(Clone, Copy, Debug, PartialEq, Eq, Structural)]
pub enum DeviceClass {
    Other,
    IntegratedGpu,
    DiscreteGpu,
    VirtualGpu,
    Cpu,
}

impl DeviceClass {
    /// The class that the API's raw device type stands for. Values the API
    /// does not define fall under `Other`.
    pub open spec fn of_raw(raw: i32) -> DeviceClass {
        if raw == 1 {
            DeviceClass::IntegratedGpu
        } else if raw == 2 {
            DeviceClass::DiscreteGpu
        } else if raw == 3 {
            DeviceClass::VirtualGpu
        } else if raw == 4 {
            DeviceClass::Cpu
        } else {
            DeviceClass::Other
        }
    }

    /// Reads the API's raw device type.
    pub fn from_raw(raw: i32) -> (class: DeviceClass)
        ensures
            class == DeviceClass::of_raw(raw),
    {
        if raw == ash_api::device_type_integrated_gpu() {
            DeviceClass::IntegratedGpu
        } else if raw == ash_api::device_type_discrete_gpu() {
            DeviceClass::DiscreteGpu
        } else if raw == ash_api::device_type_virtual_gpu() {
            DeviceClass::VirtualGpu
        } else if raw == ash_api::device_type_cpu() {
            DeviceClass::Cpu
        } else {
            DeviceClass::Other
        }
    }
}

/// One queue family of a device: what its queues can do and how many there
/// are.
#[derive(Clone, Copy, Debug, PartialEq, Eq, Structural)]
pub struct QueueFamily {
    pub flags: QueueFlags,
    pub queue_count: u32,
}

impl QueueFamily {
    pub fn new(flags: QueueFlags, queue_count: u32) -> (family: QueueFamily)
        ensures
            family.flags == flags,
            family.queue_count == queue_count,
    {
        QueueFamily { flags, queue_count }
    }
}

/// A device as it was found at enumeration: its handle, its class and its
/// queue families in the order the API listed them. The record is a
/// snapshot and is never refreshed.
#[derive(Clone, Debug, PartialEq, Eq)]
pub struct PhysicalDeviceInfo {
    pub handle: u64,
    pub class: DeviceClass,
    pub queue_families: Vec<QueueFamily>,
}

impl PhysicalDeviceInfo {
    /// The queue families, in enumeration order.
    pub open spec fn families(&self) -> Seq<QueueFamily> {
        self.queue_families@
    }

    pub fn new(handle: u64, class: DeviceClass, queue_families: Vec<QueueFamily>) -> (device:
        PhysicalDeviceInfo)
        ensures
            device.handle == handle,
            device.class == class,
            device.families() == queue_families@,
    {
        PhysicalDeviceInfo { handle, class, queue_families }
    }
}

} // verus!
