use vk_bootstrap::descriptor::{CapabilityDescriptor, ClassRequirement};
use vk_bootstrap::device::DeviceClass;
use vk_bootstrap::error::{BootstrapError, Step};
use vk_bootstrap::flags::{MatchPolicy, QueueFlags, COMPUTE_BITS, GRAPHICS_BITS, TRANSFER_BITS};

#[test]
fn capability_masks_are_those_of_the_api() {
    assert_eq!(QueueFlags::graphics().as_raw(), 1);
    assert_eq!(QueueFlags::compute().as_raw(), 2);
    assert_eq!(QueueFlags::transfer().as_raw(), 4);
    assert_eq!(QueueFlags::graphics().as_raw(), ash::vk::QueueFlags::GRAPHICS.as_raw());
    assert_eq!(QueueFlags::compute().as_raw(), ash::vk::QueueFlags::COMPUTE.as_raw());
    assert_eq!(QueueFlags::transfer().as_raw(), ash::vk::QueueFlags::TRANSFER.as_raw());
    assert_eq!(GRAPHICS_BITS, 1);
    assert_eq!(COMPUTE_BITS, 2);
    assert_eq!(TRANSFER_BITS, 4);
}

#[test]
fn flag_sets_combine_and_compare() {
    assert_eq!(QueueFlags::empty().as_raw(), 0);
    assert_eq!(QueueFlags::from_raw(0x15).as_raw(), 0x15);
    let both = QueueFlags::graphics().union(QueueFlags::transfer());
    assert_eq!(both.as_raw(), 5);
    assert!(both.contains(QueueFlags::graphics()));
    assert!(both.contains(QueueFlags::transfer()));
    assert!(both.contains(both));
    assert!(both.contains(QueueFlags::empty()));
    assert!(!both.contains(QueueFlags::compute()));
    assert!(!QueueFlags::graphics().contains(both));
    assert_ne!(both, QueueFlags::graphics());
    assert_eq!(
        both.contains(QueueFlags::graphics()),
        ash::vk::QueueFlags::from_raw(5).contains(ash::vk::QueueFlags::GRAPHICS)
    );
}

#[test]
fn flags_match_a_capability_by_policy() {
    let graphics = QueueFlags::graphics();
    let both = graphics.union(QueueFlags::compute());
    assert!(graphics.matches(graphics, MatchPolicy::Exact));
    assert!(graphics.matches(graphics, MatchPolicy::Subset));
    assert!(!both.matches(graphics, MatchPolicy::Exact));
    assert!(both.matches(graphics, MatchPolicy::Subset));
    assert!(!graphics.matches(both, MatchPolicy::Exact));
    assert!(!graphics.matches(both, MatchPolicy::Subset));
    assert!(!QueueFlags::empty().matches(graphics, MatchPolicy::Subset));
    assert!(QueueFlags::empty().matches(QueueFlags::empty(), MatchPolicy::Exact));
}

#[test]
fn device_classes_follow_the_raw_device_type() {
    assert_eq!(DeviceClass::from_raw(0), DeviceClass::Other);
    assert_eq!(DeviceClass::from_raw(1), DeviceClass::IntegratedGpu);
    assert_eq!(DeviceClass::from_raw(2), DeviceClass::DiscreteGpu);
    assert_eq!(DeviceClass::from_raw(3), DeviceClass::VirtualGpu);
    assert_eq!(DeviceClass::from_raw(4), DeviceClass::Cpu);
    assert_eq!(DeviceClass::from_raw(5), DeviceClass::Other);
    assert_eq!(DeviceClass::from_raw(-1), DeviceClass::Other);
    assert_eq!(DeviceClass::from_raw(i32::MAX), DeviceClass::Other);
    assert_eq!(
        DeviceClass::from_raw(ash::vk::PhysicalDeviceType::INTEGRATED_GPU.as_raw()),
        DeviceClass::IntegratedGpu
    );
    assert_eq!(
        DeviceClass::from_raw(ash::vk::PhysicalDeviceType::DISCRETE_GPU.as_raw()),
        DeviceClass::DiscreteGpu
    );
    assert_eq!(
        DeviceClass::from_raw(ash::vk::PhysicalDeviceType::VIRTUAL_GPU.as_raw()),
        DeviceClass::VirtualGpu
    );
    assert_eq!(DeviceClass::from_raw(ash::vk::PhysicalDeviceType::CPU.as_raw()), DeviceClass::Cpu);
    assert_eq!(DeviceClass::from_raw(ash::vk::PhysicalDeviceType::OTHER.as_raw()), DeviceClass::Other);
}

#[test]
fn graphics_descriptor_asks_for_graphics_alone() {
    let descriptor = CapabilityDescriptor::graphics();
    assert_eq!(descriptor.required_flags(), QueueFlags::graphics());
    assert_eq!(descriptor.required_class(), ClassRequirement::Any);
    assert_eq!(descriptor.match_policy(), MatchPolicy::Exact);
    assert!(descriptor.extensions().is_empty());
    assert!(!descriptor.requires_extension(&String::from("VK_KHR_swapchain")));
}

#[test]
fn descriptor_keeps_the_first_of_repeated_names() {
    let names = vec![
        String::from("VK_KHR_swapchain"),
        String::from("VK_KHR_portability_subset"),
        String::from("VK_KHR_swapchain"),
        String::from("VK_EXT_metal_surface"),
        String::from("VK_KHR_portability_subset"),
    ];
    let descriptor = CapabilityDescriptor::new(
        QueueFlags::graphics().union(QueueFlags::compute()),
        ClassRequirement::Only(DeviceClass::DiscreteGpu),
        names,
    );
    assert_eq!(descriptor.required_flags().as_raw(), 3);
    assert_eq!(descriptor.required_class(), ClassRequirement::Only(DeviceClass::DiscreteGpu));
    assert_eq!(descriptor.match_policy(), MatchPolicy::Exact);
    assert_eq!(
        descriptor.extensions(),
        &vec![
            String::from("VK_KHR_swapchain"),
            String::from("VK_KHR_portability_subset"),
            String::from("VK_EXT_metal_surface"),
        ]
    );
    assert!(descriptor.requires_extension(&String::from("VK_EXT_metal_surface")));
    assert!(!descriptor.requires_extension(&String::from("VK_EXT_metal")));
    assert!(!descriptor.requires_extension(&String::new()));
    let lenient = descriptor.with_policy(MatchPolicy::Subset);
    assert_eq!(lenient.match_policy(), MatchPolicy::Subset);
    assert_eq!(lenient.required_flags().as_raw(), 3);
    assert_eq!(lenient.required_class(), ClassRequirement::Only(DeviceClass::DiscreteGpu));
    assert_eq!(lenient.extensions().len(), 3);
    assert!(lenient.requires_extension(&String::from("VK_KHR_portability_subset")));
}

#[test]
fn descriptor_without_repetition_keeps_every_name_in_order() {
    let names = vec![String::from("b"), String::from("a"), String::from("")];
    let descriptor = CapabilityDescriptor::new(QueueFlags::empty(), ClassRequirement::Any, names.clone());
    assert_eq!(descriptor.extensions(), &names);
    assert!(descriptor.requires_extension(&String::new()));
}

#[test]
fn failures_name_their_step_and_code() {
    let load = BootstrapError::EntryLoadError { reason: String::from("no loader") };
    assert_eq!(load.step(), Step::LoadEntry);
    assert_eq!(load.status_code(), None);
    let instance = BootstrapError::InstanceCreationError { code: -9 };
    assert_eq!(instance.step(), Step::CreateInstance);
    assert_eq!(instance.status_code(), Some(-9));
    let surface = BootstrapError::SurfaceCreationError { code: -1000000000 };
    assert_eq!(surface.step(), Step::CreateSurface);
    assert_eq!(surface.status_code(), Some(-1000000000));
    let window = BootstrapError::WindowCreationError { reason: String::from("no display") };
    assert_eq!(window.step(), Step::CreateSurface);
    assert_eq!(window.status_code(), None);
    assert_eq!(BootstrapError::NoDevicesFound.step(), Step::SelectDevice);
    assert_eq!(BootstrapError::NoDevicesFound.status_code(), None);
    assert_eq!(BootstrapError::NoSuitableDevice.step(), Step::SelectDevice);
    assert_eq!(BootstrapError::NoSuitableDevice.status_code(), None);
    let device = BootstrapError::DeviceCreationError { code: -3 };
    assert_eq!(device.step(), Step::CreateDevice);
    assert_eq!(device.status_code(), Some(-3));
}
