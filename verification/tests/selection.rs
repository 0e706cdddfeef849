use vk_bootstrap::descriptor::{CapabilityDescriptor, ClassRequirement};
use vk_bootstrap::device::{DeviceClass, PhysicalDeviceInfo, QueueFamily};
use vk_bootstrap::diagnostics::{classify, queue_report, QueueSupport};
use vk_bootstrap::error::BootstrapError;
use vk_bootstrap::flags::{MatchPolicy, QueueFlags};
use vk_bootstrap::selector::{first_graphics_family, select, SelectedDevice};

fn family(flags: QueueFlags, queue_count: u32) -> QueueFamily {
    QueueFamily::new(flags, queue_count)
}

fn device(handle: u64, class: DeviceClass, families: Vec<QueueFamily>) -> PhysicalDeviceInfo {
    PhysicalDeviceInfo::new(handle, class, families)
}

#[test]
fn no_device_gives_no_devices_found() {
    let descriptor = CapabilityDescriptor::graphics();
    assert_eq!(select(Vec::new(), &descriptor), Err(BootstrapError::NoDevicesFound));
}

#[test]
fn single_device_with_exact_graphics_is_chosen() {
    let descriptor = CapabilityDescriptor::graphics();
    let only = device(11, DeviceClass::DiscreteGpu, vec![family(QueueFlags::graphics(), 4)]);
    let chosen = select(vec![only.clone()], &descriptor);
    assert_eq!(
        chosen,
        Ok(SelectedDevice { device_index: 0, queue_family: 0, device: only })
    );
}

#[test]
fn single_device_with_graphics_and_compute_is_turned_down() {
    let descriptor = CapabilityDescriptor::graphics();
    let both = QueueFlags::graphics().union(QueueFlags::compute());
    assert_eq!(both.as_raw(), 3);
    assert!(both.contains(QueueFlags::graphics()));
    let only = device(11, DeviceClass::DiscreteGpu, vec![family(both, 4)]);
    assert_eq!(select(vec![only], &descriptor), Err(BootstrapError::NoSuitableDevice));
}

#[test]
fn single_device_takes_its_first_graphics_family() {
    let descriptor = CapabilityDescriptor::graphics();
    let only = device(
        5,
        DeviceClass::IntegratedGpu,
        vec![
            family(QueueFlags::transfer(), 1),
            family(QueueFlags::graphics().union(QueueFlags::transfer()), 1),
            family(QueueFlags::graphics(), 2),
            family(QueueFlags::graphics(), 8),
        ],
    );
    let chosen = select(vec![only.clone()], &descriptor).unwrap();
    assert_eq!(chosen.device_index, 0);
    assert_eq!(chosen.queue_family, 2);
    assert_eq!(chosen.device, only);
}

#[test]
fn first_of_two_matching_devices_is_chosen() {
    let descriptor = CapabilityDescriptor::graphics();
    let devices = vec![
        device(100, DeviceClass::Cpu, vec![family(QueueFlags::compute(), 1)]),
        device(101, DeviceClass::IntegratedGpu, vec![family(QueueFlags::graphics(), 1)]),
        device(102, DeviceClass::DiscreteGpu, vec![family(QueueFlags::graphics(), 16)]),
    ];
    let chosen = select(devices, &descriptor).unwrap();
    assert_eq!(chosen.device_index, 1);
    assert_ne!(chosen.device_index, 2);
    assert_eq!(chosen.device.handle, 101);
    assert_eq!(chosen.queue_family, 0);
}

#[test]
fn integrated_transfer_then_discrete_graphics() {
    let descriptor = CapabilityDescriptor::graphics();
    let devices = vec![
        device(1, DeviceClass::IntegratedGpu, vec![family(QueueFlags::transfer(), 1)]),
        device(
            2,
            DeviceClass::DiscreteGpu,
            vec![family(QueueFlags::graphics(), 1), family(QueueFlags::compute(), 1)],
        ),
    ];
    let expected = devices[1].clone();
    assert_eq!(
        select(devices, &descriptor),
        Ok(SelectedDevice { device_index: 1, queue_family: 0, device: expected })
    );
}

#[test]
fn several_devices_without_exact_graphics_give_no_suitable_device() {
    let descriptor = CapabilityDescriptor::graphics();
    let all = QueueFlags::graphics().union(QueueFlags::compute()).union(QueueFlags::transfer());
    let devices = vec![
        device(1, DeviceClass::DiscreteGpu, vec![family(all, 16), family(QueueFlags::transfer(), 2)]),
        device(2, DeviceClass::IntegratedGpu, vec![family(QueueFlags::compute(), 1)]),
        device(3, DeviceClass::Other, Vec::new()),
    ];
    assert_eq!(select(devices, &descriptor), Err(BootstrapError::NoSuitableDevice));
}

#[test]
fn selection_is_the_same_on_every_call() {
    let descriptor = CapabilityDescriptor::graphics();
    let devices = vec![
        device(7, DeviceClass::VirtualGpu, vec![family(QueueFlags::from_raw(8), 1)]),
        device(8, DeviceClass::DiscreteGpu, vec![family(QueueFlags::graphics(), 1)]),
        device(9, DeviceClass::DiscreteGpu, vec![family(QueueFlags::graphics(), 1)]),
    ];
    let once = select(devices.clone(), &descriptor);
    let again = select(devices.clone(), &descriptor);
    assert_eq!(once, again);
    assert_eq!(once.unwrap().device, devices[1]);
}

#[test]
fn class_and_extension_requirements_do_not_bear_on_selection() {
    let plain = CapabilityDescriptor::graphics();
    let strict = CapabilityDescriptor::new(
        QueueFlags::compute(),
        ClassRequirement::Only(DeviceClass::DiscreteGpu),
        vec![String::from("VK_KHR_swapchain")],
    );
    let devices = vec![
        device(1, DeviceClass::IntegratedGpu, vec![family(QueueFlags::graphics(), 1)]),
        device(2, DeviceClass::DiscreteGpu, vec![family(QueueFlags::compute(), 1)]),
    ];
    let with_plain = select(devices.clone(), &plain);
    let with_strict = select(devices, &strict);
    assert_eq!(with_plain, with_strict);
    assert_eq!(with_plain.unwrap().device_index, 0);
}

#[test]
fn bits_beyond_the_three_capabilities_count_in_the_comparison() {
    let descriptor = CapabilityDescriptor::graphics();
    let graphics_and_sparse = QueueFlags::from_raw(0x1 | 0x8);
    let only = device(1, DeviceClass::DiscreteGpu, vec![family(graphics_and_sparse, 1)]);
    assert_eq!(select(vec![only], &descriptor), Err(BootstrapError::NoSuitableDevice));
}

#[test]
fn first_graphics_family_of_a_list() {
    assert_eq!(first_graphics_family(&Vec::new(), MatchPolicy::Exact), None);
    assert_eq!(first_graphics_family(&Vec::new(), MatchPolicy::Subset), None);
    let families = vec![
        family(QueueFlags::compute(), 1),
        family(QueueFlags::graphics(), 1),
        family(QueueFlags::graphics(), 1),
    ];
    assert_eq!(first_graphics_family(&families, MatchPolicy::Exact), Some(1));
    assert_eq!(first_graphics_family(&families, MatchPolicy::Subset), Some(1));
    let mixed = vec![family(QueueFlags::empty(), 1), family(QueueFlags::from_raw(7), 1)];
    assert_eq!(first_graphics_family(&mixed, MatchPolicy::Exact), None);
    assert_eq!(first_graphics_family(&mixed, MatchPolicy::Subset), Some(1));
    let none = vec![family(QueueFlags::empty(), 1), family(QueueFlags::from_raw(6), 1)];
    assert_eq!(first_graphics_family(&none, MatchPolicy::Subset), None);
}

#[test]
fn classification_is_by_exact_equality() {
    assert_eq!(
        classify(3, 1, family(QueueFlags::graphics(), 4), MatchPolicy::Exact),
        QueueSupport {
            device_index: 3,
            family_index: 1,
            queue_count: 4,
            graphics: true,
            compute: false,
            transfer: false,
        }
    );
    let compute = classify(0, 0, family(QueueFlags::compute(), 2), MatchPolicy::Exact);
    assert!(!compute.graphics && compute.compute && !compute.transfer);
    let transfer = classify(0, 0, family(QueueFlags::transfer(), 1), MatchPolicy::Exact);
    assert!(!transfer.graphics && !transfer.compute && transfer.transfer);
    let both = family(QueueFlags::graphics().union(QueueFlags::transfer()), 1);
    let mixed = classify(0, 0, both, MatchPolicy::Exact);
    assert!(!mixed.graphics && !mixed.compute && !mixed.transfer);
}

#[test]
fn classification_under_the_subset_policy_is_by_inclusion() {
    let both = family(QueueFlags::graphics().union(QueueFlags::transfer()), 3);
    assert_eq!(
        classify(1, 2, both, MatchPolicy::Subset),
        QueueSupport {
            device_index: 1,
            family_index: 2,
            queue_count: 3,
            graphics: true,
            compute: false,
            transfer: true,
        }
    );
    let nothing = classify(0, 0, family(QueueFlags::empty(), 1), MatchPolicy::Subset);
    assert!(!nothing.graphics && !nothing.compute && !nothing.transfer);
}

#[test]
fn subset_policy_takes_a_family_that_offers_more_than_graphics() {
    let lenient = CapabilityDescriptor::graphics().with_policy(MatchPolicy::Subset);
    assert_eq!(lenient.match_policy(), MatchPolicy::Subset);
    assert_eq!(lenient.required_flags(), QueueFlags::graphics());
    let both = QueueFlags::graphics().union(QueueFlags::compute());
    let only = device(11, DeviceClass::DiscreteGpu, vec![family(both, 4)]);
    assert_eq!(
        select(vec![only.clone()], &lenient),
        Ok(SelectedDevice { device_index: 0, queue_family: 0, device: only.clone() })
    );
    let strict = lenient.with_policy(MatchPolicy::Exact);
    assert_eq!(select(vec![only], &strict), Err(BootstrapError::NoSuitableDevice));
}

#[test]
fn subset_policy_still_takes_the_first_match() {
    let lenient = CapabilityDescriptor::graphics().with_policy(MatchPolicy::Subset);
    let all = QueueFlags::from_raw(0xf);
    let devices = vec![
        device(1, DeviceClass::Cpu, vec![family(QueueFlags::compute().union(QueueFlags::transfer()), 1)]),
        device(2, DeviceClass::DiscreteGpu, vec![family(QueueFlags::transfer(), 2), family(all, 16)]),
        device(3, DeviceClass::IntegratedGpu, vec![family(QueueFlags::graphics(), 1)]),
    ];
    let chosen = select(devices.clone(), &lenient).unwrap();
    assert_eq!(chosen.device_index, 1);
    assert_eq!(chosen.queue_family, 1);
    let exact = select(devices, &CapabilityDescriptor::graphics()).unwrap();
    assert_eq!(exact.device_index, 2);
    assert_eq!(exact.queue_family, 0);
}

#[test]
fn subset_policy_fails_alike_without_devices_or_without_graphics() {
    let lenient = CapabilityDescriptor::graphics().with_policy(MatchPolicy::Subset);
    assert_eq!(select(Vec::new(), &lenient), Err(BootstrapError::NoDevicesFound));
    let devices = vec![device(1, DeviceClass::Cpu, vec![family(QueueFlags::from_raw(6), 1)])];
    assert_eq!(select(devices, &lenient), Err(BootstrapError::NoSuitableDevice));
}

#[test]
fn report_lists_every_family_of_several_devices() {
    let devices = vec![
        device(1, DeviceClass::IntegratedGpu, vec![family(QueueFlags::transfer(), 1)]),
        device(2, DeviceClass::Other, Vec::new()),
        device(
            3,
            DeviceClass::DiscreteGpu,
            vec![family(QueueFlags::graphics(), 16), family(QueueFlags::compute(), 8)],
        ),
    ];
    let lines = queue_report(&devices, MatchPolicy::Exact);
    assert_eq!(
        lines,
        vec![
            QueueSupport {
                device_index: 0,
                family_index: 0,
                queue_count: 1,
                graphics: false,
                compute: false,
                transfer: true,
            },
            QueueSupport {
                device_index: 2,
                family_index: 0,
                queue_count: 16,
                graphics: true,
                compute: false,
                transfer: false,
            },
            QueueSupport {
                device_index: 2,
                family_index: 1,
                queue_count: 8,
                graphics: false,
                compute: true,
                transfer: false,
            },
        ]
    );
}

#[test]
fn report_is_empty_for_one_device_and_for_none() {
    let one = vec![device(
        1,
        DeviceClass::DiscreteGpu,
        vec![family(QueueFlags::graphics(), 1), family(QueueFlags::compute(), 1)],
    )];
    assert_eq!(queue_report(&one, MatchPolicy::Exact), Vec::new());
    assert_eq!(queue_report(&one, MatchPolicy::Subset), Vec::new());
    assert_eq!(queue_report(&Vec::new(), MatchPolicy::Exact), Vec::new());
}
