//! What is reported of the queue families when several devices are found.
//!
//! The report takes no part in the choice of a device. Each family is
//! classified three times over, once per capability, by the same test that
//! selection applies: under the exact policy its flags must equal that
//! capability and nothing else.

use vstd::prelude::*;
use crate::device::{PhysicalDeviceInfo, QueueFamily};
use crate::flags::{MatchPolicy, QueueFlags, COMPUTE_BITS, GRAPHICS_BITS, TRANSFER_BITS};

verus! {

/// One line of the report: a queue family, where it was found, and which of
/// the three capabilities its flags match.
#[derive(Clone, Copy, Debug, PartialEq, Eq, Structural)]
pub struct QueueSupport {
    pub device_index: usize,
    pub family_index: usize,
    pub queue_count: u32,
    pub graphics: bool,
    pub compute: bool,
    pub transfer: bool,
}

/// The line for family `family_index` of device `device_index`.
pub open spec fn support_of(
    device_index: int,
    family_index: int,
    family: QueueFamily,
    policy: MatchPolicy,
) -> QueueSupport {
    QueueSupport {
        device_index: device_index as usize,
        family_index: family_index as usize,
        queue_count: family.queue_count,
        graphics: family.flags.meets(QueueFlags { bits: GRAPHICS_BITS }, policy),
        compute: family.flags.meets(QueueFlags { bits: COMPUTE_BITS }, policy),
        transfer: family.flags.meets(QueueFlags { bits: TRANSFER_BITS }, policy),
    }
}

/// The lines for one device: one per family, in the order of the families.
pub open spec fn device_lines(
    device: PhysicalDeviceInfo,
    device_index: int,
    policy: MatchPolicy,
) -> Seq<QueueSupport> {
    Seq::new(
        device.families().len(),
        |j: int| support_of(device_index, j, device.families()[j], policy),
    )
}

/// The lines for the first `count` devices, device after device.
pub open spec fn lines_of_first(
    devices: Seq<PhysicalDeviceInfo>,
    count: int,
    policy: MatchPolicy,
) -> Seq<QueueSupport>
    decreases count,
{
    if count <= 0 {
        Seq::empty()
    } else {
        lines_of_first(devices, count - 1, policy) + device_lines(
            devices[count - 1],
            count - 1,
            policy,
        )
    }
}

/// The whole report. A single device is judged without one.
pub open spec fn report(devices: Seq<PhysicalDeviceInfo>, policy: MatchPolicy) -> Seq<QueueSupport> {
    if devices.len() == 1 {
        Seq::empty()
    } else {
        lines_of_first(devices, devices.len() as int, policy)
    }
}

/// Classifies one queue family.
pub fn classify(
    device_index: usize,
    family_index: usize,
    family: QueueFamily,
    policy: MatchPolicy,
) -> (line: QueueSupport)
    ensures
        line == support_of(device_index as int, family_index as int, family, policy),
{
    QueueSupport {
        device_index,
        family_index,
        queue_count: family.queue_count,
        graphics: family.flags.matches(QueueFlags::graphics(), policy),
        compute: family.flags.matches(QueueFlags::compute(), policy),
        transfer: family.flags.matches(QueueFlags::transfer(), policy),
    }
}

/// The report on `devices`, given in enumeration order: for two devices or
/// more, one line per queue family, device after device and family after
/// family; for a single device, and for none, no line.
pub fn queue_report(devices: &Vec<PhysicalDeviceInfo>, policy: MatchPolicy) -> (lines: Vec<
    QueueSupport,
>)
    ensures
        lines@ == report(devices@, policy),
{
    let mut lines: Vec<QueueSupport> = Vec::new();
    if devices.len() == 1 {
        return lines;
    }
    let mut i: usize = 0;
    while i < devices.len()
        invariant
            i <= devices.len(),
            lines@ == lines_of_first(devices@, i as int, policy),
        decreases devices.len() - i,
    {
        let ghost before = lines@;
        let families = &devices[i].queue_families;
        let mut j: usize = 0;
        while j < families.len()
            invariant
                j <= families.len(),
                i < devices.len(),
                families@ == devices@[i as int].families(),
                lines@ == before + device_lines(devices@[i as int], i as int, policy).take(j as int),
            decreases families.len() - j,
        {
            lines.push(classify(i, j, families[j], policy));
            proof {
                let whole = device_lines(devices@[i as int], i as int, policy);
                assert(whole.take(j + 1) == whole.take(j as int).push(whole[j as int]));
            }
            j += 1;
        }
        proof {
            let whole = device_lines(devices@[i as int], i as int, policy);
            assert(whole.take(j as int) == whole);
        }
        i += 1;
    }
    lines
}

} // verus!
