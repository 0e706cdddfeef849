//! Choosing the physical device to build a context on.
//!
//! A queue family serves graphics when its flags match the graphics
//! capability under the policy of the descriptor. Under the exact policy,
//! which is the one a descriptor has unless it is given another, the flags
//! must be the graphics capability and nothing else: a family that offers
//! graphics together with compute or transfer does not pass. Under the
//! subset policy it does. The first device, in enumeration order, with such
//! a family is chosen, and of its families the first such one.

use vstd::prelude::*;
use crate::descriptor::CapabilityDescriptor;
use crate::device::{PhysicalDeviceInfo, QueueFamily};
use crate::error::BootstrapError;
use crate::flags::{lemma_match_holds_capability, MatchPolicy, QueueFlags};

verus! {

/// The device that selection settled on: its place in the enumeration, the
/// snapshot taken of it, and the queue family the context will use.
#[derive(Clone, Debug, PartialEq, Eq)]
pub struct SelectedDevice {
    pub device_index: usize,
    pub queue_family: usize,
    pub device: PhysicalDeviceInfo,
}

impl SelectedDevice {
    /// The chosen family exists on the device and its flags hold the
    /// graphics capability.
    pub open spec fn wf(&self) -> bool {
        &&& self.queue_family < self.device.families().len()
        &&& self.device.families()[self.queue_family as int].flags.includes(
            QueueFlags::graphics_only(),
        )
    }
}

/// Whether the family's flags match the graphics capability.
pub open spec fn serves_graphics(family: QueueFamily, policy: MatchPolicy) -> bool {
    family.flags.meets(QueueFlags::graphics_only(), policy)
}

/// Whether `j` is the first family of `families` that serves graphics.
pub open spec fn is_first_graphics_family(
    families: Seq<QueueFamily>,
    policy: MatchPolicy,
    j: int,
) -> bool {
    &&& 0 <= j < families.len()
    &&& serves_graphics(families[j], policy)
    &&& forall|k: int| 0 <= k < j ==> !serves_graphics(#[trigger] families[k], policy)
}

/// Whether the device has a family that serves graphics.
pub open spec fn is_suitable(device: PhysicalDeviceInfo, policy: MatchPolicy) -> bool {
    exists|j: int|
        0 <= j < device.families().len() && serves_graphics(#[trigger] device.families()[j], policy)
}

/// Whether `i` is the first suitable device of `devices`.
pub open spec fn is_first_suitable(
    devices: Seq<PhysicalDeviceInfo>,
    policy: MatchPolicy,
    i: int,
) -> bool {
    &&& 0 <= i < devices.len()
    &&& is_suitable(devices[i], policy)
    &&& forall|k: int| 0 <= k < i ==> !is_suitable(#[trigger] devices[k], policy)
}

/// Whether any device of `devices` is suitable.
pub open spec fn any_suitable(devices: Seq<PhysicalDeviceInfo>, policy: MatchPolicy) -> bool {
    exists|i: int| 0 <= i < devices.len() && is_suitable(#[trigger] devices[i], policy)
}

/// What selection yields for a list of devices in enumeration order: no
/// device at all is one failure, devices of which none is suitable another;
/// otherwise the first suitable device with its first graphics family.
pub open spec fn selection(devices: Seq<PhysicalDeviceInfo>, policy: MatchPolicy) -> Result<
    SelectedDevice,
    BootstrapError,
> {
    if devices.len() == 0 {
        Err(BootstrapError::NoDevicesFound)
    } else if !any_suitable(devices, policy) {
        Err(BootstrapError::NoSuitableDevice)
    } else {
        let i = choose|i: int| is_first_suitable(devices, policy, i);
        let j = choose|j: int| is_first_graphics_family(devices[i].families(), policy, j);
        Ok(SelectedDevice { device_index: i as usize, queue_family: j as usize, device: devices[i] })
    }
}

/// At most one family is the first to serve graphics.
pub proof fn lemma_first_graphics_family_unique(
    families: Seq<QueueFamily>,
    policy: MatchPolicy,
    a: int,
    b: int,
)
    requires
        is_first_graphics_family(families, policy, a),
        is_first_graphics_family(families, policy, b),
    ensures
        a == b,
{
    if a < b {
        assert(!serves_graphics(families[a], policy));
    } else if b < a {
        assert(!serves_graphics(families[b], policy));
    }
}

/// At most one device is the first suitable one.
pub proof fn lemma_first_suitable_unique(
    devices: Seq<PhysicalDeviceInfo>,
    policy: MatchPolicy,
    a: int,
    b: int,
)
    requires
        is_first_suitable(devices, policy, a),
        is_first_suitable(devices, policy, b),
    ensures
        a == b,
{
    if a < b {
        assert(!is_suitable(devices[a], policy));
    } else if b < a {
        assert(!is_suitable(devices[b], policy));
    }
}

/// Among families of which one serves graphics, one is the first to.
pub proof fn lemma_first_graphics_family_exists(families: Seq<QueueFamily>, policy: MatchPolicy)
    requires
        exists|j: int| 0 <= j < families.len() && serves_graphics(#[trigger] families[j], policy),
    ensures
        exists|j: int| is_first_graphics_family(families, policy, j),
{
    let w = choose|j: int| 0 <= j < families.len() && serves_graphics(#[trigger] families[j], policy);
    lemma_least_graphics_family(families, policy, w);
}

proof fn lemma_least_graphics_family(families: Seq<QueueFamily>, policy: MatchPolicy, w: int)
    requires
        0 <= w < families.len(),
        serves_graphics(families[w], policy),
    ensures
        exists|j: int| is_first_graphics_family(families, policy, j),
    decreases w,
{
    if exists|k: int| 0 <= k < w && serves_graphics(#[trigger] families[k], policy) {
        let k = choose|k: int| 0 <= k < w && serves_graphics(#[trigger] families[k], policy);
        lemma_least_graphics_family(families, policy, k);
    } else {
        assert(is_first_graphics_family(families, policy, w));
    }
}

/// Among devices of which one is suitable, one is the first suitable.
pub proof fn lemma_first_suitable_exists(devices: Seq<PhysicalDeviceInfo>, policy: MatchPolicy)
    requires
        any_suitable(devices, policy),
    ensures
        exists|i: int| is_first_suitable(devices, policy, i),
{
    let w = choose|i: int| 0 <= i < devices.len() && is_suitable(#[trigger] devices[i], policy);
    lemma_least_suitable(devices, policy, w);
}

proof fn lemma_least_suitable(devices: Seq<PhysicalDeviceInfo>, policy: MatchPolicy, w: int)
    requires
        0 <= w < devices.len(),
        is_suitable(devices[w], policy),
    ensures
        exists|i: int| is_first_suitable(devices, policy, i),
    decreases w,
{
    if exists|k: int| 0 <= k < w && is_suitable(#[trigger] devices[k], policy) {
        let k = choose|k: int| 0 <= k < w && is_suitable(#[trigger] devices[k], policy);
        lemma_least_suitable(devices, policy, k);
    } else {
        assert(is_first_suitable(devices, policy, w));
    }
}

/// Selection is first-match: with device `i` the first suitable one and `j`
/// its first graphics family, the outcome is that pair and no other, and
/// the family chosen holds the graphics capability.
pub proof fn lemma_selection_is_first_match(
    devices: Seq<PhysicalDeviceInfo>,
    policy: MatchPolicy,
    i: int,
    j: int,
)
    requires
        is_first_suitable(devices, policy, i),
        is_first_graphics_family(devices[i].families(), policy, j),
    ensures
        selection(devices, policy) == Ok::<SelectedDevice, BootstrapError>(
            SelectedDevice { device_index: i as usize, queue_family: j as usize, device: devices[i] },
        ),
        selection(devices, policy)->Ok_0.wf(),
{
    assert(any_suitable(devices, policy));
    assert(devices[i].queue_families.len() == devices[i].families().len());
    let ci = choose|c: int| is_first_suitable(devices, policy, c);
    lemma_first_suitable_unique(devices, policy, i, ci);
    let cj = choose|c: int| is_first_graphics_family(devices[i].families(), policy, c);
    lemma_first_graphics_family_unique(devices[i].families(), policy, j, cj);
    lemma_match_holds_capability(
        devices[i].families()[j].flags,
        QueueFlags::graphics_only(),
        policy,
    );
}

/// Whenever selection succeeds on a list that fits the machine, it is with
/// the first suitable device and that device's first graphics family, and
/// the family chosen holds the graphics capability.
pub proof fn lemma_selection_succeeds_with_first_match(
    devices: Seq<PhysicalDeviceInfo>,
    policy: MatchPolicy,
)
    requires
        selection(devices, policy) is Ok,
        devices.len() <= usize::MAX,
    ensures
        any_suitable(devices, policy),
        is_first_suitable(devices, policy, selection(devices, policy)->Ok_0.device_index as int),
        is_first_graphics_family(
            selection(devices, policy)->Ok_0.device.families(),
            policy,
            selection(devices, policy)->Ok_0.queue_family as int,
        ),
        selection(devices, policy)->Ok_0.device == devices[selection(
            devices,
            policy,
        )->Ok_0.device_index as int],
        selection(devices, policy)->Ok_0.wf(),
{
    lemma_first_suitable_exists(devices, policy);
    let i = choose|i: int| is_first_suitable(devices, policy, i);
    lemma_first_graphics_family_exists(devices[i].families(), policy);
    let j = choose|j: int| is_first_graphics_family(devices[i].families(), policy, j);
    lemma_selection_is_first_match(devices, policy, i, j);
    assert(devices[i].queue_families.len() == devices[i].families().len());
}

/// The first family of `families` that serves graphics, if there is one.
pub fn first_graphics_family(families: &Vec<QueueFamily>, policy: MatchPolicy) -> (found: Option<
    usize,
>)
    ensures
        match found {
            Some(j) => is_first_graphics_family(families@, policy, j as int),
            None => forall|k: int|
                0 <= k < families@.len() ==> !serves_graphics(#[trigger] families@[k], policy),
        },
{
    let graphics = QueueFlags::graphics();
    let mut j: usize = 0;
    while j < families.len()
        invariant
            j <= families.len(),
            graphics == QueueFlags::graphics_only(),
            forall|k: int| 0 <= k < j ==> !serves_graphics(#[trigger] families@[k], policy),
        decreases families.len() - j,
    {
        if families[j].flags.matches(graphics, policy) {
            return Some(j);
        }
        j += 1;
    }
    None
}

/// Chooses the device to use among `devices`, given in enumeration order.
///
/// With no device the outcome is `NoDevicesFound`. Otherwise the first
/// device with a queue family that serves graphics is chosen, together with
/// the first such family; with no such device the outcome is
/// `NoSuitableDevice`. A single device is judged by the same test. Of the
/// descriptor only the policy bears on the choice, and of the devices only
/// the queue flags: the same list under the same policy always gives the
/// same outcome.
pub fn select(devices: Vec<PhysicalDeviceInfo>, descriptor: &CapabilityDescriptor) -> (chosen:
    Result<SelectedDevice, BootstrapError>)
    ensures
        chosen == selection(devices@, descriptor.policy()),
        chosen is Ok <==> any_suitable(devices@, descriptor.policy()),
        chosen matches Ok(picked) ==> {
            &&& picked.wf()
            &&& is_first_suitable(devices@, descriptor.policy(), picked.device_index as int)
            &&& is_first_graphics_family(
                picked.device.families(),
                descriptor.policy(),
                picked.queue_family as int,
            )
            &&& picked.device == devices@[picked.device_index as int]
        },
        chosen matches Err(error) ==> error == (if devices@.len() == 0 {
            BootstrapError::NoDevicesFound
        } else {
            BootstrapError::NoSuitableDevice
        }),
{
    let policy = descriptor.match_policy();
    let ghost listed = devices@;
    let mut pool = devices;
    if pool.len() == 0 {
        return Err(BootstrapError::NoDevicesFound);
    }
    let mut i: usize = 0;
    while i < pool.len()
        invariant
            i <= pool.len(),
            pool@ == listed,
            listed == devices@,
            policy == descriptor.policy(),
            forall|k: int| 0 <= k < i ==> !is_suitable(#[trigger] listed[k], policy),
        decreases pool.len() - i,
    {
        match first_graphics_family(&pool[i].queue_families, policy) {
            Some(j) => {
                proof {
                    assert(serves_graphics(listed[i as int].families()[j as int], policy));
                    lemma_selection_is_first_match(listed, policy, i as int, j as int);
                }
                let device = pool.swap_remove(i);
                return Ok(SelectedDevice { device_index: i, queue_family: j, device });
            },
            None => {},
        }
        i += 1;
    }
    Err(BootstrapError::NoSuitableDevice)
}

/// Selection has no choice to make: whatever it yields for a list and a
/// policy, it yields on every call with them.
pub proof fn lemma_selection_deterministic(
    devices: Seq<PhysicalDeviceInfo>,
    policy: MatchPolicy,
    once: Result<SelectedDevice, BootstrapError>,
    again: Result<SelectedDevice, BootstrapError>,
)
    requires
        once == selection(devices, policy),
        again == selection(devices, policy),
    ensures
        once == again,
{
}

/// Selection reads nothing but the queue families: two lists whose devices
/// have the same families, one by one, fail alike or give the same device
/// index and the same family index, whatever their handles and classes are.
pub proof fn lemma_selection_reads_queue_families_only(
    left: Seq<PhysicalDeviceInfo>,
    right: Seq<PhysicalDeviceInfo>,
    policy: MatchPolicy,
)
    requires
        left.len() == right.len(),
        forall|i: int| 0 <= i < left.len() ==> (#[trigger] left[i]).families() == right[i].families(),
    ensures
        selection(left, policy) is Ok <==> selection(right, policy) is Ok,
        selection(left, policy) matches Err(error) ==> selection(right, policy) == Err::<
            SelectedDevice,
            BootstrapError,
        >(error),
        selection(left, policy) matches Ok(picked) ==> {
            &&& selection(right, policy)->Ok_0.device_index == picked.device_index
            &&& selection(right, policy)->Ok_0.queue_family == picked.queue_family
        },
{
    assert forall|i: int| 0 <= i < left.len() implies (is_suitable(#[trigger] left[i], policy)
        <==> is_suitable(right[i], policy)) by {
        assert(left[i].families() == right[i].families());
    }
    if any_suitable(left, policy) {
        let w = choose|i: int| 0 <= i < left.len() && is_suitable(#[trigger] left[i], policy);
        assert(is_suitable(right[w], policy));
        lemma_first_suitable_exists(left, policy);
        let i = choose|i: int| is_first_suitable(left, policy, i);
        assert(is_first_suitable(right, policy, i)) by {
            assert(is_suitable(right[i], policy));
            assert forall|k: int| 0 <= k < i implies !is_suitable(#[trigger] right[k], policy) by {
                assert(!is_suitable(left[k], policy));
            }
        }
        lemma_first_graphics_family_exists(left[i].families(), policy);
        let j = choose|j: int| is_first_graphics_family(left[i].families(), policy, j);
        assert(left[i].families() == right[i].families());
        lemma_selection_is_first_match(left, policy, i, j);
        lemma_selection_is_first_match(right, policy, i, j);
    } else {
        if any_suitable(right, policy) {
            let w = choose|i: int| 0 <= i < right.len() && is_suitable(#[trigger] right[i], policy);
            assert(is_suitable(left[w], policy));
        }
    }
}

/// A lone device whose only family has exactly the graphics flag is chosen,
/// with that family, under either policy.
pub proof fn lemma_single_device_exact_flags(devices: Seq<PhysicalDeviceInfo>, policy: MatchPolicy)
    requires
        devices.len() == 1,
        devices[0].families().len() == 1,
        devices[0].families()[0].flags == QueueFlags::graphics_only(),
    ensures
        selection(devices, policy) == Ok::<SelectedDevice, BootstrapError>(
            SelectedDevice { device_index: 0, queue_family: 0, device: devices[0] },
        ),
{
    crate::flags::lemma_includes_reflexive(QueueFlags::graphics_only());
    assert(serves_graphics(devices[0].families()[0], policy));
    assert(is_first_graphics_family(devices[0].families(), policy, 0));
    assert(is_first_suitable(devices, policy, 0));
    lemma_selection_is_first_match(devices, policy, 0, 0);
}

/// Under the exact policy, a lone device whose only family offers graphics
/// together with anything else is turned down: the flags must equal the
/// graphics capability, and a superset of it does not. Under the subset
/// policy the same device is chosen.
pub proof fn lemma_single_device_superset_flags(devices: Seq<PhysicalDeviceInfo>)
    requires
        devices.len() == 1,
        devices[0].families().len() == 1,
        devices[0].families()[0].flags.includes(QueueFlags::graphics_only()),
        devices[0].families()[0].flags != QueueFlags::graphics_only(),
    ensures
        selection(devices, MatchPolicy::Exact) == Err::<SelectedDevice, BootstrapError>(
            BootstrapError::NoSuitableDevice,
        ),
        selection(devices, MatchPolicy::Subset) == Ok::<SelectedDevice, BootstrapError>(
            SelectedDevice { device_index: 0, queue_family: 0, device: devices[0] },
        ),
{
    assert(!is_suitable(devices[0], MatchPolicy::Exact));
    assert(serves_graphics(devices[0].families()[0], MatchPolicy::Subset));
    assert(is_first_graphics_family(devices[0].families(), MatchPolicy::Subset, 0));
    assert(is_first_suitable(devices, MatchPolicy::Subset, 0));
    lemma_selection_is_first_match(devices, MatchPolicy::Subset, 0, 0);
}

/// Of three devices of which the first is unsuitable and the other two are
/// suitable, the second is chosen, never the third.
pub proof fn lemma_first_match_of_three(devices: Seq<PhysicalDeviceInfo>, policy: MatchPolicy)
    requires
        devices.len() == 3,
        !is_suitable(devices[0], policy),
        is_suitable(devices[1], policy),
        is_suitable(devices[2], policy),
    ensures
        selection(devices, policy) is Ok,
        selection(devices, policy)->Ok_0.device_index == 1,
        selection(devices, policy)->Ok_0.device == devices[1],
        selection(devices, policy)->Ok_0.wf(),
{
    assert(is_first_suitable(devices, policy, 1));
    lemma_first_graphics_family_exists(devices[1].families(), policy);
    let j = choose|j: int| is_first_graphics_family(devices[1].families(), policy, j);
    lemma_selection_is_first_match(devices, policy, 1, j);
}

} // verus!
