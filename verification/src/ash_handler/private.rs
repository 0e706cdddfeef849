//! The construction steps that only the handler itself may take.

use vstd::prelude::*;
use crate::ash_handler::{next_stage, response, Action, Event, Stage};
use crate::descriptor::CapabilityDescriptor;
use crate::device::PhysicalDeviceInfo;
use crate::flags::MatchPolicy;
use crate::selector::SelectedDevice;

verus! {

/// The steps of the bootstrap that follow the creation of the instance.
/// Each takes what the bootstrap holds when the step is pending, together
/// with what came back from the host, and decides how the bootstrap goes on.
///
/// The trait is not nameable outside this crate, so no other type can take
/// the place of the handler.
pub trait Sealed: Sized {
    /// Decides on the outcome of creating the surface for `instance`.
    fn make_surface(instance: u64, event: Event) -> (out: (Stage, Action))
        ensures
            forall|policy: MatchPolicy|
                out.0 == #[trigger] next_stage(Stage::CreatingSurface { instance }, event, policy),
            forall|policy: MatchPolicy, portable: bool|
                out.1@ == #[trigger] response(
                    Stage::CreatingSurface { instance },
                    event,
                    policy,
                    portable,
                ),
    ;

    /// Selects the physical device among those enumerated on `instance`.
    fn make_physical_device(
        instance: u64,
        surface: u64,
        devices: Vec<PhysicalDeviceInfo>,
        descriptor: &CapabilityDescriptor,
    ) -> (out: (Stage, Action))
        ensures
            out.0 == next_stage(
                Stage::SelectingDevice { instance, surface },
                Event::DevicesEnumerated { devices },
                descriptor.policy(),
            ),
            forall|portable: bool|
                out.1@ == #[trigger] response(
                    Stage::SelectingDevice { instance, surface },
                    Event::DevicesEnumerated { devices },
                    descriptor.policy(),
                    portable,
                ),
    ;

    /// Decides on the outcome of creating the logical device on `selected`.
    fn make_logical_device(
        instance: u64,
        surface: u64,
        selected: SelectedDevice,
        event: Event,
    ) -> (out: (Stage, Action))
        ensures
            forall|policy: MatchPolicy|
                out.0 == #[trigger] next_stage(
                    Stage::CreatingDevice { instance, surface, selected },
                    event,
                    policy,
                ),
            forall|policy: MatchPolicy, portable: bool|
                out.1@ == #[trigger] response(
                    Stage::CreatingDevice { instance, surface, selected },
                    event,
                    policy,
                    portable,
                ),
    ;
}

} // verus!
