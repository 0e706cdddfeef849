//! The life of a graphics context, from nothing to a usable context and on
//! to its release.
//!
//! The handler takes no step against the host itself. It says what is to be
//! done next, is told what came of it, and decides how to go on. Objects are
//! created in a fixed order: the entry point is loaded, then the instance,
//! the surface and the logical device are created, with the choice of the
//! physical device before the last. A step that fails ends the construction:
//! the handler then names, in the order of release, everything that was
//! created before, and the failure. Release runs against the order of
//! creation, so the instance always goes last.

use vstd::prelude::*;
use crate::ash_api;
use crate::descriptor::CapabilityDescriptor;
use crate::device::PhysicalDeviceInfo;
use crate::error::BootstrapError;
use crate::flags::MatchPolicy;
use crate::ash_handler::ledger::{lemma_run_account, stage_after};
use crate::ash_handler::private::Sealed;
use crate::selector::{select, selection, SelectedDevice};

pub mod ledger;
pub(crate) mod private;

verus! {

/// The variant of the API version asked of the host.
pub const API_VARIANT: u32 = 0;

/// The major number of the API version asked of the host.
pub const API_MAJOR: u32 = 1;

/// The minor number of the API version asked of the host.
pub const API_MINOR: u32 = 2;

/// The patch number of the API version asked of the host.
pub const API_PATCH: u32 = 0;

/// An object of the API that a context owns, by kind and raw handle.
#[derive(Clone, Copy, Debug, PartialEq, Eq, Structural)]
pub enum Resource {
    Instance(u64),
    Surface(u64),
    Device(u64),
}

/// What the handler asks of the host.
#[derive(Clone, Copy, Debug, PartialEq, Eq, Structural)]
pub enum Request {
    /// Load the entry point of the API.
    LoadEntry,
    /// Create the instance for this packed API version, with these flags.
    CreateInstance { api_version: u32, flags: u32 },
    /// Create the surface that binds the native window to the instance.
    CreateSurface { instance: u64 },
    /// List the physical devices of the instance with their queue families.
    EnumerateDevices { instance: u64 },
    /// Create the logical device on the chosen physical device and family.
    CreateDevice { instance: u64, physical_device: u64, queue_family: usize },
}

/// What the host answered, or what the caller wants.
#[derive(Clone, Debug, PartialEq, Eq)]
pub enum Event {
    EntryLoaded,
    EntryUnavailable { reason: String },
    InstanceCreated { instance: u64 },
    InstanceRejected { code: i32 },
    SurfaceCreated { surface: u64 },
    SurfaceRejected { code: i32 },
    /// The windowing layer had no window to bind the surface to.
    WindowUnavailable { reason: String },
    /// The devices of the instance, in the order the host listed them.
    DevicesEnumerated { devices: Vec<PhysicalDeviceInfo> },
    DeviceCreated { device: u64 },
    DeviceRejected { code: i32 },
    /// The caller is done with the context.
    Shutdown,
}

/// Where a handler stands, with what it holds there.
#[derive(Clone, Debug, PartialEq, Eq)]
pub enum Stage {
    LoadingEntry,
    CreatingInstance,
    CreatingSurface { instance: u64 },
    SelectingDevice { instance: u64, surface: u64 },
    CreatingDevice { instance: u64, surface: u64, selected: SelectedDevice },
    /// The context is complete and in use.
    Ready { instance: u64, surface: u64, selected: SelectedDevice, device: u64 },
    /// The context was complete and has been released.
    Closed,
    /// The construction failed and what it had created has been released.
    Failed,
}

/// What the driver of the handler is to do.
#[derive(Clone, Debug, PartialEq, Eq)]
pub enum Action {
    /// Carry out the request and report what came of it.
    Perform(Request),
    /// Nothing: the context is complete. Report `Shutdown` when done with it.
    Serve,
    /// Release these objects in this order, then report the failure: the
    /// construction is over and no context came of it.
    Abort { release: Vec<Resource>, error: BootstrapError },
    /// Release these objects in this order: the context is no more.
    Teardown { release: Vec<Resource> },
    /// Nothing, ever again.
    Halt,
}

/// An action as a value of mathematics: the lists are sequences.
pub ghost enum ActionView {
    Perform(Request),
    Serve,
    Abort { release: Seq<Resource>, error: BootstrapError },
    Teardown { release: Seq<Resource> },
    Halt,
}

impl View for Action {
    type V = ActionView;

    open spec fn view(&self) -> ActionView {
        match self {
            Action::Perform(request) => ActionView::Perform(*request),
            Action::Serve => ActionView::Serve,
            Action::Abort { release, error } => ActionView::Abort {
                release: release@,
                error: *error,
            },
            Action::Teardown { release } => ActionView::Teardown { release: release@ },
            Action::Halt => ActionView::Halt,
        }
    }
}

impl Stage {
    /// What the handler holds at this stage, in the order of creation.
    pub open spec fn held(self) -> Seq<Resource> {
        match self {
            Stage::CreatingSurface { instance } => seq![Resource::Instance(instance)],
            Stage::SelectingDevice { instance, surface } => seq![
                Resource::Instance(instance),
                Resource::Surface(surface),
            ],
            Stage::CreatingDevice { instance, surface, .. } => seq![
                Resource::Instance(instance),
                Resource::Surface(surface),
            ],
            Stage::Ready { instance, surface, device, .. } => seq![
                Resource::Instance(instance),
                Resource::Surface(surface),
                Resource::Device(device),
            ],
            _ => Seq::empty(),
        }
    }

    /// The order in which what is held at this stage is released: the
    /// logical device, then the surface, then the instance, as far as each
    /// is held.
    pub open spec fn release_order(self) -> Seq<Resource> {
        match self {
            Stage::CreatingSurface { instance } => seq![Resource::Instance(instance)],
            Stage::SelectingDevice { instance, surface } => seq![
                Resource::Surface(surface),
                Resource::Instance(instance),
            ],
            Stage::CreatingDevice { instance, surface, .. } => seq![
                Resource::Surface(surface),
                Resource::Instance(instance),
            ],
            Stage::Ready { instance, surface, device, .. } => seq![
                Resource::Device(device),
                Resource::Surface(surface),
                Resource::Instance(instance),
            ],
            _ => Seq::empty(),
        }
    }

    /// Whether nothing can follow this stage.
    pub open spec fn is_terminal(self) -> bool {
        self is Closed || self is Failed
    }

    /// Whether the device chosen at this stage, if one is, was chosen with a
    /// family that serves graphics.
    pub open spec fn wf(self) -> bool {
        match self {
            Stage::CreatingDevice { selected, .. } => selected.wf(),
            Stage::Ready { selected, .. } => selected.wf(),
            _ => true,
        }
    }
}

/// The flags the instance is created with.
pub open spec fn instance_flags(portable: bool) -> u32 {
    if portable {
        0x1
    } else {
        0
    }
}

/// What a handler at `stage` waits for.
pub open spec fn pending(stage: Stage, portable: bool) -> ActionView {
    match stage {
        Stage::LoadingEntry => ActionView::Perform(Request::LoadEntry),
        Stage::CreatingInstance => ActionView::Perform(
            Request::CreateInstance {
                api_version: ash_api::packed_version(API_VARIANT, API_MAJOR, API_MINOR, API_PATCH),
                flags: instance_flags(portable),
            },
        ),
        Stage::CreatingSurface { instance } => ActionView::Perform(
            Request::CreateSurface { instance },
        ),
        Stage::SelectingDevice { instance, .. } => ActionView::Perform(
            Request::EnumerateDevices { instance },
        ),
        Stage::CreatingDevice { instance, selected, .. } => ActionView::Perform(
            Request::CreateDevice {
                instance,
                physical_device: selected.device.handle,
                queue_family: selected.queue_family,
            },
        ),
        Stage::Ready { .. } => ActionView::Serve,
        Stage::Closed => ActionView::Halt,
        Stage::Failed => ActionView::Halt,
    }
}

/// The failure with which `event` ends a construction that stands at
/// `stage`, if it does end it.
pub open spec fn failure(stage: Stage, event: Event, policy: MatchPolicy) -> Option<
    BootstrapError,
> {
    match (stage, event) {
        (Stage::LoadingEntry, Event::EntryUnavailable { reason }) => Some(
            BootstrapError::EntryLoadError { reason },
        ),
        (Stage::CreatingInstance, Event::InstanceRejected { code }) => Some(
            BootstrapError::InstanceCreationError { code },
        ),
        (Stage::CreatingSurface { .. }, Event::SurfaceRejected { code }) => Some(
            BootstrapError::SurfaceCreationError { code },
        ),
        (Stage::CreatingSurface { .. }, Event::WindowUnavailable { reason }) => Some(
            BootstrapError::WindowCreationError { reason },
        ),
        (Stage::SelectingDevice { .. }, Event::DevicesEnumerated { devices }) => match selection(
            devices@,
            policy,
        ) {
            Ok(_) => None,
            Err(error) => Some(error),
        },
        (Stage::CreatingDevice { .. }, Event::DeviceRejected { code }) => Some(
            BootstrapError::DeviceCreationError { code },
        ),
        _ => None,
    }
}

/// The stage that follows `stage` on `event`, with devices chosen under
/// `policy`. An event that does not answer what the stage waits for changes
/// nothing.
pub open spec fn next_stage(stage: Stage, event: Event, policy: MatchPolicy) -> Stage {
    if failure(stage, event, policy) is Some {
        Stage::Failed
    } else {
        match (stage, event) {
            (Stage::LoadingEntry, Event::EntryLoaded) => Stage::CreatingInstance,
            (Stage::CreatingInstance, Event::InstanceCreated { instance }) => Stage::CreatingSurface {
                instance,
            },
            (Stage::CreatingSurface { instance }, Event::SurfaceCreated { surface }) => {
                Stage::SelectingDevice { instance, surface }
            },
            (Stage::SelectingDevice { instance, surface }, Event::DevicesEnumerated { devices }) => {
                Stage::CreatingDevice {
                    instance,
                    surface,
                    selected: selection(devices@, policy)->Ok_0,
                }
            },
            (
                Stage::CreatingDevice { instance, surface, selected },
                Event::DeviceCreated { device },
            ) => Stage::Ready { instance, surface, selected, device },
            (Stage::Ready { .. }, Event::Shutdown) => Stage::Closed,
            _ => stage,
        }
    }
}

/// What the handler answers to `event` at `stage`.
pub open spec fn response(stage: Stage, event: Event, policy: MatchPolicy, portable: bool)
    -> ActionView {
    if stage.is_terminal() {
        ActionView::Halt
    } else if failure(stage, event, policy) is Some {
        ActionView::Abort {
            release: stage.release_order(),
            error: failure(stage, event, policy)->Some_0,
        }
    } else if stage is Ready && event is Shutdown {
        ActionView::Teardown { release: stage.release_order() }
    } else {
        pending(next_stage(stage, event, policy), portable)
    }
}

/// A handler that can be made from nothing, before any step is taken.
pub trait GraphisHandler: Sealed + Sized {
    fn new() -> Self;
}

/// Where a handler stands, together with the events that brought it there.
struct Progress {
    stage: Stage,
    history: Ghost<Seq<Event>>,
}

/// The one handler of a graphics context. It owns the context's instance,
/// surface, chosen device and logical device, and nothing else does.
pub struct AshHandler {
    descriptor: CapabilityDescriptor,
    portable: bool,
    progress: Progress,
}

impl View for AshHandler {
    type V = Stage;

    closed spec fn view(&self) -> Stage {
        self.progress.stage
    }
}

impl GraphisHandler for AshHandler {
    /// A handler at the start of the bootstrap, for a device with graphics
    /// queues and an instance that also lists portability devices.
    fn new() -> (handler: AshHandler)
        ensures
            handler@ == Stage::LoadingEntry,
            handler.portable(),
            handler.requirements().flags() == crate::flags::QueueFlags::graphics_only(),
            handler.requirements().names() == Seq::<Seq<char>>::empty(),
            handler.requirements().policy() == MatchPolicy::Exact,
            handler.history() == Seq::<Event>::empty(),
    {
        AshHandler::with_descriptor(CapabilityDescriptor::graphics(), true)
    }
}

impl Sealed for AshHandler {
    fn make_surface(instance: u64, event: Event) -> (out: (Stage, Action)) {
        match event {
            Event::SurfaceCreated { surface } => (
                Stage::SelectingDevice { instance, surface },
                Action::Perform(Request::EnumerateDevices { instance }),
            ),
            Event::SurfaceRejected { code } => (
                Stage::Failed,
                Action::Abort {
                    release: release_instance(instance),
                    error: BootstrapError::SurfaceCreationError { code },
                },
            ),
            Event::WindowUnavailable { reason } => (
                Stage::Failed,
                Action::Abort {
                    release: release_instance(instance),
                    error: BootstrapError::WindowCreationError { reason },
                },
            ),
            _ => (
                Stage::CreatingSurface { instance },
                Action::Perform(Request::CreateSurface { instance }),
            ),
        }
    }

    fn make_physical_device(
        instance: u64,
        surface: u64,
        devices: Vec<PhysicalDeviceInfo>,
        descriptor: &CapabilityDescriptor,
    ) -> (out: (Stage, Action)) {
        match select(devices, descriptor) {
            Ok(selected) => {
                let request = Request::CreateDevice {
                    instance,
                    physical_device: selected.device.handle,
                    queue_family: selected.queue_family,
                };
                (Stage::CreatingDevice { instance, surface, selected }, Action::Perform(request))
            },
            Err(error) => (
                Stage::Failed,
                Action::Abort { release: release_surface(instance, surface), error },
            ),
        }
    }

    fn make_logical_device(
        instance: u64,
        surface: u64,
        selected: SelectedDevice,
        event: Event,
    ) -> (out: (Stage, Action)) {
        match event {
            Event::DeviceCreated { device } => (
                Stage::Ready { instance, surface, selected, device },
                Action::Serve,
            ),
            Event::DeviceRejected { code } => (
                Stage::Failed,
                Action::Abort {
                    release: release_surface(instance, surface),
                    error: BootstrapError::DeviceCreationError { code },
                },
            ),
            _ => {
                let request = Request::CreateDevice {
                    instance,
                    physical_device: selected.device.handle,
                    queue_family: selected.queue_family,
                };
                (Stage::CreatingDevice { instance, surface, selected }, Action::Perform(request))
            },
        }
    }
}

/// The release of a context that holds an instance alone.
fn release_instance(instance: u64) -> (release: Vec<Resource>)
    ensures
        release@ == seq![Resource::Instance(instance)],
{
    let mut release: Vec<Resource> = Vec::new();
    release.push(Resource::Instance(instance));
    release
}

/// The release of a context that holds an instance and a surface.
fn release_surface(instance: u64, surface: u64) -> (release: Vec<Resource>)
    ensures
        release@ == seq![Resource::Surface(surface), Resource::Instance(instance)],
{
    let mut release: Vec<Resource> = Vec::new();
    release.push(Resource::Surface(surface));
    release.push(Resource::Instance(instance));
    release
}

/// The release of a complete context.
fn release_device(instance: u64, surface: u64, device: u64) -> (release: Vec<Resource>)
    ensures
        release@ == seq![
            Resource::Device(device),
            Resource::Surface(surface),
            Resource::Instance(instance),
        ],
{
    let mut release: Vec<Resource> = Vec::new();
    release.push(Resource::Device(device));
    release.push(Resource::Surface(surface));
    release.push(Resource::Instance(instance));
    release
}

/// The request for the instance.
fn instance_request(portable: bool) -> (request: Request)
    ensures
        ActionView::Perform(request) == pending(Stage::CreatingInstance, portable),
{
    let api_version = ash_api::make_api_version(API_VARIANT, API_MAJOR, API_MINOR, API_PATCH);
    let flags: u32 = if portable {
        ash_api::instance_portability_bit()
    } else {
        0
    };
    Request::CreateInstance { api_version, flags }
}

/// One step of a handler: the stage that follows `stage` on `event`, and
/// what is to be done then.
pub fn transition(
    stage: Stage,
    event: Event,
    descriptor: &CapabilityDescriptor,
    portable: bool,
) -> (out: (Stage, Action))
    ensures
        out.0 == next_stage(stage, event, descriptor.policy()),
        out.1@ == response(stage, event, descriptor.policy(), portable),
{
    match stage {
        Stage::LoadingEntry => match event {
            Event::EntryLoaded => (
                Stage::CreatingInstance,
                Action::Perform(instance_request(portable)),
            ),
            Event::EntryUnavailable { reason } => (
                Stage::Failed,
                Action::Abort {
                    release: Vec::new(),
                    error: BootstrapError::EntryLoadError { reason },
                },
            ),
            _ => (Stage::LoadingEntry, Action::Perform(Request::LoadEntry)),
        },
        Stage::CreatingInstance => match event {
            Event::InstanceCreated { instance } => (
                Stage::CreatingSurface { instance },
                Action::Perform(Request::CreateSurface { instance }),
            ),
            Event::InstanceRejected { code } => (
                Stage::Failed,
                Action::Abort {
                    release: Vec::new(),
                    error: BootstrapError::InstanceCreationError { code },
                },
            ),
            _ => (Stage::CreatingInstance, Action::Perform(instance_request(portable))),
        },
        Stage::CreatingSurface { instance } => AshHandler::make_surface(instance, event),
        Stage::SelectingDevice { instance, surface } => match event {
            Event::DevicesEnumerated { devices } => AshHandler::make_physical_device(
                instance,
                surface,
                devices,
                descriptor,
            ),
            _ => (
                Stage::SelectingDevice { instance, surface },
                Action::Perform(Request::EnumerateDevices { instance }),
            ),
        },
        Stage::CreatingDevice { instance, surface, selected } => AshHandler::make_logical_device(
            instance,
            surface,
            selected,
            event,
        ),
        Stage::Ready { instance, surface, selected, device } => match event {
            Event::Shutdown => (
                Stage::Closed,
                Action::Teardown { release: release_device(instance, surface, device) },
            ),
            _ => (Stage::Ready { instance, surface, selected, device }, Action::Serve),
        },
        Stage::Closed => (Stage::Closed, Action::Halt),
        Stage::Failed => (Stage::Failed, Action::Halt),
    }
}

impl AshHandler {
    /// The requirements the handler was made for.
    pub closed spec fn requirements(&self) -> CapabilityDescriptor {
        self.descriptor
    }

    /// Whether the instance is asked to list portability devices too.
    pub closed spec fn portable(&self) -> bool {
        self.portable
    }

    /// The events the handler has been given, in order.
    pub closed spec fn history(&self) -> Seq<Event> {
        self.progress.history@
    }

    /// A handler stands where its events have brought it.
    #[verifier::type_invariant]
    closed spec fn stands_by_history(&self) -> bool {
        self.progress.stage == stage_after(self.progress.history@, self.descriptor.policy())
    }

    /// A handler at the start of the bootstrap, for the given requirements.
    /// With `portable` the instance is asked to list portability devices
    /// too, as a host needs that offers the API through a layer.
    pub fn with_descriptor(descriptor: CapabilityDescriptor, portable: bool) -> (handler:
        AshHandler)
        ensures
            handler@ == Stage::LoadingEntry,
            handler.portable() == portable,
            handler.requirements() == descriptor,
            handler.history() == Seq::<Event>::empty(),
    {
        AshHandler {
            descriptor,
            portable,
            progress: Progress { stage: Stage::LoadingEntry, history: Ghost(Seq::empty()) },
        }
    }

    /// Takes note of `event` and says what is to be done next.
    ///
    /// An event that answers what the handler waits for moves it on: to the
    /// next step, or, if the step failed, to the end, with the order to
    /// release what the earlier steps created and with the failure. Any
    /// other event leaves the handler where it stands and has it repeat what
    /// it waits for. A complete context changes on `Shutdown` alone, which
    /// orders its release. After a failure or a release nothing changes any
    /// more.
    pub fn advance(&mut self, event: Event) -> (action: Action)
        ensures
            final(self)@ == next_stage(old(self)@, event, old(self).requirements().policy()),
            action@ == response(
                old(self)@,
                event,
                old(self).requirements().policy(),
                old(self).portable(),
            ),
            final(self).portable() == old(self).portable(),
            final(self).requirements() == old(self).requirements(),
            final(self).history() == old(self).history().push(event),
            final(self)@ == stage_after(final(self).history(), final(self).requirements().policy()),
    {
        proof {
            use_type_invariant(&*self);
        }
        let ghost before = self.progress.history@;
        let ghost events = before.push(event);
        let mut progress = Progress { stage: Stage::LoadingEntry, history: Ghost(Seq::empty()) };
        core::mem::swap(&mut self.progress, &mut progress);
        let (next, action) = transition(progress.stage, event, &self.descriptor, self.portable);
        proof {
            assert(events.drop_last() =~= before);
        }
        self.progress = Progress { stage: next, history: Ghost(events) };
        action
    }

    /// What the handler waits for where it stands.
    pub fn awaits(&self) -> (action: Action)
        ensures
            action@ == pending(self@, self.portable()),
    {
        match &self.progress.stage {
            Stage::LoadingEntry => Action::Perform(Request::LoadEntry),
            Stage::CreatingInstance => Action::Perform(instance_request(self.portable)),
            Stage::CreatingSurface { instance } => Action::Perform(
                Request::CreateSurface { instance: *instance },
            ),
            Stage::SelectingDevice { instance, .. } => Action::Perform(
                Request::EnumerateDevices { instance: *instance },
            ),
            Stage::CreatingDevice { instance, selected, .. } => Action::Perform(
                Request::CreateDevice {
                    instance: *instance,
                    physical_device: selected.device.handle,
                    queue_family: selected.queue_family,
                },
            ),
            Stage::Ready { .. } => Action::Serve,
            Stage::Closed => Action::Halt,
            Stage::Failed => Action::Halt,
        }
    }

    /// Where the handler stands, with what it holds: the stage to which the
    /// events it was given have brought it. A device chosen on the way was
    /// chosen with a family that holds the graphics capability.
    pub fn stage(&self) -> (stage: &Stage)
        ensures
            *stage == self@,
            self@ == stage_after(self.history(), self.requirements().policy()),
            stage.wf(),
    {
        proof {
            use_type_invariant(self);
            lemma_run_account(self.history(), self.requirements().policy(), self.portable());
        }
        &self.progress.stage
    }

    /// The requirements the handler was made for.
    pub fn descriptor(&self) -> (descriptor: &CapabilityDescriptor)
        ensures
            *descriptor == self.requirements(),
    {
        &self.descriptor
    }

    /// Whether the context is complete and in use.
    pub fn is_ready(&self) -> (ready: bool)
        ensures
            ready == (self@ is Ready),
    {
        match &self.progress.stage {
            Stage::Ready { .. } => true,
            _ => false,
        }
    }
}

} // verus!
