//! Why a bootstrap did not yield a context.

use vstd::prelude::*;

verus! {

/// The step of the bootstrap at which something was attempted.
#[derive(Clone, Copy, Debug, PartialEq, Eq, Structural)]
pub enum Step {
    LoadEntry,
    CreateInstance,
    CreateSurface,
    SelectDevice,
    CreateDevice,
}

/// A failed bootstrap. Each kind ends the construction; none is retried.
#[derive(Clone, Debug, PartialEq, Eq)]
pub enum BootstrapError {
    /// The API's entry point could not be loaded on this host.
    EntryLoadError { reason: String },
    /// The host refused to create the instance, with this status code.
    InstanceCreationError { code: i32 },
    /// No surface could be bound to the native window.
    SurfaceCreationError { code: i32 },
    /// The instance exposes no physical device at all.
    NoDevicesFound,
    /// There are devices, but none has a suitable queue family.
    NoSuitableDevice,
    /// The host refused to create the logical device.
    DeviceCreationError { code: i32 },
    /// The windowing layer could not supply a window.
    WindowCreationError { reason: String },
}

impl BootstrapError {
    /// The step at which this kind of failure arises.
    pub open spec fn origin(&self) -> Step {
        match self {
            BootstrapError::EntryLoadError { .. } => Step::LoadEntry,
            BootstrapError::InstanceCreationError { .. } => Step::CreateInstance,
            BootstrapError::SurfaceCreationError { .. } => Step::CreateSurface,
            BootstrapError::WindowCreationError { .. } => Step::CreateSurface,
            BootstrapError::NoDevicesFound => Step::SelectDevice,
            BootstrapError::NoSuitableDevice => Step::SelectDevice,
            BootstrapError::DeviceCreationError { .. } => Step::CreateDevice,
        }
    }

    /// The status code of the host, for the kinds that carry one.
    pub open spec fn code(&self) -> Option<i32> {
        match self {
            BootstrapError::InstanceCreationError { code } => Some(*code),
            BootstrapError::SurfaceCreationError { code } => Some(*code),
            BootstrapError::DeviceCreationError { code } => Some(*code),
            _ => None,
        }
    }

    /// The step at which the failure arose.
    pub fn step(&self) -> (step: Step)
        ensures
            step == self.origin(),
    {
        match self {
            BootstrapError::EntryLoadError { .. } => Step::LoadEntry,
            BootstrapError::InstanceCreationError { .. } => Step::CreateInstance,
            BootstrapError::SurfaceCreationError { .. } => Step::CreateSurface,
            BootstrapError::WindowCreationError { .. } => Step::CreateSurface,
            BootstrapError::NoDevicesFound => Step::SelectDevice,
            BootstrapError::NoSuitableDevice => Step::SelectDevice,
            BootstrapError::DeviceCreationError { .. } => Step::CreateDevice,
        }
    }

    /// The host's status code, if the failure carries one.
    pub fn status_code(&self) -> (code: Option<i32>)
        ensures
            code == self.code(),
    {
        match self {
            BootstrapError::InstanceCreationError { code } => Some(*code),
            BootstrapError::SurfaceCreationError { code } => Some(*code),
            BootstrapError::DeviceCreationError { code } => Some(*code),
            _ => None,
        }
    }
}

} // verus!
