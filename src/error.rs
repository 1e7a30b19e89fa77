//! Native failure codes and the errors that semaphore operations report.
use vstd::prelude::*;
use crate::handle_type::ExternalSemaphoreHandleType;

verus! {

/// A failure status reported by a native call.
#[derive(Clone, Copy, Debug, PartialEq, Eq, Hash, Structural)]
pub enum Error {
    OutOfHostMemory,
    OutOfDeviceMemory,
    InitializationFailed,
    DeviceLost,
    MemoryMapFailed,
    LayerNotPresent,
    ExtensionNotPresent,
    FeatureNotPresent,
    IncompatibleDriver,
    TooManyObjects,
    FormatNotSupported,
    OutOfPoolMemory,
    InvalidExternalHandle,
}

/// Whether a native failure is one of the two memory exhaustions.
pub open spec fn is_oom(err: Error) -> bool {
    err == Error::OutOfHostMemory || err == Error::OutOfDeviceMemory
}

/// Whether a native status is one that the calls made here may report: success, or
/// memory exhaustion. Any other failure means that a precondition of the call was broken.
pub open spec fn native_status_expected<T>(status: Result<T, Error>) -> bool {
    match status {
        Ok(_) => true,
        Err(e) => is_oom(e),
    }
}

/// Memory exhaustion during a native creation.
#[derive(Clone, Copy, Debug, PartialEq, Eq, Hash, Structural)]
pub enum OomError {
    /// There is no memory available on the host (ie. the CPU, RAM, etc.).
    OutOfHostMemory,
    /// There is no memory available on the device (ie. video memory).
    OutOfDeviceMemory,
}

/// The memory error that a native memory failure stands for.
pub open spec fn oom_of(err: Error) -> OomError
    recommends
        is_oom(err),
{
    if err == Error::OutOfHostMemory {
        OomError::OutOfHostMemory
    } else {
        OomError::OutOfDeviceMemory
    }
}

impl OomError {
    /// Translates a native memory failure. Any other failure is a broken precondition
    /// of the native call and has no translation.
    pub fn from_native(err: Error) -> (r: OomError)
        requires
            is_oom(err),
        ensures
            r == oom_of(err),
            err == Error::OutOfHostMemory <==> r == OomError::OutOfHostMemory,
    {
        match err {
            Error::OutOfHostMemory => OomError::OutOfHostMemory,
            _ => OomError::OutOfDeviceMemory,
        }
    }

    /// The native failure this error stands for.
    pub fn to_native(&self) -> (r: Error)
        ensures
            is_oom(r),
            oom_of(r) == *self,
    {
        match *self {
            OomError::OutOfHostMemory => Error::OutOfHostMemory,
            OomError::OutOfDeviceMemory => Error::OutOfDeviceMemory,
        }
    }

    /// A short description of the error.
    pub fn description(&self) -> (r: &'static str)
        ensures
            r == self.message(),
    {
        match *self {
            OomError::OutOfHostMemory => "no memory available on the host",
            OomError::OutOfDeviceMemory => "no memory available on the graphical device",
        }
    }

    /// The text that `description` returns.
    pub open spec fn message(self) -> &'static str {
        match self {
            OomError::OutOfHostMemory => "no memory available on the host",
            OomError::OutOfDeviceMemory => "no memory available on the graphical device",
        }
    }
}

/// Error that can be returned when dealing with external semaphores.
#[derive(Clone, Copy, Debug, PartialEq, Eq, Structural)]
pub enum ExternalSemaphoreError {
    /// No memory available.
    OomError(OomError),
    /// Instance extension `VK_KHR_get_physical_device_properties2` not enabled.
    GetPhysicalDeviceProperties2NotEnabled,
    /// Device extension `VK_KHR_external_semaphore` not enabled.
    ExternalSemaphoreNotEnabled,
    /// Instance extension `VK_KHR_external_semaphore_capabilities` not enabled.
    ExternalSemaphoreCapabilitiesNotEnabled,
    /// Device extension `VK_KHR_external_semaphore_fd` not enabled.
    ExternalSemaphoreFdNotEnabled,
    /// Device extension `VK_KHR_external_semaphore_win32` not enabled.
    ExternalSemaphoreWin32NotEnabled,
    /// Requested handle type not supported by the implementation.
    HandleTypeNotSupported(ExternalSemaphoreHandleType),
    /// Requested handle types are not compatible.
    IncompatibleHandleTypes(ExternalSemaphoreHandleType, ExternalSemaphoreHandleType),
}

impl ExternalSemaphoreError {
    /// Translates a native memory failure. Any other failure is a broken precondition
    /// of the native call and has no translation.
    pub fn from_native(err: Error) -> (r: ExternalSemaphoreError)
        requires
            is_oom(err),
        ensures
            r == ExternalSemaphoreError::OomError(oom_of(err)),
    {
        ExternalSemaphoreError::OomError(OomError::from_native(err))
    }

    /// Whether the error was detected before any native call, from the device's
    /// capabilities alone.
    pub open spec fn is_capability_error(self) -> bool {
        !(self is OomError)
    }

    /// The memory error underneath, if this is one.
    pub fn cause(&self) -> (r: Option<OomError>)
        ensures
            match *self {
                ExternalSemaphoreError::OomError(e) => r == Some(e),
                _ => r is None,
            },
    {
        match *self {
            ExternalSemaphoreError::OomError(e) => Some(e),
            _ => None,
        }
    }

    /// A short description of the error.
    pub fn description(&self) -> (r: &'static str)
        ensures
            r == self.message(),
    {
        match *self {
            ExternalSemaphoreError::OomError(_) => "no memory available",
            ExternalSemaphoreError::GetPhysicalDeviceProperties2NotEnabled =>
                "instance extension `VK_KHR_get_physical_device_properties2` not enabled",
            ExternalSemaphoreError::ExternalSemaphoreNotEnabled =>
                "device extension `VK_KHR_external_semaphore` not enabled",
            ExternalSemaphoreError::ExternalSemaphoreCapabilitiesNotEnabled =>
                "instance extension `VK_KHR_external_semaphore_capabilities` not enabled",
            ExternalSemaphoreError::ExternalSemaphoreFdNotEnabled =>
                "device extension `VK_KHR_external_semaphore_fd` not enabled",
            ExternalSemaphoreError::ExternalSemaphoreWin32NotEnabled =>
                "device extension `VK_KHR_external_semaphore_win32` not enabled",
            ExternalSemaphoreError::HandleTypeNotSupported(_) =>
                "requested handle type not supported by the implementation",
            ExternalSemaphoreError::IncompatibleHandleTypes(_, _) =>
                "requested handle types are not compatible",
        }
    }

    /// The text that `description` returns.
    pub open spec fn message(self) -> &'static str {
        match self {
            ExternalSemaphoreError::OomError(_) => "no memory available",
            ExternalSemaphoreError::GetPhysicalDeviceProperties2NotEnabled =>
                "instance extension `VK_KHR_get_physical_device_properties2` not enabled",
            ExternalSemaphoreError::ExternalSemaphoreNotEnabled =>
                "device extension `VK_KHR_external_semaphore` not enabled",
            ExternalSemaphoreError::ExternalSemaphoreCapabilitiesNotEnabled =>
                "instance extension `VK_KHR_external_semaphore_capabilities` not enabled",
            ExternalSemaphoreError::ExternalSemaphoreFdNotEnabled =>
                "device extension `VK_KHR_external_semaphore_fd` not enabled",
            ExternalSemaphoreError::ExternalSemaphoreWin32NotEnabled =>
                "device extension `VK_KHR_external_semaphore_win32` not enabled",
            ExternalSemaphoreError::HandleTypeNotSupported(_) =>
                "requested handle type not supported by the implementation",
            ExternalSemaphoreError::IncompatibleHandleTypes(_, _) =>
                "requested handle types are not compatible",
        }
    }
}

impl From<OomError> for ExternalSemaphoreError {
    fn from(err: OomError) -> (r: ExternalSemaphoreError) {
        ExternalSemaphoreError::OomError(err)
    }
}

impl vstd::std_specs::convert::FromSpecImpl<OomError> for ExternalSemaphoreError {
    open spec fn obeys_from_spec() -> bool {
        true
    }

    open spec fn from_spec(err: OomError) -> ExternalSemaphoreError {
        ExternalSemaphoreError::OomError(err)
    }
}

} // verus!
