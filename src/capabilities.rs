//! What an instance and a device can do, as queried once from the native layer.
use vstd::prelude::*;
use crate::handle_type::ExternalSemaphoreHandleType;

verus! {

/// The instance extensions that external semaphores depend on.
#[derive(Clone, Copy, Debug, PartialEq, Eq, Structural)]
pub struct InstanceExtensions {
    /// `VK_KHR_get_physical_device_properties2` is loaded.
    pub khr_get_physical_device_properties2: bool,
    /// `VK_KHR_external_semaphore_capabilities` is loaded.
    pub khr_external_semaphore_capabilities: bool,
}

/// The device extensions that semaphores and debug markers depend on.
#[derive(Clone, Copy, Debug, PartialEq, Eq, Structural)]
pub struct DeviceExtensions {
    /// `VK_KHR_external_semaphore` is enabled.
    pub khr_external_semaphore: bool,
    /// `VK_KHR_external_semaphore_fd` is enabled.
    pub khr_external_semaphore_fd: bool,
    /// `VK_KHR_external_semaphore_win32` is enabled.
    pub khr_external_semaphore_win32: bool,
    /// `VK_EXT_debug_marker` is enabled.
    pub ext_debug_marker: bool,
}

/// What the physical device reports for one external semaphore handle type.
#[derive(Clone, Copy, Debug, PartialEq, Eq, Structural)]
pub struct ExternalSemaphoreProperties {
    /// Handle types that a semaphore exported to this type can be imported from.
    pub export_from_imported_handle_types: u32,
    /// Handle types that can be requested together with this one, as native flag bits.
    pub compatible_handle_types: u32,
    /// Native feature flags; zero when the handle type is not supported at all.
    pub external_semaphore_features: u32,
}

/// The external semaphore properties of a physical device, one entry per handle type.
#[derive(Clone, Copy, Debug, PartialEq, Eq, Structural)]
pub struct ExternalSemaphorePropertiesTable {
    pub opaque_fd: ExternalSemaphoreProperties,
    pub opaque_win32: ExternalSemaphoreProperties,
    pub opaque_win32_kmt: ExternalSemaphoreProperties,
    pub d3d12_fence: ExternalSemaphoreProperties,
    pub sync_fd: ExternalSemaphoreProperties,
}

impl ExternalSemaphorePropertiesTable {
    /// The entry of a handle type.
    pub open spec fn entry(&self, handle_type: ExternalSemaphoreHandleType) -> ExternalSemaphoreProperties {
        match handle_type {
            ExternalSemaphoreHandleType::OpaqueFd => self.opaque_fd,
            ExternalSemaphoreHandleType::OpaqueWin32 => self.opaque_win32,
            ExternalSemaphoreHandleType::OpaqueWin32Kmt => self.opaque_win32_kmt,
            ExternalSemaphoreHandleType::D3d12Fence => self.d3d12_fence,
            ExternalSemaphoreHandleType::SyncFd => self.sync_fd,
        }
    }

    /// Returns the entry of a handle type.
    pub fn get(&self, handle_type: ExternalSemaphoreHandleType) -> (r: ExternalSemaphoreProperties)
        ensures
            r == self.entry(handle_type),
    {
        match handle_type {
            ExternalSemaphoreHandleType::OpaqueFd => self.opaque_fd,
            ExternalSemaphoreHandleType::OpaqueWin32 => self.opaque_win32,
            ExternalSemaphoreHandleType::OpaqueWin32Kmt => self.opaque_win32_kmt,
            ExternalSemaphoreHandleType::D3d12Fence => self.d3d12_fence,
            ExternalSemaphoreHandleType::SyncFd => self.sync_fd,
        }
    }

    /// Returns a copy of the table where one handle type has the given entry.
    pub fn with(self, handle_type: ExternalSemaphoreHandleType, properties: ExternalSemaphoreProperties) -> (r: Self)
        ensures
            r.entry(handle_type) == properties,
            forall|t: ExternalSemaphoreHandleType| t != handle_type ==> r.entry(t) == self.entry(t),
    {
        let mut r = self;
        match handle_type {
            ExternalSemaphoreHandleType::OpaqueFd => r.opaque_fd = properties,
            ExternalSemaphoreHandleType::OpaqueWin32 => r.opaque_win32 = properties,
            ExternalSemaphoreHandleType::OpaqueWin32Kmt => r.opaque_win32_kmt = properties,
            ExternalSemaphoreHandleType::D3d12Fence => r.d3d12_fence = properties,
            ExternalSemaphoreHandleType::SyncFd => r.sync_fd = properties,
        }
        r
    }
}

/// Everything that is checked before an exportable semaphore is created: the loaded
/// instance extensions, the enabled device extensions and the physical device's
/// per-handle-type properties.
#[derive(Clone, Copy, Debug, PartialEq, Eq, Structural)]
pub struct DeviceCapabilities {
    pub instance_extensions: InstanceExtensions,
    pub device_extensions: DeviceExtensions,
    pub external_semaphore_properties: ExternalSemaphorePropertiesTable,
}

} // verus!
