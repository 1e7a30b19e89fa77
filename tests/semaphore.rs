use std::cell::Cell;

use vksync::{
    Device, DeviceCapabilities, DeviceExtensions, Error, ExternalSemaphoreError,
    ExternalSemaphoreHandleType, ExternalSemaphoreProperties, ExternalSemaphorePropertiesTable,
    InstanceExtensions, OomError, Semaphore, SemaphoreCreateInfo, SemaphoreRelease,
};

fn supported(compatible_handle_types: u32) -> ExternalSemaphoreProperties {
    ExternalSemaphoreProperties {
        export_from_imported_handle_types: compatible_handle_types,
        compatible_handle_types,
        external_semaphore_features: 0x3,
    }
}

fn unsupported() -> ExternalSemaphoreProperties {
    ExternalSemaphoreProperties {
        export_from_imported_handle_types: 0,
        compatible_handle_types: 0,
        external_semaphore_features: 0,
    }
}

fn full_capabilities() -> DeviceCapabilities {
    DeviceCapabilities {
        instance_extensions: InstanceExtensions {
            khr_get_physical_device_properties2: true,
            khr_external_semaphore_capabilities: true,
        },
        device_extensions: DeviceExtensions {
            khr_external_semaphore: true,
            khr_external_semaphore_fd: true,
            khr_external_semaphore_win32: false,
            ext_debug_marker: true,
        },
        external_semaphore_properties: ExternalSemaphorePropertiesTable {
            opaque_fd: supported(0x1 | 0x10),
            opaque_win32: supported(0x2 | 0x4),
            opaque_win32_kmt: supported(0x2 | 0x4),
            d3d12_fence: supported(0x8),
            sync_fd: supported(0x1 | 0x10),
        },
    }
}

fn test_device() -> Device {
    Device::new(full_capabilities())
}

/// A native creation call that hands out increasing handles and counts its calls.
struct FakeNative {
    next: Cell<u64>,
    calls: Cell<u32>,
    last_info: Cell<Option<SemaphoreCreateInfo>>,
}

impl FakeNative {
    fn new() -> FakeNative {
        FakeNative { next: Cell::new(0x1000), calls: Cell::new(0), last_info: Cell::new(None) }
    }

    fn create(&self, info: SemaphoreCreateInfo) -> Result<u64, Error> {
        self.calls.set(self.calls.get() + 1);
        self.last_info.set(Some(info));
        let h = self.next.get();
        self.next.set(h + 1);
        Ok(h)
    }
}

#[test]
fn semaphore_create() {
    let native = FakeNative::new();
    let sem = Semaphore::allocate(|info| native.create(info)).unwrap();
    assert!(!sem.is_pooled());
    assert_eq!(native.calls.get(), 1);
    assert_eq!(native.last_info.get(), Some(SemaphoreCreateInfo { export_handle_types: None }));
}

#[test]
fn semaphore_pool() {
    let mut device = test_device();
    let native = FakeNative::new();

    assert_eq!(device.semaphore_pool.len(), 0);
    let sem1_internal_obj = {
        let sem = Semaphore::from_pool(&mut device, |info| native.create(info)).unwrap();
        assert_eq!(device.semaphore_pool.len(), 0);
        let obj = sem.internal_object();
        assert_eq!(sem.release(&mut device), SemaphoreRelease::ReturnedToPool);
        obj
    };

    assert_eq!(device.semaphore_pool.len(), 1);
    let sem2 = Semaphore::from_pool(&mut device, |info| native.create(info)).unwrap();
    assert_eq!(device.semaphore_pool.len(), 0);
    assert_eq!(sem2.internal_object(), sem1_internal_obj);
    assert_eq!(native.calls.get(), 1);
}

#[test]
fn from_pool_on_empty_pool_creates_a_pooled_semaphore() {
    let mut device = test_device();
    let native = FakeNative::new();
    let sem = Semaphore::from_pool(&mut device, |info| native.create(info)).unwrap();
    assert!(sem.is_pooled());
    assert!(sem.exportable_to().is_empty());
    assert_eq!(sem.internal_object(), 0x1000);
    assert_eq!(native.calls.get(), 1);
}

#[test]
fn allocated_semaphore_is_destroyed_on_release() {
    let mut device = test_device();
    let native = FakeNative::new();
    let sem = Semaphore::allocate(|info| native.create(info)).unwrap();
    let handle = sem.internal_object();
    assert_eq!(sem.release(&mut device), SemaphoreRelease::Destroy(handle));
    assert_eq!(device.semaphore_pool.len(), 0);
}

#[test]
fn pooled_semaphore_returns_to_pool_on_release() {
    let mut device = test_device();
    let native = FakeNative::new();
    let a = Semaphore::from_pool(&mut device, |info| native.create(info)).unwrap();
    let b = Semaphore::from_pool(&mut device, |info| native.create(info)).unwrap();
    assert_ne!(a.internal_object(), b.internal_object());
    assert_eq!(a.release(&mut device), SemaphoreRelease::ReturnedToPool);
    assert_eq!(b.release(&mut device), SemaphoreRelease::ReturnedToPool);
    assert_eq!(device.semaphore_pool.len(), 2);
}

#[test]
fn out_of_device_memory_surfaces_as_oom_error() {
    let mut device = test_device();
    let r = Semaphore::allocate(|_| Err(Error::OutOfDeviceMemory));
    assert_eq!(r.unwrap_err(), OomError::OutOfDeviceMemory);
    let r = Semaphore::from_pool(&mut device, |_| Err(Error::OutOfDeviceMemory));
    assert_eq!(r.unwrap_err(), OomError::OutOfDeviceMemory);
    assert_eq!(device.semaphore_pool.len(), 0);
}

#[test]
fn out_of_host_memory_surfaces_as_oom_error() {
    let r = Semaphore::allocate(|_| Err(Error::OutOfHostMemory));
    assert_eq!(r.unwrap_err(), OomError::OutOfHostMemory);
}

#[test]
fn exportable_without_device_extension_makes_no_native_call() {
    let mut caps = full_capabilities();
    caps.device_extensions.khr_external_semaphore = false;
    let device = Device::new(caps);
    let native = FakeNative::new();
    let r = Semaphore::exportable(&device.capabilities, &[ExternalSemaphoreHandleType::OpaqueFd], |info| native.create(info));
    assert_eq!(r.unwrap_err(), ExternalSemaphoreError::ExternalSemaphoreNotEnabled);
    assert_eq!(native.calls.get(), 0);
}

#[test]
fn exportable_with_incompatible_types_fails() {
    let device = test_device();
    let native = FakeNative::new();
    let r = Semaphore::exportable(
        &device.capabilities,
        &[ExternalSemaphoreHandleType::OpaqueFd, ExternalSemaphoreHandleType::D3d12Fence],
        |info| native.create(info),
    );
    assert_eq!(
        r.unwrap_err(),
        ExternalSemaphoreError::IncompatibleHandleTypes(
            ExternalSemaphoreHandleType::OpaqueFd,
            ExternalSemaphoreHandleType::D3d12Fence
        )
    );
    assert_eq!(native.calls.get(), 0);
}

#[test]
fn exportable_success_chains_export_info() {
    let mut device = test_device();
    let native = FakeNative::new();
    let types = [ExternalSemaphoreHandleType::OpaqueFd, ExternalSemaphoreHandleType::SyncFd];
    let sem = Semaphore::exportable(&device.capabilities, &types, |info| native.create(info)).unwrap();
    assert_eq!(native.last_info.get(), Some(SemaphoreCreateInfo { export_handle_types: Some(0x11) }));
    assert_eq!(sem.exportable_to().as_slice(), &types[..]);
    assert!(!sem.is_pooled());
    let handle = sem.internal_object();
    assert_eq!(sem.release(&mut device), SemaphoreRelease::Destroy(handle));
    assert_eq!(device.semaphore_pool.len(), 0);
}

#[test]
fn exportable_out_of_memory_wraps_oom_error() {
    let device = test_device();
    let r = Semaphore::exportable(&device.capabilities, &[ExternalSemaphoreHandleType::OpaqueFd], |_| {
        Err(Error::OutOfHostMemory)
    });
    assert_eq!(r.unwrap_err(), ExternalSemaphoreError::OomError(OomError::OutOfHostMemory));
}

#[test]
fn exportable_with_unsupported_type_fails() {
    let mut caps = full_capabilities();
    caps.external_semaphore_properties.sync_fd = unsupported();
    let device = Device::new(caps);
    let r = Semaphore::exportable(
        &device.capabilities,
        &[ExternalSemaphoreHandleType::OpaqueFd, ExternalSemaphoreHandleType::SyncFd],
        |_| Ok(1),
    );
    assert_eq!(
        r.unwrap_err(),
        ExternalSemaphoreError::HandleTypeNotSupported(ExternalSemaphoreHandleType::SyncFd)
    );
}

#[test]
fn from_pool_take_wraps_taken_handle_without_native_call() {
    let native = FakeNative::new();
    let sem = Semaphore::from_pool_take(Some(0x42), |info| native.create(info)).unwrap();
    assert_eq!(sem.internal_object(), 0x42);
    assert!(sem.is_pooled());
    assert_eq!(native.calls.get(), 0);
    let sem = Semaphore::from_pool_take(None, |info| native.create(info)).unwrap();
    assert_eq!(sem.internal_object(), 0x1000);
    assert!(sem.is_pooled());
    assert_eq!(native.calls.get(), 1);
}
