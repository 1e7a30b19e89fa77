use std::cell::RefCell;

use vksync::debug_marker::{DebugMarkerObjectNameInfo, DebugMarkerObjectTagInfo, DEBUG_REPORT_OBJECT_TYPE_SEMAPHORE};
use vksync::{
    DebugMarker, DebugMarkerError, Device, DeviceCapabilities, DeviceExtensions, Error,
    ExternalSemaphoreProperties, ExternalSemaphorePropertiesTable, InstanceExtensions, OomError,
    Semaphore,
};

fn device(ext_debug_marker: bool) -> Device {
    let p = ExternalSemaphoreProperties {
        export_from_imported_handle_types: 0,
        compatible_handle_types: 0,
        external_semaphore_features: 0,
    };
    Device::new(DeviceCapabilities {
        instance_extensions: InstanceExtensions {
            khr_get_physical_device_properties2: false,
            khr_external_semaphore_capabilities: false,
        },
        device_extensions: DeviceExtensions {
            khr_external_semaphore: false,
            khr_external_semaphore_fd: false,
            khr_external_semaphore_win32: false,
            ext_debug_marker,
        },
        external_semaphore_properties: ExternalSemaphorePropertiesTable {
            opaque_fd: p,
            opaque_win32: p,
            opaque_win32_kmt: p,
            d3d12_fence: p,
            sync_fd: p,
        },
    })
}

#[test]
fn name_without_extension_fails() {
    let device = device(false);
    let mut sem = Semaphore::allocate(|_| Ok(77)).unwrap();
    let mut called = false;
    let r = sem.set_object_name(&device.capabilities, "frame", |_| {
        called = true;
        Ok(())
    });
    assert_eq!(r, Err(DebugMarkerError::MissingExtension));
    assert!(!called);
}

#[test]
fn name_hands_object_and_name_to_native_call() {
    let device = device(true);
    let mut sem = Semaphore::allocate(|_| Ok(77)).unwrap();
    let seen: RefCell<Option<DebugMarkerObjectNameInfo>> = RefCell::new(None);
    let r = sem.set_object_name(&device.capabilities, "frame", |info| {
        *seen.borrow_mut() = Some(info);
        Ok(())
    });
    assert_eq!(r, Ok(()));
    let info = seen.into_inner().unwrap();
    assert_eq!(info.object_type, DEBUG_REPORT_OBJECT_TYPE_SEMAPHORE);
    assert_eq!(info.object, 77);
    assert_eq!(info.object_name, "frame");
}

#[test]
fn tag_hands_data_to_native_call() {
    let device = device(true);
    let mut sem = Semaphore::allocate(|_| Ok(12)).unwrap();
    let seen: RefCell<Option<DebugMarkerObjectTagInfo>> = RefCell::new(None);
    let r = sem.set_object_tag(&device.capabilities, 3, &[1, 2, 3], |info| {
        *seen.borrow_mut() = Some(info);
        Ok(())
    });
    assert_eq!(r, Ok(()));
    let info = seen.into_inner().unwrap();
    assert_eq!(info.object, 12);
    assert_eq!(info.tag_name, 3);
    assert_eq!(info.tag, vec![1, 2, 3]);
}

#[test]
fn tag_without_extension_fails() {
    let device = device(false);
    let mut sem = Semaphore::allocate(|_| Ok(12)).unwrap();
    assert_eq!(sem.set_object_tag(&device.capabilities, 3, &[1], |_| Ok(())), Err(DebugMarkerError::MissingExtension));
}

#[test]
fn marker_out_of_memory() {
    let device = device(true);
    let mut sem = Semaphore::allocate(|_| Ok(12)).unwrap();
    let r = sem.set_object_name(&device.capabilities, "x", |_| Err(Error::OutOfHostMemory));
    assert_eq!(r, Err(DebugMarkerError::OomError(OomError::OutOfHostMemory)));
    assert_eq!(r.unwrap_err().cause(), Some(OomError::OutOfHostMemory));
    assert_eq!(
        DebugMarkerError::MissingExtension.description(),
        "the `VK_EXT_debug_marker` extension is not enabled"
    );
}
