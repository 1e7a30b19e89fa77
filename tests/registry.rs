use vksync::handle_type::handle_types_to_vk;
use vksync::{Error, ExternalSemaphoreError, ExternalSemaphoreHandleType, OomError, SemaphorePool};

use ExternalSemaphoreHandleType::{D3d12Fence, OpaqueFd, OpaqueWin32, OpaqueWin32Kmt, SyncFd};

#[test]
fn handle_type_bits() {
    assert_eq!(OpaqueFd.to_vk(), 0x1);
    assert_eq!(OpaqueWin32.to_vk(), 0x2);
    assert_eq!(OpaqueWin32Kmt.to_vk(), 0x4);
    assert_eq!(D3d12Fence.to_vk(), 0x8);
    assert_eq!(SyncFd.to_vk(), 0x10);
}

#[test]
fn handle_type_from_bits() {
    for t in [OpaqueFd, OpaqueWin32, OpaqueWin32Kmt, D3d12Fence, SyncFd] {
        assert_eq!(ExternalSemaphoreHandleType::from_vk(t.to_vk()), Some(t));
    }
    assert_eq!(ExternalSemaphoreHandleType::from_vk(0), None);
    assert_eq!(ExternalSemaphoreHandleType::from_vk(0x3), None);
    assert_eq!(ExternalSemaphoreHandleType::from_vk(0x20), None);
}

#[test]
fn handle_type_mask() {
    assert_eq!(handle_types_to_vk(&[]), 0);
    assert_eq!(handle_types_to_vk(&[OpaqueFd, D3d12Fence]), 0x9);
    assert_eq!(handle_types_to_vk(&[SyncFd, SyncFd]), 0x10);
    assert_eq!(handle_types_to_vk(&[OpaqueFd, OpaqueWin32, OpaqueWin32Kmt, D3d12Fence, SyncFd]), 0x1f);
}

#[test]
fn oom_translation() {
    assert_eq!(OomError::from_native(Error::OutOfHostMemory), OomError::OutOfHostMemory);
    assert_eq!(OomError::from_native(Error::OutOfDeviceMemory), OomError::OutOfDeviceMemory);
    assert_eq!(OomError::OutOfHostMemory.to_native(), Error::OutOfHostMemory);
    assert_eq!(
        ExternalSemaphoreError::from_native(Error::OutOfDeviceMemory),
        ExternalSemaphoreError::OomError(OomError::OutOfDeviceMemory)
    );
    assert_eq!(
        ExternalSemaphoreError::from(OomError::OutOfHostMemory),
        ExternalSemaphoreError::OomError(OomError::OutOfHostMemory)
    );
}

#[test]
fn error_cause_and_description() {
    let e = ExternalSemaphoreError::OomError(OomError::OutOfHostMemory);
    assert_eq!(e.cause(), Some(OomError::OutOfHostMemory));
    assert_eq!(e.description(), "no memory available");
    let e = ExternalSemaphoreError::IncompatibleHandleTypes(OpaqueFd, SyncFd);
    assert_eq!(e.cause(), None);
    assert_eq!(e.description(), "requested handle types are not compatible");
    assert_eq!(
        ExternalSemaphoreError::ExternalSemaphoreNotEnabled.description(),
        "device extension `VK_KHR_external_semaphore` not enabled"
    );
    assert_eq!(OomError::OutOfDeviceMemory.description(), "no memory available on the graphical device");
}

#[test]
fn pool_take_and_give() {
    let mut pool = SemaphorePool::new();
    assert!(pool.is_empty());
    assert_eq!(pool.take(), None);
    pool.give(5);
    pool.give(9);
    assert_eq!(pool.len(), 2);
    let a = pool.take().unwrap();
    let b = pool.take().unwrap();
    let mut got = [a, b];
    got.sort();
    assert_eq!(got, [5, 9]);
    assert_eq!(pool.take(), None);
    assert_eq!(pool.len(), 0);
}

#[test]
fn pool_conserves_handles_over_takes_and_gives() {
    let mut pool = SemaphorePool::new();
    for h in 1..=4u64 {
        pool.give(h);
    }
    let mut out = Vec::new();
    for _ in 0..3 {
        out.push(pool.take().unwrap());
        assert_eq!(pool.len() + out.len(), 4);
    }
    let h = out.pop().unwrap();
    pool.give(h);
    assert_eq!(pool.len() + out.len(), 4);
    let again = pool.take().unwrap();
    assert!(!out.contains(&again));
    out.push(again);
    let mut all = out.clone();
    while let Some(h) = pool.take() {
        all.push(h);
    }
    all.sort();
    assert_eq!(all, vec![1, 2, 3, 4]);
}
