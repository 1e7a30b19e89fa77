//! The device state that semaphores draw on: its capabilities and its semaphore pool.
use vstd::prelude::*;
use crate::capabilities::DeviceCapabilities;
use crate::pool::SemaphorePool;

verus! {

/// A logical device as seen by its semaphores. It owns the pool that pooled
/// semaphores return to; it must outlive every semaphore drawn from it.
#[derive(Debug)]
pub struct Device {
    /// What the instance and the device were created with.
    pub capabilities: DeviceCapabilities,
    /// Released semaphore handles awaiting reuse.
    pub semaphore_pool: SemaphorePool,
}

impl Device {
    /// A device with the given capabilities and an empty semaphore pool.
    pub fn new(capabilities: DeviceCapabilities) -> (r: Device)
        ensures
            r.capabilities == capabilities,
            r.semaphore_pool@.len() == 0,
    {
        Device { capabilities, semaphore_pool: SemaphorePool::new() }
    }
}

} // verus!
