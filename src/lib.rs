//! Ownership-tracked synchronization primitives for a Vulkan device.
//!
//! The library decides; the caller performs the native calls. Creation takes the
//! native creation call as a function value and is verified for every status it
//! may report. Release tells the caller whether the handle went back to the
//! device's pool or must be destroyed.
pub mod capabilities;
pub mod debug_marker;
pub mod device;
pub mod error;
pub mod gate;
pub mod handle_type;
pub mod pool;
pub mod semaphore;

pub use capabilities::{
    DeviceCapabilities, DeviceExtensions, ExternalSemaphoreProperties,
    ExternalSemaphorePropertiesTable, InstanceExtensions,
};
pub use debug_marker::{DebugMarker, DebugMarkerError};
pub use device::Device;
pub use error::{Error, ExternalSemaphoreError, OomError};
pub use gate::check_exportable;
pub use handle_type::ExternalSemaphoreHandleType;
pub use pool::SemaphorePool;
pub use semaphore::{Semaphore, SemaphoreCreateInfo, SemaphoreRelease};
