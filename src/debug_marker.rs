//! Names and tags attached to native objects, for debugging tools.
use vstd::prelude::*;
use crate::capabilities::DeviceCapabilities;
use crate::error::{is_oom, native_status_expected, oom_of, Error, OomError};
use crate::semaphore::Semaphore;

verus! {

/// Native object type of a semaphore, as debug reports number it.
pub const DEBUG_REPORT_OBJECT_TYPE_SEMAPHORE: u32 = 5;

/// What is handed to the native call that names an object.
#[derive(Debug)]
pub struct DebugMarkerObjectNameInfo {
    pub object_type: u32,
    pub object: u64,
    pub object_name: String,
}

/// What is handed to the native call that tags an object.
#[derive(Debug)]
pub struct DebugMarkerObjectTagInfo {
    pub object_type: u32,
    pub object: u64,
    pub tag_name: u64,
    pub tag: Vec<u8>,
}

/// Error that can happen when using debug markers.
#[derive(Clone, Copy, Debug, PartialEq, Eq, Structural)]
pub enum DebugMarkerError {
    /// Not enough memory available.
    OomError(OomError),
    /// The `VK_EXT_debug_marker` extension was not enabled.
    MissingExtension,
}

impl DebugMarkerError {
    /// The memory error underneath, if this is one.
    pub fn cause(&self) -> (r: Option<OomError>)
        ensures
            match *self {
                DebugMarkerError::OomError(e) => r == Some(e),
                DebugMarkerError::MissingExtension => r is None,
            },
    {
        match *self {
            DebugMarkerError::OomError(e) => Some(e),
            DebugMarkerError::MissingExtension => None,
        }
    }

    /// A short description of the error.
    pub fn description(&self) -> (r: &'static str)
        ensures
            r == self.message(),
    {
        match *self {
            DebugMarkerError::OomError(_) => "not enough memory available",
            DebugMarkerError::MissingExtension => "the `VK_EXT_debug_marker` extension is not enabled",
        }
    }

    /// The text that `description` returns.
    pub open spec fn message(self) -> &'static str {
        match self {
            DebugMarkerError::OomError(_) => "not enough memory available",
            DebugMarkerError::MissingExtension => "the `VK_EXT_debug_marker` extension is not enabled",
        }
    }
}

/// `text` holds no NUL character, so it can be handed to the native layer as a C string.
pub open spec fn no_nul(text: Seq<char>) -> bool {
    forall|i: int| 0 <= i < text.len() ==> text[i] != '\0'
}

/// The outcome of a marker call that the native call answered with `status`.
pub open spec fn marker_result(status: Result<(), Error>) -> Result<(), DebugMarkerError>
    recommends
        native_status_expected(status),
{
    match status {
        Ok(()) => Ok(()),
        Err(n) => Err(DebugMarkerError::OomError(oom_of(n))),
    }
}

/// Translates the status of a native marker call.
fn marker_status(status: Result<(), Error>) -> (r: Result<(), DebugMarkerError>)
    requires
        native_status_expected(status),
    ensures
        r == marker_result(status),
{
    match status {
        Ok(()) => Ok(()),
        Err(n) => Err(DebugMarkerError::OomError(OomError::from_native(n))),
    }
}

/// Add user defined information to native objects. Requires extension `VK_EXT_debug_marker`.
pub trait DebugMarker: Sized {
    /// The native object type and handle that markers attach to.
    spec fn marked_object(&self) -> (u32, u64);

    /// Set the name of the native object, through `call`, the native naming call.
    fn set_object_name<F>(&mut self, capabilities: &DeviceCapabilities, name: &str, call: F) -> (r: Result<(), DebugMarkerError>)
        where
            F: FnOnce(DebugMarkerObjectNameInfo) -> Result<(), Error>,
        requires
            no_nul(name@),
            forall|i: DebugMarkerObjectNameInfo| call.requires((i,)),
            forall|i: DebugMarkerObjectNameInfo, s: Result<(), Error>| call.ensures((i,), s) ==> native_status_expected(s),
        ensures
            final(self).marked_object() == old(self).marked_object(),
            !capabilities.device_extensions.ext_debug_marker ==> r == Err::<(), DebugMarkerError>(DebugMarkerError::MissingExtension),
            capabilities.device_extensions.ext_debug_marker ==> exists|i: DebugMarkerObjectNameInfo, s: Result<(), Error>| {
                &&& (i.object_type, i.object) == old(self).marked_object()
                &&& i.object_name@ == name@
                &&& call.ensures((i,), s)
                &&& r == marker_result(s)
            },
    ;

    /// Attach arbitrary data to the native object, through `call`, the native tagging call.
    fn set_object_tag<F>(&mut self, capabilities: &DeviceCapabilities, tag_name: u64, tag: &[u8], call: F) -> (r: Result<(), DebugMarkerError>)
        where
            F: FnOnce(DebugMarkerObjectTagInfo) -> Result<(), Error>,
        requires
            tag_name != 0,
            forall|i: DebugMarkerObjectTagInfo| call.requires((i,)),
            forall|i: DebugMarkerObjectTagInfo, s: Result<(), Error>| call.ensures((i,), s) ==> native_status_expected(s),
        ensures
            final(self).marked_object() == old(self).marked_object(),
            !capabilities.device_extensions.ext_debug_marker ==> r == Err::<(), DebugMarkerError>(DebugMarkerError::MissingExtension),
            capabilities.device_extensions.ext_debug_marker ==> exists|i: DebugMarkerObjectTagInfo, s: Result<(), Error>| {
                &&& (i.object_type, i.object) == old(self).marked_object()
                &&& i.tag_name == tag_name
                &&& i.tag@ == tag@
                &&& call.ensures((i,), s)
                &&& r == marker_result(s)
            },
    ;
}

impl DebugMarker for Semaphore {
    open spec fn marked_object(&self) -> (u32, u64) {
        (DEBUG_REPORT_OBJECT_TYPE_SEMAPHORE, self@.handle)
    }

    fn set_object_name<F>(&mut self, capabilities: &DeviceCapabilities, name: &str, call: F) -> (r: Result<(), DebugMarkerError>)
        where
            F: FnOnce(DebugMarkerObjectNameInfo) -> Result<(), Error>,
    {
        if !capabilities.device_extensions.ext_debug_marker {
            return Err(DebugMarkerError::MissingExtension);
        }
        let name_info = DebugMarkerObjectNameInfo {
            object_type: DEBUG_REPORT_OBJECT_TYPE_SEMAPHORE,
            object: self.internal_object(),
            object_name: name.to_owned(),
        };
        let ghost sent = name_info;
        let status = call(name_info);
        assert(call.ensures((sent,), status));
        marker_status(status)
    }

    fn set_object_tag<F>(&mut self, capabilities: &DeviceCapabilities, tag_name: u64, tag: &[u8], call: F) -> (r: Result<(), DebugMarkerError>)
        where
            F: FnOnce(DebugMarkerObjectTagInfo) -> Result<(), Error>,
    {
        if !capabilities.device_extensions.ext_debug_marker {
            return Err(DebugMarkerError::MissingExtension);
        }
        let tag_info = DebugMarkerObjectTagInfo {
            object_type: DEBUG_REPORT_OBJECT_TYPE_SEMAPHORE,
            object: self.internal_object(),
            tag_name,
            tag: vstd::slice::slice_to_vec(tag),
        };
        let ghost sent = tag_info;
        let status = call(tag_info);
        assert(call.ensures((sent,), status));
        marker_status(status)
    }
}

} // verus!
