//! Owned semaphores: creation through the pool or the native layer, and release.
use vstd::multiset::Multiset;
use vstd::prelude::*;
use crate::capabilities::DeviceCapabilities;
use crate::device::Device;
use crate::error::{native_status_expected, is_oom, oom_of, Error, ExternalSemaphoreError, OomError};
use crate::gate::{check_exportable, exportable_check};
use crate::handle_type::{handle_types_to_vk, vk_mask, ExternalSemaphoreHandleType};

verus! {

/// What is handed to the native semaphore creation call.
#[derive(Clone, Copy, Debug, PartialEq, Eq, Structural)]
pub struct SemaphoreCreateInfo {
    /// The native flag mask of the handle types the semaphore is to be exportable to,
    /// when export info is chained to the creation; `None` for a plain semaphore.
    pub export_handle_types: Option<u32>,
}

/// The creation info of a plain semaphore.
pub open spec fn plain_info() -> SemaphoreCreateInfo {
    SemaphoreCreateInfo { export_handle_types: None }
}

/// The creation info of a semaphore exportable to the handle types of `s`.
pub open spec fn export_info(s: Seq<ExternalSemaphoreHandleType>) -> SemaphoreCreateInfo {
    SemaphoreCreateInfo { export_handle_types: Some(vk_mask(s)) }
}

/// What a semaphore is: its native handle, whether it goes back to the pool on
/// release, and the handle types it can be exported to.
pub struct SemaphoreView {
    pub handle: u64,
    pub pooled: bool,
    pub exportable_to: Seq<ExternalSemaphoreHandleType>,
}

/// Used to provide synchronization between command buffers during their execution.
///
/// It is similar to a fence, except that it is purely on the GPU side. The CPU can't
/// query a semaphore's status or wait for it to be signaled.
///
/// A `Semaphore` owns its native handle. It cannot be copied, and `release` consumes
/// it, so the handle is released once.
#[derive(Debug)]
pub struct Semaphore {
    semaphore: u64,
    must_put_in_pool: bool,
    exportable_to: Vec<ExternalSemaphoreHandleType>,
}

impl View for Semaphore {
    type V = SemaphoreView;

    closed spec fn view(&self) -> SemaphoreView {
        SemaphoreView {
            handle: self.semaphore,
            pooled: self.must_put_in_pool,
            exportable_to: self.exportable_to@,
        }
    }
}

/// What the caller must do once a semaphore has been released.
#[derive(Clone, Copy, Debug, PartialEq, Eq, Structural)]
pub enum SemaphoreRelease {
    /// The handle went back to the device's pool; nothing is left to do.
    ReturnedToPool,
    /// The handle must be destroyed with the native destroy call.
    Destroy(u64),
}

/// The effect of releasing semaphore `s` on a pool that held `before` and now holds
/// `after`, with outcome `r`.
pub open spec fn release_outcome(s: SemaphoreView, before: Multiset<u64>, after: Multiset<u64>, r: SemaphoreRelease) -> bool {
    if s.pooled {
        r == SemaphoreRelease::ReturnedToPool && after == before.insert(s.handle)
    } else {
        r == SemaphoreRelease::Destroy(s.handle) && after == before
    }
}

/// What a creation with `info` that the native call `create` answered gives: the
/// handle it created, or the memory error it reported.
pub open spec fn created_from<F: FnOnce(SemaphoreCreateInfo) -> Result<u64, Error>>(
    create: F,
    info: SemaphoreCreateInfo,
    pooled: bool,
    exportable_to: Seq<ExternalSemaphoreHandleType>,
    r: Result<Semaphore, OomError>,
) -> bool {
    match r {
        Ok(s) => {
            &&& create.ensures((info,), Ok(s@.handle))
            &&& s@.pooled == pooled
            &&& s@.exportable_to == exportable_to
        },
        Err(e) => exists|n: Error| create.ensures((info,), Err(n)) && is_oom(n) && e == oom_of(n),
    }
}

impl Semaphore {
    /// Takes a semaphore from the device's semaphore pool. If the pool is empty, a new
    /// semaphore is created with `create`, the native creation call. Either way the
    /// semaphore goes back into the pool when it is released.
    ///
    /// For most applications, using the pool should be preferred, in order to avoid
    /// creating new semaphores every frame.
    pub fn from_pool<F>(device: &mut Device, create: F) -> (r: Result<Semaphore, OomError>)
        where
            F: FnOnce(SemaphoreCreateInfo) -> Result<u64, Error>,
        requires
            create.requires((plain_info(),)),
            forall|res: Result<u64, Error>| create.ensures((plain_info(),), res) ==> native_status_expected(res),
        ensures
            final(device).capabilities == old(device).capabilities,
            old(device).semaphore_pool@.len() == 0 ==> {
                &&& final(device).semaphore_pool@ == old(device).semaphore_pool@
                &&& created_from(create, plain_info(), true, Seq::empty(), r)
            },
            old(device).semaphore_pool@.len() > 0 ==> (r matches Ok(s) && {
                &&& s@.pooled
                &&& s@.exportable_to.len() == 0
                &&& old(device).semaphore_pool@.contains(s@.handle)
                &&& final(device).semaphore_pool@ == old(device).semaphore_pool@.remove(s@.handle)
            }),
    {
        let taken = device.semaphore_pool.take();
        Semaphore::from_pool_take(taken, create)
    }

    /// Finishes a take from a semaphore pool whose outcome was `taken`: wraps the handle
    /// that the pool handed out, or, when the pool was empty, creates a new semaphore
    /// with `create`. Either way the semaphore goes back into the pool when it is
    /// released. This lets a caller that guards the pool with a lock release the lock
    /// before the native call.
    pub fn from_pool_take<F>(taken: Option<u64>, create: F) -> (r: Result<Semaphore, OomError>)
        where
            F: FnOnce(SemaphoreCreateInfo) -> Result<u64, Error>,
        requires
            create.requires((plain_info(),)),
            forall|res: Result<u64, Error>| create.ensures((plain_info(),), res) ==> native_status_expected(res),
        ensures
            taken is None ==> created_from(create, plain_info(), true, Seq::empty(), r),
            taken matches Some(h) ==> (r matches Ok(s) && s@.handle == h && s@.pooled && s@.exportable_to.len() == 0),
    {
        match taken {
            Some(raw_sem) => Ok(Semaphore { semaphore: raw_sem, must_put_in_pool: true, exportable_to: Vec::new() }),
            None => Semaphore::alloc_impl(true, None, create),
        }
    }

    /// Builds a new semaphore with `create`, the native creation call. It is destroyed
    /// when it is released.
    pub fn allocate<F>(create: F) -> (r: Result<Semaphore, OomError>)
        where
            F: FnOnce(SemaphoreCreateInfo) -> Result<u64, Error>,
        requires
            create.requires((plain_info(),)),
            forall|res: Result<u64, Error>| create.ensures((plain_info(),), res) ==> native_status_expected(res),
        ensures
            created_from(create, plain_info(), false, Seq::empty(), r),
    {
        Semaphore::alloc_impl(false, None, create)
    }

    /// Builds a new semaphore that can be exported to native handles of the given
    /// types, with `create`, the native creation call. The device's capabilities,
    /// `capabilities`, are checked first; where they fall short, `create` is not called and the check's
    /// error is returned. The semaphore is destroyed when it is released.
    pub fn exportable<F>(
        capabilities: &DeviceCapabilities,
        handle_types: &[ExternalSemaphoreHandleType],
        create: F,
    ) -> (r: Result<Semaphore, ExternalSemaphoreError>)
        where
            F: FnOnce(SemaphoreCreateInfo) -> Result<u64, Error>,
        requires
            create.requires((export_info(handle_types@),)),
            forall|res: Result<u64, Error>|
                create.ensures((export_info(handle_types@),), res) ==> native_status_expected(res),
        ensures
            exportable_check(*capabilities, handle_types@) matches Err(e) ==> r == Err::<Semaphore, ExternalSemaphoreError>(e),
            exportable_check(*capabilities, handle_types@) is Ok ==> match r {
                Ok(s) => {
                    &&& create.ensures((export_info(handle_types@),), Ok(s@.handle))
                    &&& !s@.pooled
                    &&& s@.exportable_to == handle_types@
                },
                Err(e) => exists|n: Error|
                    create.ensures((export_info(handle_types@),), Err(n)) && is_oom(n)
                        && e == ExternalSemaphoreError::OomError(oom_of(n)),
            },
    {
        if let Err(e) = check_exportable(capabilities, handle_types) {
            return Err(e);
        }
        match Semaphore::alloc_impl(false, Some(handle_types), create) {
            Ok(s) => Ok(s),
            Err(oom_error) => Err(ExternalSemaphoreError::OomError(oom_error)),
        }
    }

    /// Creates a semaphore with `create`, chaining export info when `export_handle_types`
    /// is given.
    fn alloc_impl<F>(
        must_put_in_pool: bool,
        export_handle_types: Option<&[ExternalSemaphoreHandleType]>,
        create: F,
    ) -> (r: Result<Semaphore, OomError>)
        where
            F: FnOnce(SemaphoreCreateInfo) -> Result<u64, Error>,
        requires
            create.requires((Semaphore::info_for(export_handle_types),)),
            forall|res: Result<u64, Error>|
                create.ensures((Semaphore::info_for(export_handle_types),), res) ==> native_status_expected(res),
        ensures
            created_from(create, Semaphore::info_for(export_handle_types), must_put_in_pool,
                match export_handle_types { Some(s) => s@, None => Seq::empty() }, r),
    {
        let info = match export_handle_types {
            Some(handle_types) => SemaphoreCreateInfo { export_handle_types: Some(handle_types_to_vk(handle_types)) },
            None => SemaphoreCreateInfo { export_handle_types: None },
        };
        assert(info == Semaphore::info_for(export_handle_types));
        let status = create(info);
        assert(create.ensures((info,), status));
        assert(native_status_expected(status));
        match status {
            Ok(semaphore) => {
                let exportable_to = match export_handle_types {
                    Some(handle_types) => vstd::slice::slice_to_vec(handle_types),
                    None => Vec::new(),
                };
                Ok(Semaphore { semaphore, must_put_in_pool, exportable_to })
            },
            Err(err) => Err(OomError::from_native(err)),
        }
    }

    /// The creation info for a semaphore exportable to the given handle types, if any.
    pub open spec fn info_for(export_handle_types: Option<&[ExternalSemaphoreHandleType]>) -> SemaphoreCreateInfo {
        match export_handle_types {
            Some(s) => export_info(s@),
            None => plain_info(),
        }
    }

    /// Releases the semaphore. A pooled semaphore's handle goes back into the device's
    /// pool; any other must be destroyed by the caller, with the handle returned.
    pub fn release(self, device: &mut Device) -> (r: SemaphoreRelease)
        ensures
            final(device).capabilities == old(device).capabilities,
            release_outcome(self@, old(device).semaphore_pool@, final(device).semaphore_pool@, r),
    {
        if self.must_put_in_pool {
            device.semaphore_pool.give(self.semaphore);
            SemaphoreRelease::ReturnedToPool
        } else {
            SemaphoreRelease::Destroy(self.semaphore)
        }
    }

    /// The native handle, for use in submissions. Ownership stays with the semaphore.
    pub fn internal_object(&self) -> (r: u64)
        ensures
            r == self@.handle,
    {
        self.semaphore
    }

    /// Whether the semaphore goes back into the pool when it is released.
    pub fn is_pooled(&self) -> (r: bool)
        ensures
            r == self@.pooled,
    {
        self.must_put_in_pool
    }

    /// The handle types the semaphore can be exported to.
    pub fn exportable_to(&self) -> (r: &Vec<ExternalSemaphoreHandleType>)
        ensures
            r@ == self@.exportable_to,
    {
        &self.exportable_to
    }
}

/// Whatever path created a semaphore, its release does exactly one of two things,
/// once: the handle goes back into the pool, or it is handed out to be destroyed.
/// Counted together, the handle is released exactly one time.
pub proof fn lemma_release_exactly_once(s: SemaphoreView, before: Multiset<u64>, after: Multiset<u64>, r: SemaphoreRelease)
    requires
        release_outcome(s, before, after, r),
    ensures
        (r == SemaphoreRelease::ReturnedToPool) != (r == SemaphoreRelease::Destroy(s.handle)),
        r == SemaphoreRelease::ReturnedToPool <==> s.pooled,
        after.count(s.handle) - before.count(s.handle) + (if r == SemaphoreRelease::Destroy(s.handle) { 1int } else { 0int }) == 1,
        forall|h: u64| h != s.handle ==> after.count(h) == before.count(h),
{
}

} // verus!
