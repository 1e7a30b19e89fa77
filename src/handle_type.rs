//! The handle types a semaphore's payload can be exported to, and their native bit flags.
use vstd::prelude::*;

verus! {

/// Native flag bit of `VK_EXTERNAL_SEMAPHORE_HANDLE_TYPE_OPAQUE_FD_BIT`.
pub const HANDLE_TYPE_OPAQUE_FD_BIT: u32 = 0x1;

/// Native flag bit of `VK_EXTERNAL_SEMAPHORE_HANDLE_TYPE_OPAQUE_WIN32_BIT`.
pub const HANDLE_TYPE_OPAQUE_WIN32_BIT: u32 = 0x2;

/// Native flag bit of `VK_EXTERNAL_SEMAPHORE_HANDLE_TYPE_OPAQUE_WIN32_KMT_BIT`.
pub const HANDLE_TYPE_OPAQUE_WIN32_KMT_BIT: u32 = 0x4;

/// Native flag bit of `VK_EXTERNAL_SEMAPHORE_HANDLE_TYPE_D3D12_FENCE_BIT`.
pub const HANDLE_TYPE_D3D12_FENCE_BIT: u32 = 0x8;

/// Native flag bit of `VK_EXTERNAL_SEMAPHORE_HANDLE_TYPE_SYNC_FD_BIT`.
pub const HANDLE_TYPE_SYNC_FD_BIT: u32 = 0x10;

/// Represents handle types that semaphores can be exported to.
#[derive(Clone, Copy, Debug, PartialEq, Eq, Hash, Structural)]
pub enum ExternalSemaphoreHandleType {
    /// A POSIX file descriptor, only meaningful to the same driver.
    OpaqueFd,
    /// A Windows NT handle, only meaningful to the same driver.
    OpaqueWin32,
    /// A global share handle of Windows, only meaningful to the same driver.
    OpaqueWin32Kmt,
    /// A Direct3D 12 fence.
    D3d12Fence,
    /// A POSIX file descriptor of a Linux sync file.
    SyncFd,
}

impl ExternalSemaphoreHandleType {
    /// The native flag bit of this handle type.
    pub open spec fn bit(self) -> u32 {
        match self {
            ExternalSemaphoreHandleType::OpaqueFd => HANDLE_TYPE_OPAQUE_FD_BIT,
            ExternalSemaphoreHandleType::OpaqueWin32 => HANDLE_TYPE_OPAQUE_WIN32_BIT,
            ExternalSemaphoreHandleType::OpaqueWin32Kmt => HANDLE_TYPE_OPAQUE_WIN32_KMT_BIT,
            ExternalSemaphoreHandleType::D3d12Fence => HANDLE_TYPE_D3D12_FENCE_BIT,
            ExternalSemaphoreHandleType::SyncFd => HANDLE_TYPE_SYNC_FD_BIT,
        }
    }

    /// Returns the native flag bit of this handle type.
    pub fn to_vk(&self) -> (r: u32)
        ensures
            r == self.bit(),
    {
        match *self {
            ExternalSemaphoreHandleType::OpaqueFd => HANDLE_TYPE_OPAQUE_FD_BIT,
            ExternalSemaphoreHandleType::OpaqueWin32 => HANDLE_TYPE_OPAQUE_WIN32_BIT,
            ExternalSemaphoreHandleType::OpaqueWin32Kmt => HANDLE_TYPE_OPAQUE_WIN32_KMT_BIT,
            ExternalSemaphoreHandleType::D3d12Fence => HANDLE_TYPE_D3D12_FENCE_BIT,
            ExternalSemaphoreHandleType::SyncFd => HANDLE_TYPE_SYNC_FD_BIT,
        }
    }

    /// Returns the handle type whose native flag bit is `bits`, if there is one.
    pub fn from_vk(bits: u32) -> (r: Option<ExternalSemaphoreHandleType>)
        ensures
            forall|t: ExternalSemaphoreHandleType| r == Some(t) <==> t.bit() == bits,
    {
        if bits == HANDLE_TYPE_OPAQUE_FD_BIT {
            Some(ExternalSemaphoreHandleType::OpaqueFd)
        } else if bits == HANDLE_TYPE_OPAQUE_WIN32_BIT {
            Some(ExternalSemaphoreHandleType::OpaqueWin32)
        } else if bits == HANDLE_TYPE_OPAQUE_WIN32_KMT_BIT {
            Some(ExternalSemaphoreHandleType::OpaqueWin32Kmt)
        } else if bits == HANDLE_TYPE_D3D12_FENCE_BIT {
            Some(ExternalSemaphoreHandleType::D3d12Fence)
        } else if bits == HANDLE_TYPE_SYNC_FD_BIT {
            Some(ExternalSemaphoreHandleType::SyncFd)
        } else {
            None
        }
    }
}

/// The native flag mask that holds the bit of every handle type in `s`.
pub open spec fn vk_mask(s: Seq<ExternalSemaphoreHandleType>) -> u32
    decreases s.len(),
{
    if s.len() == 0 {
        0
    } else {
        vk_mask(s.drop_last()) | s.last().bit()
    }
}

/// Returns the native flag mask of a list of handle types: the union of their bits.
pub fn handle_types_to_vk(handle_types: &[ExternalSemaphoreHandleType]) -> (r: u32)
    ensures
        r == vk_mask(handle_types@),
        forall|t: ExternalSemaphoreHandleType| (r & t.bit()) != 0 <==> handle_types@.contains(t),
{
    let mut mask: u32 = 0;
    let mut i: usize = 0;
    while i < handle_types.len()
        invariant
            i <= handle_types@.len(),
            mask == vk_mask(handle_types@.take(i as int)),
        decreases handle_types@.len() - i,
    {
        assert(handle_types@.take(i as int + 1).drop_last() =~= handle_types@.take(i as int));
        mask = mask | handle_types[i].to_vk();
        i = i + 1;
    }
    assert(handle_types@.take(i as int) =~= handle_types@);
    proof {
        lemma_vk_mask_contains(handle_types@);
    }
    mask
}

/// A handle type's bit is set in the mask of a list exactly when the list holds it.
pub proof fn lemma_vk_mask_contains(s: Seq<ExternalSemaphoreHandleType>)
    ensures
        forall|t: ExternalSemaphoreHandleType| (vk_mask(s) & t.bit()) != 0 <==> s.contains(t),
    decreases s.len(),
{
    if s.len() > 0 {
        let p = s.drop_last();
        lemma_vk_mask_contains(p);
        assert forall|t: ExternalSemaphoreHandleType|
            (vk_mask(s) & t.bit()) != 0 <==> s.contains(t) by {
            let m = vk_mask(p);
            let b = s.last().bit();
            let c = t.bit();
            assert(((m | b) & c) != 0 <==> ((m & c) != 0 || (b & c) != 0)) by (bit_vector);
            lemma_bits_distinct(s.last(), t);
            if p.contains(t) {
                let k = choose|k: int| 0 <= k < p.len() && p[k] == t;
                assert(s[k] == t);
            }
            if s.contains(t) && s.last() != t {
                let k = choose|k: int| 0 <= k < s.len() && s[k] == t;
                assert(p[k] == t);
            }
        }
    } else {
        assert forall|t: ExternalSemaphoreHandleType| (vk_mask(s) & t.bit()) == 0 by {
            let c = t.bit();
            assert(0u32 & c == 0) by (bit_vector);
        }
    }
}

/// Two handle types share a bit exactly when they are the same type.
proof fn lemma_bits_distinct(a: ExternalSemaphoreHandleType, b: ExternalSemaphoreHandleType)
    ensures
        (a.bit() & b.bit()) != 0 <==> a == b,
{
    assert(0x1u32 & 0x1u32 != 0) by (bit_vector);
    assert(0x2u32 & 0x2u32 != 0) by (bit_vector);
    assert(0x4u32 & 0x4u32 != 0) by (bit_vector);
    assert(0x8u32 & 0x8u32 != 0) by (bit_vector);
    assert(0x10u32 & 0x10u32 != 0) by (bit_vector);
    assert(0x1u32 & 0x2u32 == 0 && 0x1u32 & 0x4u32 == 0 && 0x1u32 & 0x8u32 == 0 && 0x1u32 & 0x10u32 == 0) by (bit_vector);
    assert(0x2u32 & 0x1u32 == 0 && 0x2u32 & 0x4u32 == 0 && 0x2u32 & 0x8u32 == 0 && 0x2u32 & 0x10u32 == 0) by (bit_vector);
    assert(0x4u32 & 0x1u32 == 0 && 0x4u32 & 0x2u32 == 0 && 0x4u32 & 0x8u32 == 0 && 0x4u32 & 0x10u32 == 0) by (bit_vector);
    assert(0x8u32 & 0x1u32 == 0 && 0x8u32 & 0x2u32 == 0 && 0x8u32 & 0x4u32 == 0 && 0x8u32 & 0x10u32 == 0) by (bit_vector);
    assert(0x10u32 & 0x1u32 == 0 && 0x10u32 & 0x2u32 == 0 && 0x10u32 & 0x4u32 == 0 && 0x10u32 & 0x8u32 == 0) by (bit_vector);
}

} // verus!
