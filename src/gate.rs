//! The capability check that runs before an exportable semaphore is created.
use vstd::prelude::*;
use crate::capabilities::DeviceCapabilities;
use crate::error::ExternalSemaphoreError;
use crate::handle_type::ExternalSemaphoreHandleType;

verus! {

/// The instance and device extensions that external semaphores need are all there.
pub open spec fn extensions_ready(caps: DeviceCapabilities) -> bool {
    &&& caps.instance_extensions.khr_get_physical_device_properties2
    &&& caps.instance_extensions.khr_external_semaphore_capabilities
    &&& caps.device_extensions.khr_external_semaphore
}

/// The physical device supports exporting semaphores to this handle type.
pub open spec fn supported(caps: DeviceCapabilities, t: ExternalSemaphoreHandleType) -> bool {
    caps.external_semaphore_properties.entry(t).external_semaphore_features != 0
}

/// `b` may be requested together with `a`: it is `a` itself, or it is in `a`'s
/// compatible handle types.
pub open spec fn accepts(
    caps: DeviceCapabilities,
    a: ExternalSemaphoreHandleType,
    b: ExternalSemaphoreHandleType,
) -> bool {
    a == b || (caps.external_semaphore_properties.entry(a).compatible_handle_types & b.bit()) != 0
}

/// Each of `a` and `b` accepts the other.
pub open spec fn mutually_compatible(
    caps: DeviceCapabilities,
    a: ExternalSemaphoreHandleType,
    b: ExternalSemaphoreHandleType,
) -> bool {
    accepts(caps, a, b) && accepts(caps, b, a)
}

/// Every requested handle type is supported.
pub open spec fn all_supported(caps: DeviceCapabilities, s: Seq<ExternalSemaphoreHandleType>) -> bool {
    forall|k: int| 0 <= k < s.len() ==> supported(caps, #[trigger] s[k])
}

/// Every requested handle type accepts every other one.
pub open spec fn all_accepted(caps: DeviceCapabilities, s: Seq<ExternalSemaphoreHandleType>) -> bool {
    forall|i: int, j: int| 0 <= i < s.len() && 0 <= j < s.len() ==> accepts(caps, #[trigger] s[i], #[trigger] s[j])
}

/// `k` is the first position whose handle type is not supported.
pub open spec fn first_unsupported(caps: DeviceCapabilities, s: Seq<ExternalSemaphoreHandleType>, k: int) -> bool {
    &&& 0 <= k < s.len()
    &&& !supported(caps, s[k])
    &&& forall|i: int| 0 <= i < k ==> supported(caps, #[trigger] s[i])
}

/// `(i, j)` is the first pair of positions, in the order of `s` and then of `s` again,
/// where the handle type at `i` does not accept the one at `j`.
pub open spec fn first_rejected(caps: DeviceCapabilities, s: Seq<ExternalSemaphoreHandleType>, i: int, j: int) -> bool {
    &&& 0 <= i < s.len()
    &&& 0 <= j < s.len()
    &&& !accepts(caps, s[i], s[j])
    &&& forall|a: int, b: int| 0 <= a < i && 0 <= b < s.len() ==> accepts(caps, #[trigger] s[a], #[trigger] s[b])
    &&& forall|b: int| 0 <= b < j ==> accepts(caps, s[i], #[trigger] s[b])
}

/// The position of the first unsupported handle type, where there is one.
pub open spec fn first_unsupported_at(caps: DeviceCapabilities, s: Seq<ExternalSemaphoreHandleType>) -> int {
    choose|k: int| first_unsupported(caps, s, k)
}

/// The first rejected pair of positions, where there is one.
pub open spec fn first_rejected_at(caps: DeviceCapabilities, s: Seq<ExternalSemaphoreHandleType>) -> (int, int) {
    choose|i: int, j: int| first_rejected(caps, s, i, j)
}

/// The outcome of the check on a device's capabilities and a list of requested
/// handle types: the three extensions in turn, then support of each type in the
/// order of the list, then compatibility of each type with every other one.
pub open spec fn exportable_check(
    caps: DeviceCapabilities,
    s: Seq<ExternalSemaphoreHandleType>,
) -> Result<(), ExternalSemaphoreError> {
    if !caps.instance_extensions.khr_get_physical_device_properties2 {
        Err(ExternalSemaphoreError::GetPhysicalDeviceProperties2NotEnabled)
    } else if !caps.instance_extensions.khr_external_semaphore_capabilities {
        Err(ExternalSemaphoreError::ExternalSemaphoreCapabilitiesNotEnabled)
    } else if !caps.device_extensions.khr_external_semaphore {
        Err(ExternalSemaphoreError::ExternalSemaphoreNotEnabled)
    } else if !all_supported(caps, s) {
        let k = first_unsupported_at(caps, s);
        Err(ExternalSemaphoreError::HandleTypeNotSupported(s[k]))
    } else if !all_accepted(caps, s) {
        let (i, j) = first_rejected_at(caps, s);
        Err(ExternalSemaphoreError::IncompatibleHandleTypes(s[i], s[j]))
    } else {
        Ok(())
    }
}

/// Checks that a semaphore exportable to `handle_types` can be created with these
/// capabilities. Makes no native call and leaves the capabilities as they are.
pub fn check_exportable(
    caps: &DeviceCapabilities,
    handle_types: &[ExternalSemaphoreHandleType],
) -> (r: Result<(), ExternalSemaphoreError>)
    ensures
        r == exportable_check(*caps, handle_types@),
        r is Ok <==> extensions_ready(*caps) && all_supported(*caps, handle_types@) && all_accepted(*caps, handle_types@),
        r is Err ==> r->Err_0.is_capability_error(),
{
    let ghost s = handle_types@;
    if !caps.instance_extensions.khr_get_physical_device_properties2 {
        return Err(ExternalSemaphoreError::GetPhysicalDeviceProperties2NotEnabled);
    }
    if !caps.instance_extensions.khr_external_semaphore_capabilities {
        return Err(ExternalSemaphoreError::ExternalSemaphoreCapabilitiesNotEnabled);
    }
    if !caps.device_extensions.khr_external_semaphore {
        return Err(ExternalSemaphoreError::ExternalSemaphoreNotEnabled);
    }
    let n = handle_types.len();
    let mut k: usize = 0;
    while k < n
        invariant
            n == s.len(),
            s == handle_types@,
            extensions_ready(*caps),
            k <= n,
            forall|i: int| 0 <= i < k ==> supported(*caps, #[trigger] s[i]),
        decreases n - k,
    {
        let properties = caps.external_semaphore_properties.get(handle_types[k]);
        if properties.external_semaphore_features == 0 {
            proof {
                assert(first_unsupported(*caps, s, k as int));
                let c = first_unsupported_at(*caps, s);
                if c < k {
                    assert(supported(*caps, s[c]));
                } else if c > k {
                    assert(supported(*caps, s[k as int]));
                }
                assert(c == k);
                assert(!all_supported(*caps, s));
            }
            return Err(ExternalSemaphoreError::HandleTypeNotSupported(handle_types[k]));
        }
        k = k + 1;
    }
    let mut i: usize = 0;
    while i < n
        invariant
            n == s.len(),
            s == handle_types@,
            extensions_ready(*caps),
            all_supported(*caps, s),
            i <= n,
            forall|a: int, b: int| 0 <= a < i && 0 <= b < n ==> accepts(*caps, #[trigger] s[a], #[trigger] s[b]),
        decreases n - i,
    {
        let properties = caps.external_semaphore_properties.get(handle_types[i]);
        let mut j: usize = 0;
        while j < n
            invariant
                n == s.len(),
                s == handle_types@,
            extensions_ready(*caps),
                all_supported(*caps, s),
                i < n,
                j <= n,
                properties == caps.external_semaphore_properties.entry(s[i as int]),
                forall|a: int, b: int| 0 <= a < i && 0 <= b < n ==> accepts(*caps, #[trigger] s[a], #[trigger] s[b]),
                forall|b: int| 0 <= b < j ==> accepts(*caps, s[i as int], #[trigger] s[b]),
            decreases n - j,
        {
            if handle_types[j] != handle_types[i]
                && handle_types[j].to_vk() & properties.compatible_handle_types == 0 {
                proof {
                    let bits = properties.compatible_handle_types;
                    let b = s[j as int].bit();
                    assert(b & bits == bits & b) by (bit_vector);
                    assert(first_rejected(*caps, s, i as int, j as int));
                    let (ci, cj) = first_rejected_at(*caps, s);
                    if ci < i {
                        assert(accepts(*caps, s[ci], s[cj]));
                    } else if ci > i {
                        assert(accepts(*caps, s[i as int], s[j as int]));
                    } else if cj < j {
                        assert(accepts(*caps, s[i as int], s[cj]));
                    } else if cj > j {
                        assert(accepts(*caps, s[ci], s[j as int]));
                    }
                    assert(ci == i && cj == j);
                    assert(!all_accepted(*caps, s));
                }
                return Err(ExternalSemaphoreError::IncompatibleHandleTypes(handle_types[i], handle_types[j]));
            }
            proof {
                let bits = properties.compatible_handle_types;
                let b = s[j as int].bit();
                assert(b & bits == bits & b) by (bit_vector);
            }
            j = j + 1;
        }
        i = i + 1;
    }
    Ok(())
}

/// The check is a function of its inputs: the same capabilities and the same list of
/// handle types give the same outcome.
pub proof fn lemma_check_deterministic(
    caps1: DeviceCapabilities,
    caps2: DeviceCapabilities,
    s1: Seq<ExternalSemaphoreHandleType>,
    s2: Seq<ExternalSemaphoreHandleType>,
)
    requires
        caps1 == caps2,
        s1 =~= s2,
    ensures
        exportable_check(caps1, s1) == exportable_check(caps2, s2),
{
}

/// Once the extensions are there and every requested type is supported, the check
/// fails with `IncompatibleHandleTypes` exactly when some pair of requested types is
/// not mutually compatible; one such pair is enough to fail the whole request, and
/// the two types it names are such a pair.
pub proof fn lemma_check_pairwise(caps: DeviceCapabilities, s: Seq<ExternalSemaphoreHandleType>)
    requires
        extensions_ready(caps),
        all_supported(caps, s),
    ensures
        exportable_check(caps, s) is Err <==> exists|i: int, j: int|
            0 <= i < s.len() && 0 <= j < s.len() && !mutually_compatible(caps, #[trigger] s[i], #[trigger] s[j]),
        exportable_check(caps, s) is Err ==> exportable_check(caps, s)->Err_0 is IncompatibleHandleTypes,
        forall|a: ExternalSemaphoreHandleType, b: ExternalSemaphoreHandleType|
            exportable_check(caps, s) == Err::<(), ExternalSemaphoreError>(ExternalSemaphoreError::IncompatibleHandleTypes(a, b))
                ==> s.contains(a) && s.contains(b) && !mutually_compatible(caps, a, b),
{
    if !all_accepted(caps, s) {
        let (i, j) = choose|i: int, j: int|
            0 <= i < s.len() && 0 <= j < s.len() && !accepts(caps, #[trigger] s[i], #[trigger] s[j]);
        lemma_first_rejected_exists(caps, s, i, j);
        let (ci, cj) = first_rejected_at(caps, s);
        assert(!mutually_compatible(caps, s[ci], s[cj]));
    } else {
        assert forall|i: int, j: int| 0 <= i < s.len() && 0 <= j < s.len()
            implies mutually_compatible(caps, #[trigger] s[i], #[trigger] s[j]) by {
            assert(accepts(caps, s[i], s[j]));
            assert(accepts(caps, s[j], s[i]));
        }
    }
}

/// Where some pair of positions is rejected, a first such pair exists.
proof fn lemma_first_rejected_exists(caps: DeviceCapabilities, s: Seq<ExternalSemaphoreHandleType>, i: int, j: int)
    requires
        0 <= i < s.len(),
        0 <= j < s.len(),
        !accepts(caps, s[i], s[j]),
    ensures
        exists|ci: int, cj: int| first_rejected(caps, s, ci, cj),
    decreases i, j,
{
    if exists|a: int, b: int| 0 <= a < i && 0 <= b < s.len() && !accepts(caps, #[trigger] s[a], #[trigger] s[b]) {
        let (a, b) = choose|a: int, b: int| 0 <= a < i && 0 <= b < s.len() && !accepts(caps, #[trigger] s[a], #[trigger] s[b]);
        lemma_first_rejected_exists(caps, s, a, b);
    } else if exists|b: int| 0 <= b < j && !accepts(caps, s[i], #[trigger] s[b]) {
        let b = choose|b: int| 0 <= b < j && !accepts(caps, s[i], #[trigger] s[b]);
        lemma_first_rejected_exists(caps, s, i, b);
    } else {
        assert(first_rejected(caps, s, i, j));
    }
}

} // verus!
