//! Decisions of the Windows HFP support detection.
//!
//! No public API answers "does this PC's Bluetooth stack support the
//! Hands-Free role", so the check is evidence based:
//!
//! 1. No default Bluetooth adapter, or no BR/EDR ("Classic") support ->
//!    Unsupported: call audio via HFP is impossible.
//! 2. Some paired device already exposes an RFCOMM Hands-Free service through
//!    this machine's stack -> Supported.
//! 3. Adapter present but nothing proven yet -> Unknown: pair a phone first.
//!
//! The Windows Runtime queries are made by the caller, which hands in what they
//! returned.
use crate::protocol::HfpSupport;
use vstd::prelude::*;

verus! {

/// Standard Bluetooth Hands-Free service UUID (111E).
pub const HANDS_FREE_SERVICE_UUID: u128 = 0x0000111e_0000_1000_8000_00805f9b34fb;

/// The service ids read for a device; none when they could not be read.
pub open spec fn services(device: Option<Vec<u128>>) -> Seq<u128> {
    match device {
        Some(list) => list@,
        None => Seq::empty(),
    }
}

/// Some readable service list of a paired device holds the Hands-Free service.
pub open spec fn any_hands_free(devices: Seq<Option<Vec<u128>>>) -> bool {
    exists|i: int, j: int|
        0 <= i < devices.len() && 0 <= j < services(devices[i]).len() && #[trigger] services(
            devices[i],
        )[j] == HANDS_FREE_SERVICE_UUID
}

/// Support level given the adapter's Classic capability and, for each paired
/// device, its cached RFCOMM service ids (`None` when the device is not a
/// Classic device or its services could not be read: it is skipped).
pub fn detect_with_adapter(classic_supported: bool, devices: &Vec<Option<Vec<u128>>>) -> (r:
    HfpSupport)
    ensures
        !classic_supported ==> r == HfpSupport::Unsupported,
        classic_supported && any_hands_free(devices@) ==> r == HfpSupport::Supported,
        classic_supported && !any_hands_free(devices@) ==> r == HfpSupport::Unknown,
{
    if !classic_supported {
        return HfpSupport::Unsupported;
    }
    let mut i: usize = 0;
    while i < devices.len()
        invariant
            classic_supported,
            0 <= i <= devices@.len(),
            forall|k: int, j: int|
                0 <= k < i && 0 <= j < services(devices@[k]).len() ==> #[trigger] services(
                    devices@[k],
                )[j] != HANDS_FREE_SERVICE_UUID,
        decreases devices@.len() - i,
    {
        match &devices[i] {
            Some(list) => {
                let mut s: usize = 0;
                while s < list.len()
                    invariant
                        classic_supported,
                        i < devices@.len(),
                        services(devices@[i as int]) == list@,
                        0 <= s <= list@.len(),
                        forall|j: int| 0 <= j < s ==> #[trigger] list@[j] != HANDS_FREE_SERVICE_UUID,
                    decreases list@.len() - s,
                {
                    if list[s] == HANDS_FREE_SERVICE_UUID {
                        assert(services(devices@[i as int])[s as int] == HANDS_FREE_SERVICE_UUID);
                        return HfpSupport::Supported;
                    }
                    s = s + 1;
                }
            },
            None => {},
        }
        assert forall|k: int, j: int|
            0 <= k < i + 1 && 0 <= j < services(devices@[k]).len() implies #[trigger] services(
            devices@[k],
        )[j] != HANDS_FREE_SERVICE_UUID by {}
        i = i + 1;
    }
    HfpSupport::Unknown
}

/// The detection result: no default adapter -> Unsupported; a failed query of
/// the adapter -> Unknown; otherwise what the adapter's evidence shows.
pub fn detect_blocking(adapter_found: bool, with_adapter: Option<HfpSupport>) -> (r: HfpSupport)
    ensures
        !adapter_found ==> r == HfpSupport::Unsupported,
        adapter_found ==> r == (match with_adapter {
            Some(s) => s,
            None => HfpSupport::Unknown,
        }),
{
    if !adapter_found {
        return HfpSupport::Unsupported;
    }
    match with_adapter {
        Some(s) => s,
        None => HfpSupport::Unknown,
    }
}

} // verus!
