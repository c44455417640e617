//! Decisions of the Linux HFP support detection over BlueZ.
//!
//! BlueZ exposes each adapter with an `Adapter1` interface whose `UUIDs`
//! property lists the profiles the stack can serve. The decision:
//!
//! 1. System bus unreachable, BlueZ missing, or no adapter -> Unsupported:
//!    there is no Bluetooth stack, so call audio cannot work.
//! 2. Some adapter advertises a Hands-Free profile UUID (111E HF / 111F AG)
//!    -> Supported.
//! 3. Adapters exist but none advertises Hands-Free -> Unknown: it depends on
//!    the audio stack setup and needs manual verification.
//!
//! The D-Bus calls themselves are made by the caller, which hands in what they
//! returned.
use crate::protocol::HfpSupport;
use crate::text::{to_lowercase, unicode_lowercase};
use vstd::prelude::*;

verus! {

/// Hands-Free unit role (111E).
pub open spec fn hands_free_unit_uuid() -> Seq<char> {
    "0000111e-0000-1000-8000-00805f9b34fb"@
}

/// Audio Gateway role (111F).
pub open spec fn audio_gateway_uuid() -> Seq<char> {
    "0000111f-0000-1000-8000-00805f9b34fb"@
}

pub open spec fn is_hands_free_uuid(uuid: Seq<char>) -> bool {
    let lower = unicode_lowercase(uuid);
    lower == hands_free_unit_uuid() || lower == audio_gateway_uuid()
}

/// Whether an adapter's `UUIDs` property (its string items) lists a Hands-Free
/// profile, compared lower-cased.
pub fn adapter_supports_hands_free(uuids: &Vec<String>) -> (r: bool)
    ensures
        r == exists|i: int| 0 <= i < uuids@.len() && is_hands_free_uuid(#[trigger] uuids@[i]@),
{
    let hf = String::from_str("0000111e-0000-1000-8000-00805f9b34fb");
    let ag = String::from_str("0000111f-0000-1000-8000-00805f9b34fb");
    let mut i: usize = 0;
    while i < uuids.len()
        invariant
            0 <= i <= uuids@.len(),
            hf@ == hands_free_unit_uuid(),
            ag@ == audio_gateway_uuid(),
            forall|j: int| 0 <= j < i ==> !is_hands_free_uuid(#[trigger] uuids@[j]@),
        decreases uuids@.len() - i,
    {
        let lower = to_lowercase(uuids[i].as_str());
        if lower == hf || lower == ag {
            return true;
        }
        i = i + 1;
    }
    false
}

/// The support level of the host from the adapters BlueZ reports: for each
/// adapter, whether its profile list could be read and whether it holds a
/// Hands-Free profile. An adapter whose list cannot be read is skipped.
pub fn support_from_adapters(adapters: &Vec<Option<bool>>) -> (r: HfpSupport)
    ensures
        adapters@.len() == 0 ==> r == HfpSupport::Unsupported,
        adapters@.len() > 0 && (exists|i: int|
            0 <= i < adapters@.len() && #[trigger] adapters@[i] == Some(true)) ==> r
            == HfpSupport::Supported,
        adapters@.len() > 0 && !(exists|i: int|
            0 <= i < adapters@.len() && #[trigger] adapters@[i] == Some(true)) ==> r
            == HfpSupport::Unknown,
{
    if adapters.len() == 0 {
        return HfpSupport::Unsupported;
    }
    let mut i: usize = 0;
    while i < adapters.len()
        invariant
            0 <= i <= adapters@.len(),
            forall|j: int| 0 <= j < i ==> #[trigger] adapters@[j] != Some(true),
        decreases adapters@.len() - i,
    {
        match adapters[i] {
            Some(true) => {
                return HfpSupport::Supported;
            },
            _ => {},
        }
        i = i + 1;
    }
    HfpSupport::Unknown
}

/// The detection result: when the system bus or BlueZ could not be queried
/// (`None`) the host is reported Unsupported; otherwise the adapters decide.
pub fn detect(adapters: &Option<Vec<Option<bool>>>) -> (r: HfpSupport)
    ensures
        adapters is None ==> r == HfpSupport::Unsupported,
        adapters matches Some(a) ==> r == support_from_adapters_spec(a@),
{
    match adapters {
        None => HfpSupport::Unsupported,
        Some(a) => support_from_adapters(a),
    }
}

/// What `support_from_adapters` returns for these adapter reports.
pub open spec fn support_from_adapters_spec(adapters: Seq<Option<bool>>) -> HfpSupport {
    if adapters.len() == 0 {
        HfpSupport::Unsupported
    } else if exists|i: int| 0 <= i < adapters.len() && #[trigger] adapters[i] == Some(true) {
        HfpSupport::Supported
    } else {
        HfpSupport::Unknown
    }
}

} // verus!
