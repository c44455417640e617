//! UDP broadcast discovery in the local network.
use crate::platform::PlatformKind;
use vstd::prelude::*;

pub mod ble_scanner;
pub mod peer_registry;
pub mod transport;

verus! {

pub const DISCOVERY_PORT: u16 = 17592;

/// What the PC broadcasts about itself.
pub struct Announce {
    pub device_id: String,
    pub device_name: String,
    pub platform: String,
    pub pairing_port: u16,
    /// SHA-256 fingerprint of the PC persistent identity certificate.
    pub fingerprint: String,
}

/// The platform name announced for a host: "windows", "macos", and "linux"
/// for every other host.
pub fn current_platform(host: PlatformKind) -> (r: &'static str)
    ensures
        r@ == (if host == PlatformKind::Windows {
            "windows"@
        } else if host == PlatformKind::MacOS {
            "macos"@
        } else {
            "linux"@
        }),
{
    if host == PlatformKind::Windows {
        "windows"
    } else if host == PlatformKind::MacOS {
        "macos"
    } else {
        "linux"
    }
}

/// The announcement of this PC.
pub fn announce(
    device_id: String,
    device_name: String,
    host: PlatformKind,
    pairing_port: u16,
    fingerprint: String,
) -> (r: Announce)
    ensures
        r.device_id == device_id,
        r.device_name == device_name,
        r.platform@ == current_platform_name(host),
        r.pairing_port == pairing_port,
        r.fingerprint == fingerprint,
{
    Announce {
        device_id,
        device_name,
        platform: String::from_str(current_platform(host)),
        pairing_port,
        fingerprint,
    }
}

pub open spec fn current_platform_name(host: PlatformKind) -> Seq<char> {
    if host == PlatformKind::Windows {
        "windows"@
    } else if host == PlatformKind::MacOS {
        "macos"@
    } else {
        "linux"@
    }
}

} // verus!
