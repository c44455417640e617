//! macOS HFP backend boundary. Native target: CoreBluetooth/IOBluetooth plus
//! the system telephony and audio routing APIs.
use super::hfp::{refuse, HfpBackend};
use crate::platform::PlatformKind;
use crate::protocol::HfpSupport;
use vstd::prelude::*;

verus! {

#[derive(Debug, Default)]
pub struct MacOsHfpBackend;

impl MacOsHfpBackend {
    pub fn new() -> Self {
        MacOsHfpBackend
    }

    /// Capability probe, kept apart from the call commands so the UI can tell
    /// "Bluetooth unavailable" from a failed call command: support is not
    /// claimed on this backend's own platform and denied elsewhere.
    pub fn probe(host: PlatformKind) -> (r: HfpSupport)
        ensures
            r == (if host == PlatformKind::MacOS {
                HfpSupport::Unknown
            } else {
                HfpSupport::Unsupported
            }),
    {
        if host == PlatformKind::MacOS {
            HfpSupport::Unknown
        } else {
            HfpSupport::Unsupported
        }
    }
}

/// The backend as installed on `host`.
pub struct HostedMacOsHfpBackend {
    pub backend: MacOsHfpBackend,
    pub host: PlatformKind,
}

impl HfpBackend for HostedMacOsHfpBackend {
    open spec fn spec_support(&self) -> HfpSupport {
        if self.host == PlatformKind::MacOS {
            HfpSupport::Unknown
        } else {
            HfpSupport::Unsupported
        }
    }

    open spec fn answer_refusal(&self) -> Option<Seq<char>> {
        Some("macOS IOBluetooth HFP command backend is not wired yet"@)
    }

    open spec fn decline_refusal(&self) -> Option<Seq<char>> {
        Some("macOS IOBluetooth HFP command backend is not wired yet"@)
    }

    open spec fn end_refusal(&self) -> Option<Seq<char>> {
        Some("macOS IOBluetooth HFP command backend is not wired yet"@)
    }

    fn support(&self) -> (r: HfpSupport) {
        MacOsHfpBackend::probe(self.host)
    }

    fn answer_call(&self) -> (r: Result<(), String>) {
        refuse("macOS IOBluetooth HFP command backend is not wired yet")
    }

    fn decline_call(&self) -> (r: Result<(), String>) {
        refuse("macOS IOBluetooth HFP command backend is not wired yet")
    }

    fn end_call(&self) -> (r: Result<(), String>) {
        refuse("macOS IOBluetooth HFP command backend is not wired yet")
    }
}

} // verus!
