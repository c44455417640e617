//! Linux HFP backend boundary. The implementation target is BlueZ over D-Bus;
//! D-Bus object paths, profiles and audio routing stay in this module so the
//! call controller remains platform-neutral.
use super::hfp::{refuse, HfpBackend};
use crate::platform::PlatformKind;
use crate::protocol::HfpSupport;
use vstd::prelude::*;

verus! {

#[derive(Debug, Default)]
pub struct LinuxHfpBackend;

impl LinuxHfpBackend {
    pub fn new() -> Self {
        LinuxHfpBackend
    }

    /// Capability probe, kept apart from the call commands so the UI can tell
    /// "Bluetooth unavailable" from a failed call command: support is not
    /// claimed on this backend's own platform and denied elsewhere.
    pub fn probe(host: PlatformKind) -> (r: HfpSupport)
        ensures
            r == (if host == PlatformKind::Linux {
                HfpSupport::Unknown
            } else {
                HfpSupport::Unsupported
            }),
    {
        if host == PlatformKind::Linux {
            HfpSupport::Unknown
        } else {
            HfpSupport::Unsupported
        }
    }
}

/// The backend as installed on `host`.
pub struct HostedLinuxHfpBackend {
    pub backend: LinuxHfpBackend,
    pub host: PlatformKind,
}

impl HfpBackend for HostedLinuxHfpBackend {
    open spec fn spec_support(&self) -> HfpSupport {
        if self.host == PlatformKind::Linux {
            HfpSupport::Unknown
        } else {
            HfpSupport::Unsupported
        }
    }

    open spec fn answer_refusal(&self) -> Option<Seq<char>> {
        Some("Linux BlueZ HFP command backend is not wired yet"@)
    }

    open spec fn decline_refusal(&self) -> Option<Seq<char>> {
        Some("Linux BlueZ HFP command backend is not wired yet"@)
    }

    open spec fn end_refusal(&self) -> Option<Seq<char>> {
        Some("Linux BlueZ HFP command backend is not wired yet"@)
    }

    fn support(&self) -> (r: HfpSupport) {
        LinuxHfpBackend::probe(self.host)
    }

    fn answer_call(&self) -> (r: Result<(), String>) {
        refuse("Linux BlueZ HFP command backend is not wired yet")
    }

    fn decline_call(&self) -> (r: Result<(), String>) {
        refuse("Linux BlueZ HFP command backend is not wired yet")
    }

    fn end_call(&self) -> (r: Result<(), String>) {
        refuse("Linux BlueZ HFP command backend is not wired yet")
    }
}

} // verus!
