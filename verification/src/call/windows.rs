//! Windows HFP backend boundary. Windows-specific details stay out of the
//! shared call controller; until the Windows Runtime bindings are enabled the
//! backend does not claim support.
use super::hfp::{refuse, HfpBackend};
use crate::platform::PlatformKind;
use crate::protocol::HfpSupport;
use vstd::prelude::*;

verus! {

#[derive(Debug, Default)]
pub struct WindowsHfpBackend;

impl WindowsHfpBackend {
    pub fn new() -> Self {
        WindowsHfpBackend
    }

    /// Capability probe, kept apart from the call commands so the UI can tell
    /// "Bluetooth unavailable" from a failed call command: support is not
    /// claimed on this backend's own platform and denied elsewhere.
    pub fn probe(host: PlatformKind) -> (r: HfpSupport)
        ensures
            r == (if host == PlatformKind::Windows {
                HfpSupport::Unknown
            } else {
                HfpSupport::Unsupported
            }),
    {
        if host == PlatformKind::Windows {
            HfpSupport::Unknown
        } else {
            HfpSupport::Unsupported
        }
    }
}

/// The backend as installed on `host`.
pub struct HostedWindowsHfpBackend {
    pub backend: WindowsHfpBackend,
    pub host: PlatformKind,
}

impl HfpBackend for HostedWindowsHfpBackend {
    open spec fn spec_support(&self) -> HfpSupport {
        if self.host == PlatformKind::Windows {
            HfpSupport::Unknown
        } else {
            HfpSupport::Unsupported
        }
    }

    open spec fn answer_refusal(&self) -> Option<Seq<char>> {
        Some("Windows HFP command backend is not wired to Windows Runtime yet"@)
    }

    open spec fn decline_refusal(&self) -> Option<Seq<char>> {
        Some("Windows HFP command backend is not wired to Windows Runtime yet"@)
    }

    open spec fn end_refusal(&self) -> Option<Seq<char>> {
        Some("Windows HFP command backend is not wired to Windows Runtime yet"@)
    }

    fn support(&self) -> (r: HfpSupport) {
        WindowsHfpBackend::probe(self.host)
    }

    fn answer_call(&self) -> (r: Result<(), String>) {
        refuse("Windows HFP command backend is not wired to Windows Runtime yet")
    }

    fn decline_call(&self) -> (r: Result<(), String>) {
        refuse("Windows HFP command backend is not wired to Windows Runtime yet")
    }

    fn end_call(&self) -> (r: Result<(), String>) {
        refuse("Windows HFP command backend is not wired to Windows Runtime yet")
    }
}

} // verus!
