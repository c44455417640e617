//! Platform abstraction for PC integrations.
//!
//! The protocol and connection layers never call OS-specific APIs directly;
//! which operating system the program runs on is handed in by the caller.
use crate::protocol::HfpSupport;
use vstd::prelude::*;

pub mod bluetooth;
pub mod bluetooth_transport;
pub mod rfcomm;
pub mod windows_bluetooth;

verus! {

#[derive(Debug, Clone, Copy, PartialEq, Eq, Structural)]
pub enum PlatformKind {
    Windows,
    MacOS,
    Linux,
    Unknown,
}

/// What the control plane needs from the operating system: which platform it
/// is, whether it can act as a Bluetooth Hands-Free unit, and call commands.
/// The desktop backends accept every call command.
pub trait PlatformBackend {
    spec fn spec_kind(&self) -> PlatformKind;

    spec fn spec_hfp_support(&self) -> HfpSupport;

    fn kind(&self) -> (r: PlatformKind)
        ensures
            r == self.spec_kind(),
    ;

    fn hfp_support(&self) -> (r: HfpSupport)
        ensures
            r == self.spec_hfp_support(),
    ;

    fn answer_call(&self) -> (r: Result<(), String>)
        ensures
            r is Ok,
    ;

    fn decline_call(&self) -> (r: Result<(), String>)
        ensures
            r is Ok,
    ;

    fn end_call(&self) -> (r: Result<(), String>)
        ensures
            r is Ok,
    ;
}

pub struct LinuxBackend;

impl LinuxBackend {
    pub fn new() -> Self {
        LinuxBackend
    }
}

impl Default for LinuxBackend {
    fn default() -> Self {
        LinuxBackend::new()
    }
}

impl PlatformBackend for LinuxBackend {
    open spec fn spec_kind(&self) -> PlatformKind {
        PlatformKind::Linux
    }

    open spec fn spec_hfp_support(&self) -> HfpSupport {
        HfpSupport::Unknown
    }

    fn kind(&self) -> (r: PlatformKind) {
        PlatformKind::Linux
    }

    fn hfp_support(&self) -> (r: HfpSupport) {
        HfpSupport::Unknown
    }

    fn answer_call(&self) -> (r: Result<(), String>) {
        Ok(())
    }

    fn decline_call(&self) -> (r: Result<(), String>) {
        Ok(())
    }

    fn end_call(&self) -> (r: Result<(), String>) {
        Ok(())
    }
}

pub struct MacOSBackend;

impl MacOSBackend {
    pub fn new() -> Self {
        MacOSBackend
    }
}

impl Default for MacOSBackend {
    fn default() -> Self {
        MacOSBackend::new()
    }
}

impl PlatformBackend for MacOSBackend {
    open spec fn spec_kind(&self) -> PlatformKind {
        PlatformKind::MacOS
    }

    open spec fn spec_hfp_support(&self) -> HfpSupport {
        HfpSupport::Unknown
    }

    fn kind(&self) -> (r: PlatformKind) {
        PlatformKind::MacOS
    }

    fn hfp_support(&self) -> (r: HfpSupport) {
        HfpSupport::Unknown
    }

    fn answer_call(&self) -> (r: Result<(), String>) {
        Ok(())
    }

    fn decline_call(&self) -> (r: Result<(), String>) {
        Ok(())
    }

    fn end_call(&self) -> (r: Result<(), String>) {
        Ok(())
    }
}

pub struct WindowsBackend;

impl WindowsBackend {
    pub fn new() -> Self {
        WindowsBackend
    }
}

impl Default for WindowsBackend {
    fn default() -> Self {
        WindowsBackend::new()
    }
}

impl PlatformBackend for WindowsBackend {
    open spec fn spec_kind(&self) -> PlatformKind {
        PlatformKind::Windows
    }

    open spec fn spec_hfp_support(&self) -> HfpSupport {
        HfpSupport::Unknown
    }

    fn kind(&self) -> (r: PlatformKind) {
        PlatformKind::Windows
    }

    fn hfp_support(&self) -> (r: HfpSupport) {
        HfpSupport::Unknown
    }

    fn answer_call(&self) -> (r: Result<(), String>) {
        Ok(())
    }

    fn decline_call(&self) -> (r: Result<(), String>) {
        Ok(())
    }

    fn end_call(&self) -> (r: Result<(), String>) {
        Ok(())
    }
}

/// The backend of the platform the program runs on.
pub enum CurrentBackend {
    Windows(WindowsBackend),
    MacOS(MacOSBackend),
    Linux(LinuxBackend),
}

impl PlatformBackend for CurrentBackend {
    open spec fn spec_kind(&self) -> PlatformKind {
        match self {
            CurrentBackend::Windows(_) => PlatformKind::Windows,
            CurrentBackend::MacOS(_) => PlatformKind::MacOS,
            CurrentBackend::Linux(_) => PlatformKind::Linux,
        }
    }

    open spec fn spec_hfp_support(&self) -> HfpSupport {
        HfpSupport::Unknown
    }

    fn kind(&self) -> (r: PlatformKind) {
        match self {
            CurrentBackend::Windows(b) => b.kind(),
            CurrentBackend::MacOS(b) => b.kind(),
            CurrentBackend::Linux(b) => b.kind(),
        }
    }

    fn hfp_support(&self) -> (r: HfpSupport) {
        match self {
            CurrentBackend::Windows(b) => b.hfp_support(),
            CurrentBackend::MacOS(b) => b.hfp_support(),
            CurrentBackend::Linux(b) => b.hfp_support(),
        }
    }

    fn answer_call(&self) -> (r: Result<(), String>) {
        Ok(())
    }

    fn decline_call(&self) -> (r: Result<(), String>) {
        Ok(())
    }

    fn end_call(&self) -> (r: Result<(), String>) {
        Ok(())
    }
}

/// The backend of the host platform. Only Windows, macOS and Linux have one.
pub fn current(host: PlatformKind) -> (r: CurrentBackend)
    requires
        host != PlatformKind::Unknown,
    ensures
        r.spec_kind() == host,
{
    match host {
        PlatformKind::Windows => CurrentBackend::Windows(WindowsBackend::new()),
        PlatformKind::MacOS => CurrentBackend::MacOS(MacOSBackend::new()),
        _ => CurrentBackend::Linux(LinuxBackend::new()),
    }
}

} // verus!
