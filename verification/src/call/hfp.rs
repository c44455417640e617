//! Platform-neutral HFP capability abstraction.
//!
//! The control plane uses this trait to discover whether the host can expose
//! an HFP Hands-Free endpoint and to forward call commands. Bluetooth audio
//! itself remains native to the operating system.
use crate::platform::PlatformKind;
use crate::protocol::HfpSupport;
use vstd::prelude::*;

pub mod platform;

verus! {

/// The call commands a Hands-Free unit can forward to the phone.
pub trait HfpBackend {
    /// What `support` reports.
    spec fn spec_support(&self) -> HfpSupport;

    /// `None` when the backend answers calls; otherwise the reason with which
    /// it refuses to.
    spec fn answer_refusal(&self) -> Option<Seq<char>>;

    /// `None` when the backend declines ringing calls; otherwise the reason
    /// with which it refuses to.
    spec fn decline_refusal(&self) -> Option<Seq<char>>;

    /// `None` when the backend hangs up calls; otherwise the reason with which
    /// it refuses to.
    spec fn end_refusal(&self) -> Option<Seq<char>>;

    fn support(&self) -> (r: HfpSupport)
        ensures
            r == self.spec_support(),
    ;

    fn answer_call(&self) -> (r: Result<(), String>)
        ensures
            refused_as(self.answer_refusal(), r),
    ;

    fn decline_call(&self) -> (r: Result<(), String>)
        ensures
            refused_as(self.decline_refusal(), r),
    ;

    fn end_call(&self) -> (r: Result<(), String>)
        ensures
            refused_as(self.end_refusal(), r),
    ;
}

/// `r` is what a backend with this refusal answers to a call command.
pub open spec fn refused_as(refusal: Option<Seq<char>>, r: Result<(), String>) -> bool {
    match refusal {
        None => r is Ok,
        Some(reason) => r matches Err(e) && e@ == reason,
    }
}

/// A message as a `String`, with its contents known to the verifier.
pub fn refuse(reason: &str) -> (r: Result<(), String>)
    ensures
        r matches Err(e) && e@ == reason@,
{
    Err(String::from_str(reason))
}

#[derive(Debug, Default)]
pub struct UnsupportedHfpBackend;

impl HfpBackend for UnsupportedHfpBackend {
    open spec fn spec_support(&self) -> HfpSupport {
        HfpSupport::Unsupported
    }

    open spec fn answer_refusal(&self) -> Option<Seq<char>> {
        Some("HFP backend is not available on this platform/build"@)
    }

    open spec fn decline_refusal(&self) -> Option<Seq<char>> {
        Some("HFP backend is not available on this platform/build"@)
    }

    open spec fn end_refusal(&self) -> Option<Seq<char>> {
        Some("HFP backend is not available on this platform/build"@)
    }

    fn support(&self) -> (r: HfpSupport) {
        HfpSupport::Unsupported
    }

    fn answer_call(&self) -> (r: Result<(), String>) {
        refuse("HFP backend is not available on this platform/build")
    }

    fn decline_call(&self) -> (r: Result<(), String>) {
        refuse("HFP backend is not available on this platform/build")
    }

    fn end_call(&self) -> (r: Result<(), String>) {
        refuse("HFP backend is not available on this platform/build")
    }
}

/// The HFP backend of a host platform.
pub enum HostHfpBackend {
    Windows(crate::call::windows::HostedWindowsHfpBackend),
    Linux(platform::LinuxHfpBackend),
    MacOs(platform::MacOsHfpBackend),
    Unsupported(UnsupportedHfpBackend),
}

impl HfpBackend for HostHfpBackend {
    open spec fn spec_support(&self) -> HfpSupport {
        match self {
            HostHfpBackend::Windows(b) => b.spec_support(),
            HostHfpBackend::Linux(b) => b.spec_support(),
            HostHfpBackend::MacOs(b) => b.spec_support(),
            HostHfpBackend::Unsupported(b) => b.spec_support(),
        }
    }

    open spec fn answer_refusal(&self) -> Option<Seq<char>> {
        match self {
            HostHfpBackend::Windows(b) => b.answer_refusal(),
            HostHfpBackend::Linux(b) => b.answer_refusal(),
            HostHfpBackend::MacOs(b) => b.answer_refusal(),
            HostHfpBackend::Unsupported(b) => b.answer_refusal(),
        }
    }

    open spec fn decline_refusal(&self) -> Option<Seq<char>> {
        match self {
            HostHfpBackend::Windows(b) => b.decline_refusal(),
            HostHfpBackend::Linux(b) => b.decline_refusal(),
            HostHfpBackend::MacOs(b) => b.decline_refusal(),
            HostHfpBackend::Unsupported(b) => b.decline_refusal(),
        }
    }

    open spec fn end_refusal(&self) -> Option<Seq<char>> {
        match self {
            HostHfpBackend::Windows(b) => b.end_refusal(),
            HostHfpBackend::Linux(b) => b.end_refusal(),
            HostHfpBackend::MacOs(b) => b.end_refusal(),
            HostHfpBackend::Unsupported(b) => b.end_refusal(),
        }
    }

    fn support(&self) -> (r: HfpSupport) {
        match self {
            HostHfpBackend::Windows(b) => b.support(),
            HostHfpBackend::Linux(b) => b.support(),
            HostHfpBackend::MacOs(b) => b.support(),
            HostHfpBackend::Unsupported(b) => b.support(),
        }
    }

    fn answer_call(&self) -> (r: Result<(), String>) {
        match self {
            HostHfpBackend::Windows(b) => b.answer_call(),
            HostHfpBackend::Linux(b) => b.answer_call(),
            HostHfpBackend::MacOs(b) => b.answer_call(),
            HostHfpBackend::Unsupported(b) => b.answer_call(),
        }
    }

    fn decline_call(&self) -> (r: Result<(), String>) {
        match self {
            HostHfpBackend::Windows(b) => b.decline_call(),
            HostHfpBackend::Linux(b) => b.decline_call(),
            HostHfpBackend::MacOs(b) => b.decline_call(),
            HostHfpBackend::Unsupported(b) => b.decline_call(),
        }
    }

    fn end_call(&self) -> (r: Result<(), String>) {
        match self {
            HostHfpBackend::Windows(b) => b.end_call(),
            HostHfpBackend::Linux(b) => b.end_call(),
            HostHfpBackend::MacOs(b) => b.end_call(),
            HostHfpBackend::Unsupported(b) => b.end_call(),
        }
    }
}

/// The HFP backend for the host platform: the Windows backend on Windows, the
/// pending built-in integrations on Linux and macOS, and the unsupported
/// backend anywhere else.
pub fn create_backend(host: PlatformKind) -> (r: HostHfpBackend)
    ensures
        host == PlatformKind::Windows ==> (r matches HostHfpBackend::Windows(b) && b.host == PlatformKind::Windows),
        host == PlatformKind::Linux ==> r is Linux,
        host == PlatformKind::MacOS ==> r is MacOs,
        host == PlatformKind::Unknown ==> r is Unsupported,
{
    match host {
        PlatformKind::Windows => HostHfpBackend::Windows(
            crate::call::windows::HostedWindowsHfpBackend {
                backend: crate::call::windows::WindowsHfpBackend::new(),
                host,
            },
        ),
        PlatformKind::Linux => HostHfpBackend::Linux(platform::LinuxHfpBackend),
        PlatformKind::MacOS => HostHfpBackend::MacOs(platform::MacOsHfpBackend),
        PlatformKind::Unknown => HostHfpBackend::Unsupported(UnsupportedHfpBackend),
    }
}

} // verus!
