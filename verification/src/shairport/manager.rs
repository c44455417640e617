//! Choosing and launching an AirPlay receiver that shows up as "PhoneBridge".
//! Whether a program is installed, and running it, is up to the caller.
use crate::platform::PlatformKind;
use vstd::prelude::*;

verus! {

#[derive(Debug, Clone, Copy, PartialEq, Eq, Structural)]
pub enum Platform {
    Linux,
    MacOS,
    Windows,
}

#[derive(Debug, Clone, Copy, PartialEq, Eq, Structural)]
pub enum AirPlayReceiver {
    ShairportSync,
    ShairportQt,
    Shairport4w,
}

/// Where ShairportQt is installed when it is not on the search path.
pub open spec fn shairport_qt_install_path() -> Seq<char> {
    "C:\\\\Program Files\\\\ShairportQt\\\\ShairportQt.exe"@
}

pub fn shairport_qt_path() -> (r: &'static str)
    ensures
        r@ == shairport_qt_install_path(),
{
    "C:\\\\Program Files\\\\ShairportQt\\\\ShairportQt.exe"
}

impl AirPlayReceiver {
    pub open spec fn spec_name(self) -> Seq<char> {
        match self {
            AirPlayReceiver::ShairportSync => "shairport-sync"@,
            AirPlayReceiver::ShairportQt => "ShairportQt"@,
            AirPlayReceiver::Shairport4w => "shairport4w"@,
        }
    }

    pub fn name(&self) -> (r: &'static str)
        ensures
            r@ == self.spec_name(),
    {
        match self {
            AirPlayReceiver::ShairportSync => "shairport-sync",
            AirPlayReceiver::ShairportQt => "ShairportQt",
            AirPlayReceiver::Shairport4w => "shairport4w",
        }
    }
}

/// The receiver family of a host: Windows and macOS have their own, every
/// other host is treated as Linux.
pub fn platform_of(host: PlatformKind) -> (r: Platform)
    ensures
        r == (if host == PlatformKind::Windows {
            Platform::Windows
        } else if host == PlatformKind::MacOS {
            Platform::MacOS
        } else {
            Platform::Linux
        }),
{
    if host == PlatformKind::Windows {
        Platform::Windows
    } else if host == PlatformKind::MacOS {
        Platform::MacOS
    } else {
        Platform::Linux
    }
}

/// Which installed programs were found.
pub struct InstalledReceivers {
    /// `shairport-sync` is on the search path.
    pub shairport_sync: bool,
    /// `ShairportQt` is on the search path.
    pub shairport_qt_command: bool,
    /// ShairportQt is installed at its default location.
    pub shairport_qt_installed: bool,
    /// `shairport4w` is on the search path.
    pub shairport4w: bool,
}

/// The receiver to use: shairport-sync on Linux and macOS; on Windows
/// ShairportQt (on the path or at its default location), else shairport4w.
pub fn detect_receiver(platform: Platform, found: &InstalledReceivers) -> (r: Option<AirPlayReceiver>)
    ensures
        r == (match platform {
            Platform::Linux | Platform::MacOS => if found.shairport_sync {
                Some(AirPlayReceiver::ShairportSync)
            } else {
                None
            },
            Platform::Windows => if found.shairport_qt_command || found.shairport_qt_installed {
                Some(AirPlayReceiver::ShairportQt)
            } else if found.shairport4w {
                Some(AirPlayReceiver::Shairport4w)
            } else {
                None
            },
        }),
{
    match platform {
        Platform::Linux | Platform::MacOS => {
            if found.shairport_sync {
                Some(AirPlayReceiver::ShairportSync)
            } else {
                None
            }
        },
        Platform::Windows => {
            if found.shairport_qt_command || found.shairport_qt_installed {
                Some(AirPlayReceiver::ShairportQt)
            } else if found.shairport4w {
                Some(AirPlayReceiver::Shairport4w)
            } else {
                None
            }
        },
    }
}

/// A program to run and its arguments.
pub struct LaunchCommand {
    pub program: String,
    pub args: Vec<String>,
}

fn strings(items: &[&str]) -> (r: Vec<String>)
    ensures
        r@.len() == items@.len(),
        forall|i: int| 0 <= i < items@.len() ==> #[trigger] r@[i]@ == items@[i]@,
{
    let mut out: Vec<String> = Vec::new();
    let mut i: usize = 0;
    while i < items.len()
        invariant
            0 <= i <= items@.len(),
            out@.len() == i,
            forall|j: int| 0 <= j < i ==> #[trigger] out@[j]@ == items@[j]@,
        decreases items@.len() - i,
    {
        out.push(String::from_str(items[i]));
        i = i + 1;
    }
    out
}

/// How to start a receiver so that it announces itself as "PhoneBridge" on
/// port 5002. ShairportQt runs from the search path when it is there, else
/// from its default location.
pub fn launch_command(receiver: AirPlayReceiver, qt_on_path: bool) -> (r: LaunchCommand)
    ensures
        receiver == AirPlayReceiver::ShairportSync ==> r.program@ == "shairport-sync"@
            && r.args@.map_values(|a: String| a@) == seq![
            "--name=PhoneBridge"@,
            "--port=5002"@,
            "--output=pipe"@,
        ],
        receiver == AirPlayReceiver::ShairportQt ==> r.program@ == (if qt_on_path {
            "ShairportQt"@
        } else {
            shairport_qt_install_path()
        }) && r.args@.map_values(|a: String| a@) == seq![
            "--name"@,
            "PhoneBridge"@,
            "--port"@,
            "5002"@,
        ],
        receiver == AirPlayReceiver::Shairport4w ==> r.program@ == "shairport4w"@
            && r.args@.map_values(|a: String| a@) == seq!["/name:PhoneBridge"@, "/port:5002"@],
{
    match receiver {
        AirPlayReceiver::ShairportSync => {
            let args = strings(&["--name=PhoneBridge", "--port=5002", "--output=pipe"]);
            assert(args@.map_values(|a: String| a@) =~= seq![
                "--name=PhoneBridge"@,
                "--port=5002"@,
                "--output=pipe"@,
            ]);
            LaunchCommand { program: String::from_str("shairport-sync"), args }
        },
        AirPlayReceiver::ShairportQt => {
            let program = if qt_on_path {
                String::from_str("ShairportQt")
            } else {
                String::from_str(shairport_qt_path())
            };
            let args = strings(&["--name", "PhoneBridge", "--port", "5002"]);
            assert(args@.map_values(|a: String| a@) =~= seq![
                "--name"@,
                "PhoneBridge"@,
                "--port"@,
                "5002"@,
            ]);
            LaunchCommand { program, args }
        },
        AirPlayReceiver::Shairport4w => {
            let args = strings(&["/name:PhoneBridge", "/port:5002"]);
            assert(args@.map_values(|a: String| a@) =~= seq!["/name:PhoneBridge"@, "/port:5002"@]);
            LaunchCommand { program: String::from_str("shairport4w"), args }
        },
    }
}

} // verus!
