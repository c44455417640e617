//! Bluetooth transport boundary.
//!
//! Bluetooth PAN remains an IP route and uses the normal TCP/TLS path. Native
//! RFCOMM/L2CAP links carry the same byte stream underneath TLS.
use vstd::prelude::*;

verus! {

#[derive(Debug, Clone, Copy, PartialEq, Eq, Structural)]
pub enum BluetoothSupport {
    Supported,
    Unsupported,
    Unknown,
}

#[derive(Debug, Clone, Copy, PartialEq, Eq, Structural)]
pub enum BluetoothTransportKind {
    Rfcomm,
    L2cap,
}

/// Where a native Bluetooth link to the phone can be opened.
pub struct BluetoothEndpoint {
    pub address: String,
    pub service: String,
    pub channel: Option<u8>,
    pub kind: BluetoothTransportKind,
}

/// Built-in Bluetooth stream backends of the three desktop platforms.
pub struct WindowsBluetooth;

pub struct LinuxBluetooth;

pub struct MacOsBluetooth;

/// Stand-in backend for platforms without a native Bluetooth stream backend.
pub struct UnsupportedBluetooth;

} // verus!
