//! Native Bluetooth transport boundary: the core only consumes a byte stream;
//! OS backends discover a paired phone and return a connected stream.
use vstd::prelude::*;

verus! {

#[derive(Debug, Clone, Copy, PartialEq, Eq, Structural)]
pub enum BluetoothTransportKind {
    Rfcomm,
    L2cap,
}

/// A paired phone reachable over a native Bluetooth link.
pub struct BluetoothPeer {
    pub device_id: String,
    pub address: String,
    pub channel: Option<u8>,
    pub kind: BluetoothTransportKind,
}

/// Stand-in transport for platforms without a native Bluetooth stream backend.
pub struct UnsupportedBluetoothTransport;

} // verus!
