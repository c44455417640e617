//! Windows native RFCOMM transport. This layer exposes only the native socket;
//! TLS and pairing stay transport-independent above it.
use super::bluetooth::{BluetoothEndpoint, BluetoothSupport, BluetoothTransportKind};
use vstd::prelude::*;

verus! {

pub struct WindowsBluetoothDevice {
    pub id: String,
    pub name: String,
    pub address: String,
}

pub struct WindowsBluetoothTransport;

impl WindowsBluetoothTransport {
    pub fn new() -> Self {
        WindowsBluetoothTransport
    }

    /// The RFCOMM endpoint of a discovered device, for the PhoneBridge service
    /// whose id (as the Windows stack renders it) is `service_id`.
    pub fn endpoint(&self, device: &WindowsBluetoothDevice, service_id: &str) -> (r: BluetoothEndpoint)
        ensures
            r.address@ == device.address@,
            r.service@ == service_id@,
            r.channel is None,
            r.kind == BluetoothTransportKind::Rfcomm,
    {
        BluetoothEndpoint {
            address: device.address.clone(),
            service: service_id.to_owned(),
            channel: None,
            kind: BluetoothTransportKind::Rfcomm,
        }
    }

    pub fn support(&self) -> (r: BluetoothSupport)
        ensures
            r == BluetoothSupport::Supported,
    {
        BluetoothSupport::Supported
    }
}

impl Default for WindowsBluetoothTransport {
    fn default() -> Self {
        WindowsBluetoothTransport::new()
    }
}

} // verus!
