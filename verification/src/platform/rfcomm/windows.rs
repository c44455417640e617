//! Windows Bluetooth RFCOMM transport. The RFCOMM stream carries bytes;
//! PhoneBridge TLS remains above this layer.
use super::{BluetoothEndpoint, BluetoothTransport};
use crate::text::{is_blank, trim_whitespace};
use vstd::prelude::*;

verus! {

/// Why an endpoint cannot be connected to.
#[derive(Debug, Clone, Copy, PartialEq, Eq, Structural)]
pub enum EndpointError {
    /// The endpoint has no device id.
    NoDeviceId,
    /// The endpoint has no service id.
    NoServiceId,
}

pub struct WindowsBluetoothTransport;

impl WindowsBluetoothTransport {
    pub fn new() -> Self {
        WindowsBluetoothTransport
    }

    /// An endpoint is usable when neither its device id nor its service id is
    /// blank; the device id is checked first.
    pub fn ensure_endpoint(endpoint: &BluetoothEndpoint) -> (r: Result<(), EndpointError>)
        ensures
            is_blank(endpoint.address@) ==> r == Err::<(), EndpointError>(EndpointError::NoDeviceId),
            !is_blank(endpoint.address@) && is_blank(endpoint.service_id@) ==> r == Err::<
                (),
                EndpointError,
            >(EndpointError::NoServiceId),
            !is_blank(endpoint.address@) && !is_blank(endpoint.service_id@) ==> r is Ok,
    {
        if trim_whitespace(endpoint.address.as_str()).is_empty() {
            return Err(EndpointError::NoDeviceId);
        }
        if trim_whitespace(endpoint.service_id.as_str()).is_empty() {
            return Err(EndpointError::NoServiceId);
        }
        Ok(())
    }
}

impl Default for WindowsBluetoothTransport {
    fn default() -> Self {
        WindowsBluetoothTransport::new()
    }
}

impl BluetoothTransport for WindowsBluetoothTransport {
    open spec fn spec_supported(&self) -> bool {
        true
    }

    fn supported(&self) -> (r: bool) {
        true
    }
}

} // verus!
