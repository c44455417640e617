//! Transport advertisement shared by discovery and reconnect logic. Network and
//! Bluetooth are independent transports; authentication always stays on the
//! same TLS/control protocol.
use vstd::prelude::*;

verus! {

#[derive(Debug, Clone, Copy, PartialEq, Eq, Structural)]
pub enum TransportKind {
    Wifi,
    Hotspot,
    Bluetooth,
}

pub struct TransportEndpoint {
    pub kind: TransportKind,
    pub host: Option<String>,
    pub port: Option<u16>,
    pub address: Option<String>,
}

impl TransportEndpoint {
    pub fn wifi(host: String, port: u16) -> (r: Self)
        ensures
            r == (TransportEndpoint {
                kind: TransportKind::Wifi,
                host: Some(host),
                port: Some(port),
                address: None,
            }),
    {
        TransportEndpoint { kind: TransportKind::Wifi, host: Some(host), port: Some(port), address: None }
    }

    pub fn hotspot(host: String, port: u16) -> (r: Self)
        ensures
            r == (TransportEndpoint {
                kind: TransportKind::Hotspot,
                host: Some(host),
                port: Some(port),
                address: None,
            }),
    {
        TransportEndpoint {
            kind: TransportKind::Hotspot,
            host: Some(host),
            port: Some(port),
            address: None,
        }
    }

    pub fn bluetooth(address: String) -> (r: Self)
        ensures
            r == (TransportEndpoint {
                kind: TransportKind::Bluetooth,
                host: None,
                port: None,
                address: Some(address),
            }),
    {
        TransportEndpoint {
            kind: TransportKind::Bluetooth,
            host: None,
            port: None,
            address: Some(address),
        }
    }
}

pub struct TransportAdvertisement {
    pub transports: Vec<TransportEndpoint>,
}

} // verus!
