//! RFCOMM service endpoints as discovered through the operating system.
use vstd::prelude::*;

pub mod windows;

verus! {

pub struct BluetoothEndpoint {
    pub address: String,
    pub service_id: String,
    pub name: Option<String>,
}

pub trait BluetoothTransport {
    spec fn spec_supported(&self) -> bool;

    fn supported(&self) -> (r: bool)
        ensures
            r == self.spec_supported(),
    ;
}

} // verus!
