//! Built-in HFP backends of Linux and macOS, whose native integration is pending.
use super::{refuse, HfpBackend};
use crate::protocol::HfpSupport;
use vstd::prelude::*;

verus! {

pub struct LinuxHfpBackend;

impl HfpBackend for LinuxHfpBackend {
    open spec fn spec_support(&self) -> HfpSupport {
        HfpSupport::Unknown
    }

    open spec fn answer_refusal(&self) -> Option<Seq<char>> {
        Some("Linux BlueZ HFP integration pending"@)
    }

    open spec fn decline_refusal(&self) -> Option<Seq<char>> {
        Some("Linux BlueZ HFP integration pending"@)
    }

    open spec fn end_refusal(&self) -> Option<Seq<char>> {
        Some("Linux BlueZ HFP integration pending"@)
    }

    fn support(&self) -> (r: HfpSupport) {
        HfpSupport::Unknown
    }

    fn answer_call(&self) -> (r: Result<(), String>) {
        refuse("Linux BlueZ HFP integration pending")
    }

    fn decline_call(&self) -> (r: Result<(), String>) {
        refuse("Linux BlueZ HFP integration pending")
    }

    fn end_call(&self) -> (r: Result<(), String>) {
        refuse("Linux BlueZ HFP integration pending")
    }
}

pub struct MacOsHfpBackend;

impl HfpBackend for MacOsHfpBackend {
    open spec fn spec_support(&self) -> HfpSupport {
        HfpSupport::Unknown
    }

    open spec fn answer_refusal(&self) -> Option<Seq<char>> {
        Some("macOS IOBluetooth HFP integration pending"@)
    }

    open spec fn decline_refusal(&self) -> Option<Seq<char>> {
        Some("macOS IOBluetooth HFP integration pending"@)
    }

    open spec fn end_refusal(&self) -> Option<Seq<char>> {
        Some("macOS IOBluetooth HFP integration pending"@)
    }

    fn support(&self) -> (r: HfpSupport) {
        HfpSupport::Unknown
    }

    fn answer_call(&self) -> (r: Result<(), String>) {
        refuse("macOS IOBluetooth HFP integration pending")
    }

    fn decline_call(&self) -> (r: Result<(), String>) {
        refuse("macOS IOBluetooth HFP integration pending")
    }

    fn end_call(&self) -> (r: Result<(), String>) {
        refuse("macOS IOBluetooth HFP integration pending")
    }
}

} // verus!
