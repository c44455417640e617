//! Call state on the PC side.
//!
//! Call audio never flows through this program: it goes over native Bluetooth
//! Classic HFP (phone = Audio Gateway, PC = Hands-Free unit). This module is
//! control plane only: who is calling, the Answer/Decline actions, and
//! diagnostics for "why don't I hear anything".
use vstd::prelude::*;

pub mod controller;
pub mod hfp;
pub mod hfp_linux;
pub mod hfp_macos;
pub mod hfp_windows;
pub mod linux;
pub mod macos;
pub mod windows;

verus! {

pub enum CallState {
    Idle,
    Ringing { caller_number: Option<String>, caller_name: Option<String> },
    Active,
}

} // verus!
