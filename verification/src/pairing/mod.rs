pub mod gate;
pub mod identity;
pub mod session;
pub mod trust;
