use vstd::prelude::*;

pub mod audio;
pub mod call;
pub mod config;
pub mod connection;
pub mod text;
pub mod pairing;
pub mod crypto;
pub mod discovery;
pub mod kdeconnect;
pub mod network;
pub mod platform;
pub mod protocol;
pub mod shairport;

verus! {

#[verifier::external_type_specification]
#[verifier::external_body]
pub struct ExPathBuf(std::path::PathBuf);

#[verifier::external_type_specification]
#[verifier::external_body]
pub struct ExInstant(std::time::Instant);

#[verifier::external_type_specification]
#[verifier::external_body]
pub struct ExSystemTime(std::time::SystemTime);

} // verus!
