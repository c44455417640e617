//! Node identity for TLS pairing.
//!
//! Every device (PC or phone) owns a self-signed certificate that lives on disk
//! for years. Pairing is not a login: it is trust, confirmed once, in one
//! specific certificate fingerprint. TLS then only encrypts the channel.
use crate::crypto::{
    certificate_dns_names, generate_self_signed, never_an_ip_address, sha256, sha256_hex, subject_names,
    GeneratedCertificate,
};
use crate::text::{hex_encode, hex_lower};
use rand::RngCore;
use std::path::PathBuf;
use vstd::prelude::*;

verus! {

/// This node's persistent identity.
pub struct Identity {
    pub device_id: String,
    pub cert_pem: String,
    pub key_pem: String,
    pub cert_der: Vec<u8>,
}

/// Why a new identity could not be made.
#[derive(Debug, Clone, Copy, PartialEq, Eq, Structural)]
pub enum IdentityError {
    /// The certificate generator reported an error.
    CertificateGeneration,
}

/// Why a PEM certificate file could not be turned into a DER certificate.
#[derive(Debug, Clone, Copy, PartialEq, Eq, Structural)]
pub enum PemError {
    /// The PEM text could not be parsed.
    Malformed,
    /// The PEM text holds no certificate.
    Empty,
}

impl Identity {
    /// SHA-256 fingerprint of the certificate in lower-case hex: what the user
    /// compares by eye during the first pairing (see `pairing::trust::short_code`).
    pub fn fingerprint_hex(&self) -> (r: String)
        ensures
            r@ == hex_lower(sha256(self.cert_der@)),
            sha256(self.cert_der@).len() == 32,
    {
        sha256_hex(self.cert_der.as_slice())
    }
}

/// Name for what `rustls_pemfile::certs` yields for a PEM text: the DER bytes of
/// each certificate section in order, or `None` when reading a section fails.
pub uninterp spec fn pem_certificates(pem: Seq<char>) -> Option<Seq<Seq<u8>>>;

/// `rustls_pemfile::certs` over the bytes of `pem`, collected. The crate skips
/// sections that are not certificates and reports an error when a section
/// cannot be read; the result is named `pem_certificates` and nothing more is
/// claimed of it.
#[verifier::external_body]
fn read_pem_certificates(pem: &str) -> (r: Option<Vec<Vec<u8>>>)
    ensures
        match r {
            Some(v) => pem_certificates(pem@) == Some(v@.map_values(|c: Vec<u8>| c@)),
            None => pem_certificates(pem@) is None,
        },
{
    let mut reader = std::io::Cursor::new(pem.as_bytes());
    match rustls_pemfile::certs(&mut reader).collect::<Result<Vec<_>, _>>() {
        Ok(certs) => Some(certs.into_iter().map(|c| c.to_vec()).collect()),
        Err(_) => None,
    }
}

/// The DER bytes of the first certificate in a PEM file.
pub fn pem_to_der(pem: &str) -> (r: Result<Vec<u8>, PemError>)
    ensures
        match pem_certificates(pem@) {
            None => r == Err::<Vec<u8>, PemError>(PemError::Malformed),
            Some(certs) => if certs.len() == 0 {
                r == Err::<Vec<u8>, PemError>(PemError::Empty)
            } else {
                r matches Ok(der) && der@ == certs[0]
            },
        },
{
    match read_pem_certificates(pem) {
        None => Err(PemError::Malformed),
        Some(mut certs) => {
            if certs.len() == 0 {
                Err(PemError::Empty)
            } else {
                proof {
                    assert(certs@.map_values(|c: Vec<u8>| c@)[0] == certs@[0]@);
                }
                Ok(certs.remove(0))
            }
        },
    }
}

/// The home directory under which the identity is kept: `home` (the `HOME`
/// variable) when it is set, else `user_profile` (the `USERPROFILE` variable)
/// when that is set, else `current`, the current directory.
pub fn home_dir<T>(home: Option<T>, user_profile: Option<T>, current: T) -> (r: T)
    ensures
        r == match home {
            Some(h) => h,
            None => match user_profile {
                Some(p) => p,
                None => current,
            },
        },
{
    match home {
        Some(h) => h,
        None => match user_profile {
            Some(p) => p,
            None => current,
        },
    }
}

/// Name for the path that `PathBuf::from` makes of a text.
pub uninterp spec fn path_named(text: Seq<char>) -> PathBuf;

/// Name for the path that `Path::join` makes of a directory and one more
/// component. How the two are joined depends on the platform's path
/// separator, which is fixed when the crate is built.
pub uninterp spec fn joined_path(dir: PathBuf, name: Seq<char>) -> PathBuf;

/// `PathBuf::from`: the path written `text`, named `path_named`.
#[verifier::external_body]
fn path_of(text: &str) -> (r: PathBuf)
    ensures
        r == path_named(text@),
{
    PathBuf::from(text)
}

/// `Path::join`: `dir` with `name` added as one more component, named
/// `joined_path`.
#[verifier::external_body]
fn join_path(dir: &PathBuf, name: &str) -> (r: PathBuf)
    ensures
        r == joined_path(*dir, name@),
{
    dir.join(name)
}

/// The directory that holds the identity: `.phonebridge2` in the home
/// directory chosen by `home_dir` from `home` (the `HOME` variable),
/// `user_profile` (the `USERPROFILE` variable) and the current directory `.`.
pub fn default_identity_dir(home: Option<PathBuf>, user_profile: Option<PathBuf>) -> (r: PathBuf)
    ensures
        r == joined_path(
            match home {
                Some(h) => h,
                None => match user_profile {
                    Some(p) => p,
                    None => path_named("."@),
                },
            },
            ".phonebridge2"@,
        ),
{
    let current = path_of(".");
    let dir = home_dir(home, user_profile, current);
    join_path(&dir, ".phonebridge2")
}

/// Prefix of every device id this node generates.
pub open spec fn device_id_prefix() -> Seq<char> {
    seq!['p', 'b', '2', '-']
}

/// Device id built from 16 random bytes: "pb2-" followed by their lower-case hex.
/// It is not a real UUID but is unique enough to name a device.
pub fn device_id_from_bytes(bytes: &[u8; 16]) -> (r: String)
    ensures
        r@ == device_id_prefix() + hex_lower(bytes@),
{
    let mut id = String::from_str("pb2-");
    proof {
        reveal_strlit("pb2-");
    }
    let hex = hex_encode(bytes);
    id.append(hex.as_str());
    assert(id@ =~= device_id_prefix() + hex_lower(bytes@));
    id
}

/// Sixteen bytes from `rand::thread_rng`. They are random: nothing is claimed
/// of their value.
#[verifier::external_body]
fn random_id_bytes() -> (r: [u8; 16]) {
    let mut bytes = [0u8; 16];
    rand::thread_rng().fill_bytes(&mut bytes);
    bytes
}

/// A fresh random device id: "pb2-" followed by 32 lower-case hex digits.
pub fn new_device_id() -> (r: String)
    ensures
        exists|b: Seq<u8>| b.len() == 16 && r@ == device_id_prefix() + hex_lower(b),
{
    let bytes = random_id_bytes();
    device_id_from_bytes(&bytes)
}

impl Identity {
    /// The identity of `device_id` made from a generated certificate: its
    /// certificate and key in PEM form and its certificate in DER form; an
    /// error when no certificate could be generated.
    pub fn from_generated(device_id: String, generated: Option<GeneratedCertificate>) -> (r: Result<
        Identity,
        IdentityError,
    >)
        ensures
            match generated {
                None => r == Err::<Identity, IdentityError>(IdentityError::CertificateGeneration),
                Some(g) => r matches Ok(id) && id.device_id == device_id && id.cert_pem == g.cert_pem
                    && id.key_pem == g.key_pem && id.cert_der == g.cert_der,
            },
    {
        match generated {
            Some(g) => Ok(
                Identity { device_id, cert_pem: g.cert_pem, key_pem: g.key_pem, cert_der: g.cert_der },
            ),
            None => Err(IdentityError::CertificateGeneration),
        }
    }

    /// A new identity: a fresh random device id, and a new self-signed
    /// certificate generated for that device id as its one subject name (see
    /// `from_generated` for how the identity is made of it). Whether a
    /// certificate can be generated is up to the generator.
    pub fn generate() -> (r: Result<Identity, IdentityError>)
        ensures
            r matches Ok(id) ==> {
                &&& exists|b: Seq<u8>|
                    b.len() == 16 && id.device_id@ == device_id_prefix() + hex_lower(b)
                &&& certificate_dns_names(id.cert_der@) == seq![id.device_id@]
            },
    {
        let device_id = new_device_id();
        let names = subject_names(device_id.as_str());
        proof {
            assert(device_id@[0] == 'p');
            assert(never_an_ip_address(names@[0]@));
            assert(names@.map_values(|n: String| n@) =~= seq![device_id@]);
        }
        let generated = generate_self_signed(names);
        Identity::from_generated(device_id, generated)
    }
}

} // verus!
