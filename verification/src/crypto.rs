//! Certificate fingerprints: SHA-256 digests rendered as hex.
use crate::text::{hex_digit_upper, hex_encode, hex_lower, push_char, upper_hex_digit};
use sha2::{Digest, Sha256};
use vstd::prelude::*;

verus! {

/// Name for the SHA-256 digest of a byte string.
pub uninterp spec fn sha256(data: Seq<u8>) -> Seq<u8>;

/// `Sha256::digest` from the `sha2` crate. The digest is named `sha256`; the
/// contract adds only that it is 32 bytes long, which is the output size that
/// the crate declares for SHA-256.
#[verifier::external_body]
pub(crate) fn sha256_digest(data: &[u8]) -> (r: Vec<u8>)
    ensures
        r@ == sha256(data@),
        r@.len() == 32,
{
    Sha256::digest(data).to_vec()
}

/// Lower-case hex of the SHA-256 digest of `bytes`.
pub fn sha256_hex(bytes: &[u8]) -> (r: String)
    ensures
        r@ == hex_lower(sha256(bytes@)),
        sha256(bytes@).len() == 32,
{
    let digest = sha256_digest(bytes);
    hex_encode(digest.as_slice())
}

/// Two upper-case hex digits of one byte.
pub open spec fn byte_hex_upper(b: u8) -> Seq<char> {
    seq![hex_digit_upper(b / 16), hex_digit_upper(b % 16)]
}

/// Upper-case hex of each byte, the pairs joined by `:` (e.g. "0A:FF:3C").
pub open spec fn colon_hex_upper(bytes: Seq<u8>) -> Seq<char>
    decreases bytes.len(),
{
    if bytes.len() == 0 {
        Seq::empty()
    } else if bytes.len() == 1 {
        byte_hex_upper(bytes[0])
    } else {
        colon_hex_upper(bytes.drop_last()) + seq![':'] + byte_hex_upper(bytes.last())
    }
}

/// Renders bytes as upper-case hex pairs joined by `:`.
pub fn colon_hex(bytes: &[u8]) -> (r: String)
    ensures
        r@ == colon_hex_upper(bytes@),
{
    let mut out = String::new();
    let mut i: usize = 0;
    while i < bytes.len()
        invariant
            0 <= i <= bytes@.len(),
            out@ == colon_hex_upper(bytes@.take(i as int)),
        decreases bytes@.len() - i,
    {
        let b = bytes[i];
        if i > 0 {
            push_char(&mut out, ':');
        }
        push_char(&mut out, upper_hex_digit(b / 16));
        push_char(&mut out, upper_hex_digit(b % 16));
        proof {
            let t = bytes@.take(i + 1);
            assert(t.drop_last() =~= bytes@.take(i as int));
            assert(t.last() == b);
            if i == 0 {
                assert(t =~= seq![b]);
            }
        }
        i = i + 1;
    }
    assert(bytes@.take(bytes@.len() as int) =~= bytes@);
    out
}

/// Certificate fingerprint as shown by the KDE Connect path: SHA-256 of the DER
/// certificate as upper-case hex pairs joined by `:`.
pub fn certificate_fingerprint(cert: &[u8]) -> (r: String)
    ensures
        r@ == colon_hex_upper(sha256(cert@)),
{
    let digest = sha256_digest(cert);
    colon_hex(digest.as_slice())
}

/// A freshly generated key pair with a self-signed certificate.
pub struct GeneratedCertificate {
    pub cert_pem: String,
    pub key_pem: String,
    pub cert_der: Vec<u8>,
    /// The private key in PKCS#8 DER form.
    pub key_der: Vec<u8>,
}

/// The subject alternative names for a certificate that names `name` alone.
pub fn subject_names(name: &str) -> (r: Vec<String>)
    ensures
        r@.len() == 1,
        r@[0]@ == name@,
{
    let mut names: Vec<String> = Vec::new();
    names.push(name.to_owned());
    names
}

/// Name for the DNS names that a DER certificate lists among its subject
/// alternative names, in the order in which it lists them.
pub uninterp spec fn certificate_dns_names(der: Seq<u8>) -> Seq<Seq<char>>;

/// The characters of which IP address texts are made: hex digits, `.` and `:`.
pub open spec fn ip_text_char(c: char) -> bool {
    ('0' <= c && c <= '9') || ('a' <= c && c <= 'f') || ('A' <= c && c <= 'F') || c == '.' || c
        == ':'
}

/// A text that cannot be read as an IP address: it holds a character that no
/// IP address text holds.
pub open spec fn never_an_ip_address(s: Seq<char>) -> bool {
    exists|i: int| 0 <= i < s.len() && !ip_text_char(#[trigger] s[i])
}

/// `rcgen::generate_simple_self_signed`: a new random key pair and a
/// self-signed certificate for the subject alternative names `names`, each in
/// PEM and DER form; `None` when rcgen reports an error. rcgen lists every name
/// that does not read as an IP address as a DNS name, in the order given; the
/// contract claims that of the DER certificate when no name reads as an IP
/// address. The key and the rest of the certificate are random, so nothing
/// more is claimed of them.
#[verifier::external_body]
pub(crate) fn generate_self_signed(names: Vec<String>) -> (r: Option<GeneratedCertificate>)
    ensures
        r matches Some(g) ==> ((forall|i: int|
            0 <= i < names@.len() ==> never_an_ip_address(#[trigger] names@[i]@))
            ==> certificate_dns_names(g.cert_der@) == names@.map_values(|n: String| n@)),
{
    match rcgen::generate_simple_self_signed(names) {
        Ok(c) => Some(GeneratedCertificate {
            cert_pem: c.cert.pem(),
            key_pem: c.key_pair.serialize_pem(),
            cert_der: c.cert.der().to_vec(),
            key_der: c.key_pair.serialize_der(),
        }),
        Err(_) => None,
    }
}

} // verus!
