use phonebridge::crypto::{subject_names, GeneratedCertificate};
use phonebridge::pairing::identity::{
    device_id_from_bytes, new_device_id, pem_to_der, Identity, IdentityError, PemError,
};
use phonebridge::kdeconnect::tls::{certificate_fingerprint, LocalTlsIdentity};
use phonebridge::pairing::trust::{short_code, try_short_code, TrustStore};
use std::path::PathBuf;

#[test]
fn short_code_groups_first_four_bytes() {
    assert_eq!(short_code("3f9a7b21ff"), "3F9A-7B21");
}

#[test]
fn short_code_uses_only_the_first_eight_characters() {
    assert_eq!(short_code("abcdef0123456789"), "ABCD-EF01");
    assert_eq!(short_code("ABCDEF01"), "ABCD-EF01");
}

#[test]
fn trust_is_case_insensitive_and_per_device() {
    let mut store = TrustStore::empty(PathBuf::from("trusted_peers.json"));
    assert!(!store.is_trusted("dev", "aa"));
    store.trust("dev", "aabbccdd");
    assert!(store.is_trusted("dev", "aabbccdd"));
    assert!(store.is_trusted("dev", "AABBCCDD"), "comparison must be case-insensitive");
    assert!(!store.is_trusted("dev", "ffee00"));
    assert!(!store.is_trusted("other", "aabbccdd"));
}

#[test]
fn trust_stores_the_fingerprint_lower_cased() {
    let mut store = TrustStore::empty(PathBuf::from("t.json"));
    store.trust("dev", "AABBCCDD");
    let entries = store.entries();
    assert_eq!(entries.len(), 1);
    assert_eq!(entries[0].0, "dev");
    assert_eq!(entries[0].1, "aabbccdd");
}

#[test]
fn trust_replaces_an_earlier_fingerprint() {
    let mut store = TrustStore::empty(PathBuf::from("t.json"));
    store.trust("dev", "aabbccdd");
    store.trust("dev", "11223344");
    assert!(!store.is_trusted("dev", "aabbccdd"));
    assert!(store.is_trusted("dev", "11223344"));
    assert_eq!(store.entries().len(), 1);
}

#[test]
fn revoke_forgets_only_that_device() {
    let mut store = TrustStore::empty(PathBuf::from("t.json"));
    store.trust("dev", "aabbccdd");
    store.trust("other", "00ff00ff");
    assert!(store.revoke("dev"));
    assert!(!store.is_trusted("dev", "aabbccdd"));
    assert!(store.is_trusted("other", "00FF00FF"));
    assert!(!store.revoke("dev"), "a second revoke changes nothing");
}

#[test]
fn store_rebuilt_from_entries_keeps_trust() {
    let mut store = TrustStore::empty(PathBuf::from("dir/trusted_peers.json"));
    store.trust("dev", "aabbccdd");
    let saved: Vec<(String, String)> = store.entries().clone();
    let reloaded = TrustStore::from_entries(store.path().clone(), saved);
    assert!(reloaded.is_trusted("dev", "aabbccdd"));
    assert!(reloaded.is_trusted("dev", "AABBCCDD"));
    assert!(!reloaded.is_trusted("dev", "ffee00"));
    assert!(!reloaded.is_trusted("other", "aabbccdd"));
    assert_eq!(reloaded.path(), &PathBuf::from("dir/trusted_peers.json"));
}

#[test]
fn later_entry_for_an_id_wins_when_loading() {
    let entries = vec![
        ("dev".to_string(), "aaaa".to_string()),
        ("dev".to_string(), "bbbb".to_string()),
    ];
    let store = TrustStore::from_entries(PathBuf::from("t.json"), entries);
    assert!(store.is_trusted("dev", "bbbb"));
    assert!(!store.is_trusted("dev", "aaaa"));
    assert_eq!(store.entries().len(), 1);
}

#[test]
fn device_id_is_prefixed_lower_hex() {
    let bytes: [u8; 16] = [0, 1, 2, 3, 4, 5, 6, 7, 8, 9, 0xaa, 0xbb, 0xcc, 0xdd, 0xee, 0xff];
    assert_eq!(device_id_from_bytes(&bytes), "pb2-00010203040506070809aabbccddeeff");
}

#[test]
fn new_device_ids_have_the_documented_shape() {
    let id = new_device_id();
    assert!(id.starts_with("pb2-"));
    assert_eq!(id.len(), 4 + 32);
    assert!(id[4..].chars().all(|c| c.is_ascii_hexdigit() && !c.is_ascii_uppercase()));
}

#[test]
fn fingerprint_is_sha256_of_the_certificate() {
    let identity = Identity {
        device_id: "pb2-pc".to_string(),
        cert_pem: String::new(),
        key_pem: String::new(),
        cert_der: b"abc".to_vec(),
    };
    assert_eq!(
        identity.fingerprint_hex(),
        "ba7816bf8f01cfea414140de5dae2223b00361a396177a9cb410ff61f20015ad"
    );
}

#[test]
fn pem_without_certificate_is_empty() {
    assert_eq!(pem_to_der(""), Err(PemError::Empty));
}

#[test]
fn pem_certificate_is_decoded_to_der() {
    let pem = "-----BEGIN CERTIFICATE-----\nAQIDBA==\n-----END CERTIFICATE-----\n";
    assert_eq!(pem_to_der(pem), Ok(vec![1u8, 2, 3, 4]));
}

#[test]
fn malformed_pem_is_refused() {
    let pem = "-----BEGIN CERTIFICATE-----\n!!!!\n-----END CERTIFICATE-----\n";
    assert_eq!(pem_to_der(pem), Err(PemError::Malformed));
}

#[test]
fn generated_identity_is_consistent() {
    let identity = Identity::generate().unwrap();
    assert!(identity.device_id.starts_with("pb2-"));
    assert_eq!(identity.device_id.len(), 36);
    assert_eq!(pem_to_der(&identity.cert_pem), Ok(identity.cert_der.clone()));
    assert!(identity.key_pem.contains("PRIVATE KEY"));
    assert_eq!(identity.fingerprint_hex().len(), 64);
    let other = Identity::generate().unwrap();
    assert_ne!(identity.device_id, other.device_id);
    assert_ne!(identity.cert_der, other.cert_der);
}

#[test]
fn tls_identity_fingerprint_is_of_its_certificate() {
    let identity = LocalTlsIdentity::generate("PhoneBridge PC".to_string()).unwrap();
    assert_eq!(identity.fingerprint, certificate_fingerprint(&identity.cert));
    assert_eq!(identity.fingerprint.len(), 95);
    let reloaded = LocalTlsIdentity::from_der(identity.cert.clone(), identity.key.clone());
    assert_eq!(reloaded.fingerprint, identity.fingerprint);
    assert_eq!(reloaded.key, identity.key);
}

#[test]
fn short_code_of_non_ascii_follows_utf8_bytes() {
    assert_eq!(short_code("éabcdefg"), "ÉAB-CDEF");
    assert_eq!(short_code("ßabcdefg"), "SSAB-CDEF");
}

#[test]
fn strings_without_a_code_are_reported() {
    assert_eq!(try_short_code("abcdefgé"), None);
    assert_eq!(try_short_code("abc"), None);
    assert_eq!(try_short_code(""), None);
    assert_eq!(try_short_code("3f9a7b21"), Some("3F9A-7B21".to_string()));
}

fn holds(haystack: &[u8], needle: &[u8]) -> bool {
    haystack.windows(needle.len()).any(|w| w == needle)
}

#[test]
fn generated_certificate_names_the_device() {
    let identity = Identity::generate().unwrap();
    assert!(holds(&identity.cert_der, identity.device_id.as_bytes()));
    let tls = LocalTlsIdentity::generate("PhoneBridge PC".to_string()).unwrap();
    assert!(holds(&tls.cert, b"PhoneBridge PC"));
}

#[test]
fn subject_names_hold_the_one_name() {
    assert_eq!(subject_names("pb2-00ff"), vec!["pb2-00ff".to_string()]);
    assert_eq!(subject_names(""), vec![String::new()]);
}

#[test]
fn identity_without_certificate_is_an_error() {
    let r = Identity::from_generated("pb2-01".to_string(), None);
    assert!(matches!(r, Err(IdentityError::CertificateGeneration)));
}

#[test]
fn identity_is_made_of_the_generated_certificate() {
    let generated = GeneratedCertificate {
        cert_pem: "CERT".to_string(),
        key_pem: "KEY".to_string(),
        cert_der: vec![1, 2, 3],
        key_der: vec![4],
    };
    let identity = Identity::from_generated("pb2-01".to_string(), Some(generated)).ok().unwrap();
    assert_eq!(identity.device_id, "pb2-01");
    assert_eq!(identity.cert_pem, "CERT");
    assert_eq!(identity.key_pem, "KEY");
    assert_eq!(identity.cert_der, vec![1, 2, 3]);
}

#[test]
fn non_ascii_fingerprint_is_not_trusted_back() {
    let mut store = TrustStore::empty(PathBuf::from("t.json"));
    store.trust("dev", "É1");
    assert_eq!(store.entries()[0].1, "é1");
    assert!(!store.is_trusted("dev", "É1"));
}
