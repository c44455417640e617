use phonebridge::pairing::gate::{
    certificate_fingerprint_hex, check_hello, decide, hello_ack, on_hello, pairing_request, rejection_reply,
    session_action, HelloOutcome, HelloRejection, PeerHello, SessionAction,
};
use phonebridge::pairing::trust::TrustStore;
use std::path::PathBuf;
use phonebridge::pairing::identity::Identity;
use phonebridge::pairing::session::{PairingError, PairingMessage, PairingSession, PairingState};
use phonebridge::protocol::{MediaPlaybackState, Message, PROTOCOL_VERSION};

fn hello(fingerprint: Option<&str>) -> Message {
    Message::Hello {
        device_id: "pb2-abc".to_string(),
        device_name: "Pixel".to_string(),
        platform: "android".to_string(),
        protocol_version: 1,
        cert_fingerprint: fingerprint.map(|f| f.to_string()),
    }
}

fn local_identity() -> Identity {
    Identity {
        device_id: "pb2-pc".to_string(),
        cert_pem: String::new(),
        key_pem: String::new(),
        cert_der: b"abc".to_vec(),
    }
}

#[test]
fn hello_with_matching_fingerprint_is_accepted() {
    let peer = check_hello(&hello(Some("DEADBEEF")), "deadbeef").unwrap();
    assert_eq!(peer.device_id, "pb2-abc");
    assert_eq!(peer.device_name, "Pixel");
}

#[test]
fn hello_with_other_fingerprint_is_refused() {
    assert!(matches!(
        check_hello(&hello(Some("deadbeef")), "cafebabe"),
        Err(HelloRejection::FingerprintMismatch)
    ));
}

#[test]
fn hello_without_fingerprint_is_refused() {
    assert!(matches!(check_hello(&hello(None), "deadbeef"), Err(HelloRejection::MissingFingerprint)));
}

#[test]
fn first_message_must_be_hello() {
    assert!(matches!(check_hello(&Message::Ping, "deadbeef"), Err(HelloRejection::NotHello)));
}

#[test]
fn rejections_are_explained_to_the_phone() {
    assert!(rejection_reply(HelloRejection::NotHello).is_none());
    match rejection_reply(HelloRejection::MissingFingerprint) {
        Some(Message::Error { message }) => {
            assert_eq!(message, "client did not provide a certificate fingerprint")
        }
        _ => panic!("expected an Error message"),
    }
    match rejection_reply(HelloRejection::FingerprintMismatch) {
        Some(Message::Error { message }) => {
            assert_eq!(message, "Hello fingerprint does not match the TLS client certificate")
        }
        _ => panic!("expected an Error message"),
    }
}

#[test]
fn certificate_fingerprint_is_lower_hex_sha256() {
    assert_eq!(
        certificate_fingerprint_hex(b""),
        "e3b0c44298fc1c149afbf4c8996fb92427ae41e4649b934ca495991b7852b855"
    );
}

#[test]
fn pairing_request_shows_both_codes() {
    let peer = PeerHello { device_id: "pb2-abc".to_string(), device_name: "Pixel".to_string() };
    let request = pairing_request(peer, b"", &local_identity());
    assert_eq!(request.device_id, "pb2-abc");
    assert_eq!(request.device_name, "Pixel");
    assert_eq!(request.peer_code, "E3B0-C442");
    assert_eq!(request.local_code, "BA78-16BF");
}

#[test]
fn hello_ack_carries_pc_fingerprint_and_trust() {
    match hello_ack(&local_identity(), "DESKTOP".to_string(), true) {
        Message::HelloAck { device_id, device_name, trusted, cert_fingerprint } => {
            assert_eq!(device_id, "pb2-pc");
            assert_eq!(device_name, "DESKTOP");
            assert!(trusted);
            assert_eq!(cert_fingerprint, "ba7816bf8f01cfea414140de5dae2223b00361a396177a9cb410ff61f20015ad");
        }
        _ => panic!("expected HelloAck"),
    }
}

#[test]
fn session_messages_are_dispatched() {
    assert!(matches!(session_action(Message::Ping), SessionAction::Ignore));
    assert!(matches!(session_action(Message::CallEnded), SessionAction::CallEnded));
    match session_action(Message::SmsReceived { address: "+1".to_string(), body: "hi".to_string(), timestamp: 5 }) {
        SessionAction::SmsReceived { address, body, timestamp } => {
            assert_eq!(address, "+1");
            assert_eq!(body, "hi");
            assert_eq!(timestamp, 5);
        }
        _ => panic!("expected SmsReceived"),
    }
    match session_action(Message::MediaState {
        package: None,
        state: MediaPlaybackState::NoSession,
        title: Some("t".to_string()),
        artist: None,
        album: None,
    }) {
        SessionAction::MediaState { state, title, .. } => {
            assert_eq!(state, MediaPlaybackState::NoSession);
            assert_eq!(title, Some("t".to_string()));
        }
        _ => panic!("expected MediaState"),
    }
    assert!(matches!(session_action(Message::SmsListEnd { count: 3 }), SessionAction::SmsHistoryEnd { count: 3 }));
    assert!(matches!(session_action(Message::MicStart), SessionAction::Unhandled(Message::MicStart)));
    match session_action(Message::Error { message: "boom".to_string() }) {
        SessionAction::PeerError { message } => assert_eq!(message, "boom"),
        _ => panic!("expected PeerError"),
    }
}

#[test]
fn untrusted_hello_gets_a_challenge_and_confirmation_trusts() {
    let mut session = PairingSession::new();
    let reply = session
        .accept_hello("dev".to_string(), "ff00".to_string(), PROTOCOL_VERSION, false, "3F9A-7B21".to_string())
        .unwrap();
    match reply {
        Some(PairingMessage::PairChallenge { device_id, fingerprint, short_code }) => {
            assert_eq!(device_id, "dev");
            assert_eq!(fingerprint, "ff00");
            assert_eq!(short_code, "3F9A-7B21");
        }
        _ => panic!("expected a challenge"),
    }
    assert!(matches!(session.state(), PairingState::AwaitingConfirmation { .. }));
    assert_eq!(session.confirm("dev", "ff00", "0000-0000").err(), Some(PairingError::CodeMismatch));
    assert_eq!(session.confirm("dev", "ff01", "3F9A-7B21").err(), Some(PairingError::FingerprintMismatch));
    assert_eq!(session.confirm("other", "ff00", "3F9A-7B21").err(), Some(PairingError::DeviceMismatch));
    match session.confirm("dev", "ff00", "3F9A-7B21") {
        Ok(PairingMessage::PairResult { device_id, trusted, message }) => {
            assert_eq!(device_id, "dev");
            assert!(trusted);
            assert_eq!(message, "device paired successfully");
        }
        _ => panic!("expected a pair result"),
    }
    assert!(matches!(session.state(), PairingState::Trusted));
    assert_eq!(session.confirm("dev", "ff00", "3F9A-7B21").err(), Some(PairingError::NotExpected));
}

#[test]
fn hello_is_refused_on_protocol_mismatch_or_while_pending() {
    let mut session = PairingSession::default();
    assert_eq!(
        session.accept_hello("dev".to_string(), "ff".to_string(), 2, false, "c".to_string()).err(),
        Some(PairingError::ProtocolMismatch { peer: 2, pc: 1 })
    );
    assert!(matches!(session.state(), PairingState::AwaitingHello));
    session.accept_hello("dev".to_string(), "ff".to_string(), 1, false, "c".to_string()).unwrap();
    assert_eq!(
        session.accept_hello("dev".to_string(), "ff".to_string(), 1, false, "c".to_string()).err(),
        Some(PairingError::DuplicateHello)
    );
    assert_eq!(
        session.accept_hello("other".to_string(), "ee".to_string(), 1, true, "c".to_string()).err(),
        Some(PairingError::OtherDevice)
    );
}

#[test]
fn trusted_hello_is_let_in_at_once() {
    let mut session = PairingSession::new();
    assert!(session.accept_hello("dev".to_string(), "ff".to_string(), 1, true, "c".to_string()).unwrap().is_none());
    assert!(matches!(session.state(), PairingState::Trusted));
}

const EMPTY_SHA256: &str = "e3b0c44298fc1c149afbf4c8996fb92427ae41e4649b934ca495991b7852b855";

#[test]
fn unknown_phone_is_asked_about_then_remembered() {
    let local = local_identity();
    let mut store = TrustStore::empty(PathBuf::from("trusted_peers.json"));
    let hello = hello(Some(&EMPTY_SHA256.to_uppercase()));
    let (peer, request) = match on_hello(&hello, b"", &store, &local, "DESKTOP".to_string()) {
        HelloOutcome::Ask { peer, request } => (peer, request),
        _ => panic!("an unknown phone must be put to the user"),
    };
    assert_eq!(request.peer_code, "E3B0-C442");
    let (ack, serve) = decide(true, &peer, b"", &mut store, &local, "DESKTOP".to_string());
    assert!(serve);
    assert!(matches!(ack, Message::HelloAck { trusted: true, .. }));
    assert!(store.is_trusted("pb2-abc", EMPTY_SHA256));
    assert_eq!(store.entries()[0].1, EMPTY_SHA256);
    match on_hello(&hello, b"", &store, &local, "DESKTOP".to_string()) {
        HelloOutcome::Welcome { peer, ack } => {
            assert_eq!(peer.device_id, "pb2-abc");
            assert!(matches!(ack, Message::HelloAck { trusted: true, .. }));
        }
        _ => panic!("an allowed phone must be welcomed"),
    }
}

#[test]
fn rejected_phone_is_told_and_forgotten() {
    let local = local_identity();
    let mut store = TrustStore::empty(PathBuf::from("trusted_peers.json"));
    let peer = PeerHello { device_id: "pb2-abc".to_string(), device_name: "Pixel".to_string() };
    let (ack, serve) = decide(false, &peer, b"", &mut store, &local, "DESKTOP".to_string());
    assert!(!serve);
    match ack {
        Message::HelloAck { device_id, trusted, cert_fingerprint, .. } => {
            assert_eq!(device_id, "pb2-pc");
            assert!(!trusted);
            assert_eq!(cert_fingerprint, "ba7816bf8f01cfea414140de5dae2223b00361a396177a9cb410ff61f20015ad");
        }
        _ => panic!("expected HelloAck"),
    }
    assert!(store.entries().is_empty());
}

#[test]
fn sessions_without_matching_fingerprint_never_get_hello_ack() {
    let local = local_identity();
    let store = TrustStore::empty(PathBuf::from("t.json"));
    assert!(matches!(
        on_hello(&hello(None), b"", &store, &local, "PC".to_string()),
        HelloOutcome::Refuse(Some(Message::Error { .. }))
    ));
    assert!(matches!(
        on_hello(&hello(Some("deadbeef")), b"", &store, &local, "PC".to_string()),
        HelloOutcome::Refuse(Some(Message::Error { .. }))
    ));
    assert!(matches!(on_hello(&Message::Ping, b"", &store, &local, "PC".to_string()), HelloOutcome::Refuse(None)));
}
