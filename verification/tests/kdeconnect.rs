use phonebridge::crypto::{certificate_fingerprint, colon_hex};
use phonebridge::kdeconnect::framing::{frame_packet, payload_length, FrameError};
use phonebridge::kdeconnect::packet::{certificate_fingerprint_field, FieldValue, IdentityPacket, Packet, PacketBody, PairError};
use phonebridge::kdeconnect::pairing::{PairingDecision, PairingEvent, PairingSession, PairingState};
use phonebridge::kdeconnect::server::{answer, local_identity, step_for, PairingStep, StepError, MAX_PACKET_SIZE};
use phonebridge::kdeconnect::tls::{LocalTlsIdentity, TrustStore, TrustedPeer};
use phonebridge::kdeconnect::tls_server::{on_identity, IdentityOutcome, TlsPairingServer};
use std::path::PathBuf;
use phonebridge::kdeconnect::tls_server::{
    apply_decision, expect_identity, expect_pair_request, local_device_id, local_identity_packet, ClientError,
};
use phonebridge::kdeconnect::tls_server::PairingDecision as TlsDecision;

fn phone() -> IdentityPacket {
    IdentityPacket {
        device_id: "phone".into(),
        device_name: "Phone".into(),
        device_type: "phone".into(),
        incoming_capabilities: vec![],
        outgoing_capabilities: vec![],
        protocol_version: 8,
        transport_fields: Default::default(),
    }
}

#[test]
fn pair_request_round_trips() {
    let packet = Packet::pair_request(7, 1_700_000_000);
    assert_eq!(packet.id, 7);
    assert_eq!(packet.packet_type, "kdeconnect.pair");
    assert_eq!(packet.as_pair().unwrap().pair, true);
    assert_eq!(packet.as_pair().unwrap().timestamp, Some(1_700_000_000));
}

#[test]
fn as_pair_refuses_other_packets() {
    let identity = Packet::identity(1, &phone());
    assert_eq!(identity.as_pair().err(), Some(PairError::NotPair));
    let odd = Packet { id: 2, packet_type: "kdeconnect.pair".into(), body: PacketBody::Other("{}".into()) };
    assert_eq!(odd.as_pair().err(), Some(PairError::InvalidBody));
}

#[test]
fn accept_moves_session_to_paired() {
    let mut session = PairingSession::default();
    session.receive_identity(phone()).unwrap();
    let (_, event) = session.decide(PairingDecision::Accept).unwrap();
    assert!(matches!(event, PairingEvent::Accepted { .. }));
    assert!(session.is_authenticated());
}

#[test]
fn reject_answers_pair_false() {
    let mut session = PairingSession::default();
    session.receive_identity(phone()).unwrap();
    let (packet, event) = session.decide(PairingDecision::Reject).unwrap();
    assert_eq!(packet.as_pair().unwrap().pair, false);
    assert_eq!(packet.as_pair().unwrap().timestamp, None);
    match event {
        PairingEvent::Rejected { peer_id } => assert_eq!(peer_id, "phone"),
        _ => panic!("expected a rejection"),
    }
    assert_eq!(session.state, PairingState::Rejected);
    assert!(!session.is_authenticated());
}

#[test]
fn old_protocol_versions_are_refused() {
    let mut session = PairingSession::default();
    let mut old = phone();
    old.protocol_version = 6;
    assert_eq!(session.receive_identity(old).err(), Some("unsupported KDE Connect protocol version".to_string()));
    assert_eq!(session.state, PairingState::Idle);
    assert!(session.peer.is_none());
}

#[test]
fn deciding_without_a_peer_fails() {
    let mut session = PairingSession::default();
    assert_eq!(
        session.decide(PairingDecision::Accept).err(),
        Some("cannot decide pairing without a peer identity".to_string())
    );
}

#[test]
fn pair_request_awaits_the_remote() {
    let mut session = PairingSession::default();
    let packet = session.make_pair_request_at(42);
    assert_eq!(session.state, PairingState::AwaitingRemote);
    assert_eq!(packet.as_pair().unwrap().timestamp, Some(42));
    let stamped = session.make_pair_request();
    assert!(stamped.as_pair().unwrap().pair);
    assert!(stamped.as_pair().unwrap().timestamp.is_some());
}

#[test]
fn frame_header_is_big_endian_length() {
    let framed = frame_packet(b"{}\n", MAX_PACKET_SIZE).unwrap();
    assert_eq!(framed, vec![0, 0, 0, 3, b'{', b'}', b'\n']);
    assert_eq!(payload_length([0, 0, 0, 3], MAX_PACKET_SIZE), Ok(3));
    assert_eq!(payload_length([0, 1, 0, 0], MAX_PACKET_SIZE), Ok(65536));
}

#[test]
fn frame_lengths_outside_the_limit_are_refused() {
    assert_eq!(payload_length([0, 0, 0, 0], MAX_PACKET_SIZE), Err(FrameError::InvalidLength));
    assert_eq!(payload_length([0, 0x10, 0, 1], MAX_PACKET_SIZE), Err(FrameError::InvalidLength));
    assert_eq!(frame_packet(&[1, 2, 3], 2), Err(FrameError::InvalidLength));
}

#[test]
fn framed_length_reads_back() {
    let payload = vec![7u8; 300];
    let framed = frame_packet(&payload, MAX_PACKET_SIZE).unwrap();
    let header = [framed[0], framed[1], framed[2], framed[3]];
    assert_eq!(payload_length(header, MAX_PACKET_SIZE), Ok(300));
    assert_eq!(&framed[4..], &payload[..]);
}

#[test]
fn listener_steps() {
    match step_for(Packet::identity(1, &phone())) {
        Ok(PairingStep::AskUser(id)) => assert_eq!(id.device_id, "phone"),
        _ => panic!("expected to ask the user"),
    }
    match step_for(Packet::pair_request(1, 5)) {
        Ok(PairingStep::AskUser(id)) => assert_eq!(id.device_id, "unknown"),
        _ => panic!("expected to ask the user"),
    }
    assert!(matches!(step_for(Packet::pair_response(1, false)), Ok(PairingStep::Ignore)));
    let other = Packet { id: 3, packet_type: "kdeconnect.ping".into(), body: PacketBody::Other("{}".into()) };
    assert!(matches!(step_for(other), Ok(PairingStep::Ignore)));
    let bad = Packet { id: 3, packet_type: "kdeconnect.identity".into(), body: PacketBody::Other("{}".into()) };
    assert!(matches!(step_for(bad), Err(StepError::InvalidIdentity)));
    let bad_pair = Packet { id: 3, packet_type: "kdeconnect.pair".into(), body: PacketBody::Other("{}".into()) };
    assert!(matches!(step_for(bad_pair), Err(StepError::InvalidPair)));
}

#[test]
fn answers_stop_reading_only_after_acceptance() {
    let (packet, done) = answer(true);
    assert!(done);
    assert_eq!(packet.as_pair().unwrap().pair, true);
    let (packet, done) = answer(false);
    assert!(!done);
    assert_eq!(packet.as_pair().unwrap().pair, false);
}

#[test]
fn placeholder_identity() {
    let id = local_identity();
    assert_eq!(id.device_id, "phonebridge0000000000000000000000");
    assert_eq!(id.device_name, "PhoneBridge PC");
    assert_eq!(id.incoming_capabilities, vec!["kdeconnect.ping".to_string()]);
    assert_eq!(id.protocol_version, 8);
}

#[test]
fn fingerprint_is_colon_separated_upper_hex() {
    assert_eq!(colon_hex(&[0x0a, 0xff, 0x00]), "0A:FF:00");
    assert_eq!(colon_hex(&[]), "");
    let fp = certificate_fingerprint(b"abc");
    assert!(fp.starts_with("BA:78:16:BF:8F:01"));
    assert_eq!(fp.len(), 32 * 3 - 1);
}

#[test]
fn local_device_id_drops_colons_and_lower_cases() {
    assert_eq!(local_device_id("BA:78:16:BF"), "ba7816bf");
    let packet = local_identity_packet("0A:FF", "My PC".to_string());
    assert_eq!(packet.device_id, "0aff");
    assert_eq!(packet.device_type, "desktop");
    assert_eq!(packet.outgoing_capabilities, vec!["kdeconnect.ping".to_string(), "kdeconnect.share".to_string()]);
}

#[test]
fn client_handshake_checks() {
    assert!(matches!(expect_identity(None), Err(ClientError::ClosedBeforeIdentity)));
    assert!(matches!(expect_identity(Some(Packet::pair_request(1, 1))), Err(ClientError::NotIdentity)));
    assert_eq!(expect_identity(Some(Packet::identity(1, &phone()))).unwrap().device_id, "phone");
    assert_eq!(expect_pair_request(&None), Err(ClientError::ClosedBeforePairRequest));
    assert_eq!(expect_pair_request(&Some(Packet::identity(1, &phone()))), Err(ClientError::NotPair));
    assert_eq!(expect_pair_request(&Some(Packet::pair_response(1, false))), Err(ClientError::NoPairRequest));
    assert_eq!(expect_pair_request(&Some(Packet::pair_request(1, 1))), Ok(()));
}

#[test]
fn announced_fingerprint_field() {
    let mut id = phone();
    assert_eq!(certificate_fingerprint_field(&id), "unknown");
    id.transport_fields.push(("tcpPort".into(), FieldValue::Json("1716".into())));
    id.transport_fields.push(("certificateFingerprint".into(), FieldValue::Text("AA:BB".into())));
    assert_eq!(certificate_fingerprint_field(&id), "AA:BB");
}

#[test]
fn accepted_peer_is_trusted_and_replaces_old_entry() {
    let mut store = TrustStore::new();
    store.trust(TrustedPeer { device_id: "phone".into(), device_name: "Old".into(), fingerprint: "11".into(), paired_at: 1 });
    store.trust(TrustedPeer { device_id: "tab".into(), device_name: "Tab".into(), fingerprint: "22".into(), paired_at: 2 });
    let reply = apply_decision(&mut store, &phone(), "33", TlsDecision::Accept, 100);
    assert_eq!(reply.id, 1);
    assert_eq!(reply.as_pair().unwrap().pair, true);
    assert!(store.is_trusted("phone", "33"));
    assert!(!store.is_trusted("phone", "11"));
    assert!(store.is_trusted("tab", "22"));
    assert_eq!(store.peers.len(), 2);
    assert_eq!(store.peers[1].paired_at, 100);
}

#[test]
fn rejected_peer_leaves_store_unchanged() {
    let mut store = TrustStore::default();
    let reply = apply_decision(&mut store, &phone(), "33", TlsDecision::Reject, 100);
    assert_eq!(reply.as_pair().unwrap().pair, false);
    assert!(store.peers.is_empty());
}

#[test]
fn revoked_peer_is_no_longer_trusted() {
    let mut store = TrustStore::new();
    store.trust(TrustedPeer { device_id: "phone".into(), device_name: "P".into(), fingerprint: "11".into(), paired_at: 1 });
    store.revoke("phone");
    assert!(!store.is_trusted("phone", "11"));
}

#[test]
fn tls_server_shares_its_trust_store() {
    let identity = LocalTlsIdentity { cert: vec![1], key: vec![2], fingerprint: "AA:BB".into() };
    let mut store = TrustStore::new();
    store.trust(TrustedPeer { device_id: "phone".into(), device_name: "P".into(), fingerprint: "11".into(), paired_at: 1 });
    let server = TlsPairingServer::new(identity, PathBuf::from("trusted.json"), store);
    assert_eq!(server.trust_path(), &PathBuf::from("trusted.json"));
    let shared = server.trusted_store();
    shared.lock().unwrap().revoke("phone");
    assert!(!server.trusted_store().lock().unwrap().is_trusted("phone", "11"));
    assert_eq!(server.identity.fingerprint, "AA:BB");
}

#[test]
fn trusted_identity_is_accepted_without_asking() {
    let mut store = TrustStore::new();
    let mut id = phone();
    id.transport_fields.push(("certificateFingerprint".into(), FieldValue::Text("AA:BB".into())));
    match on_identity(Some(Packet::identity(1, &id)), &store) {
        Ok(IdentityOutcome::AwaitPairRequest(request)) => assert_eq!(request.fingerprint, "AA:BB"),
        _ => panic!("an unknown device must request pairing"),
    }
    store.trust(TrustedPeer { device_id: "phone".into(), device_name: "P".into(), fingerprint: "AA:BB".into(), paired_at: 1 });
    match on_identity(Some(Packet::identity(1, &id)), &store) {
        Ok(IdentityOutcome::AcceptTrusted(request)) => assert_eq!(request.identity.device_id, "phone"),
        _ => panic!("a trusted device is accepted at once"),
    }
    assert!(matches!(on_identity(None, &store), Err(ClientError::ClosedBeforeIdentity)));
}
