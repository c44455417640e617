use phonebridge::call::hfp::create_backend;
use phonebridge::call::CallState;
use phonebridge::connection::coordinator::{ConnectLoop, ConnectStep};
use phonebridge::connection::manager::{serve_step, ServeAction, ServeEvent};
use phonebridge::connection::session::{
    ConnectionState, ControlError, ControlInput, ControlReply, ControlSession, ControlStep,
    HANDSHAKE_TIMEOUT_NANOS, IDLE_TIMEOUT_NANOS,
};
use phonebridge::pairing::identity::{default_identity_dir, home_dir};
use std::path::PathBuf;
use phonebridge::pairing::session::{PairingError, PairingMessage, PairingState};
use phonebridge::platform::PlatformKind;
use phonebridge::protocol::{HfpSupport, Message};

const FINGERPRINT: &str = "3f9a7b21c0ffee00";

fn hello(fingerprint: Option<&str>) -> ControlInput {
    ControlInput::Message(Message::Hello {
        device_id: "phone-1".to_string(),
        device_name: "Phone".to_string(),
        platform: "android".to_string(),
        protocol_version: 1,
        cert_fingerprint: fingerprint.map(|f| f.to_string()),
    })
}

fn msg(m: Message) -> ControlInput {
    ControlInput::Message(m)
}

fn connected_session() -> ControlSession {
    let mut s = ControlSession::new();
    let step = s.handle_after(hello(Some(FINGERPRINT)), true, None, 0).unwrap();
    assert!(step.replies.is_empty());
    assert_eq!(*s.state(), ConnectionState::Connected);
    s
}

fn no_replies(step: &ControlStep) -> bool {
    step.replies.is_empty() && step.call.is_none()
}

#[test]
fn ping_before_pairing_is_refused() {
    let mut s = ControlSession::new();
    let r = s.handle_after(msg(Message::Ping), false, None, 0);
    assert!(matches!(r, Err(ControlError::PingBeforePairing)));
    assert_eq!(*s.state(), ConnectionState::Handshaking);
}

#[test]
fn pong_is_taken_before_pairing() {
    let mut s = ControlSession::new();
    let step = s.handle_after(msg(Message::Pong), false, None, 0).unwrap();
    assert!(no_replies(&step));
}

#[test]
fn other_messages_before_pairing_are_refused() {
    let mut s = ControlSession::new();
    let r = s.handle_after(msg(Message::MicStart), false, None, 0);
    assert!(matches!(r, Err(ControlError::NotAllowedBeforePairing)));
    let r = s.handle_after(msg(Message::CallAnswer), false, None, 0);
    assert!(matches!(r, Err(ControlError::CallBeforePairing)));
}

#[test]
fn trusted_hello_connects_and_ping_gets_pong() {
    let mut s = connected_session();
    assert!(s.is_authenticated());
    assert!(matches!(s.pairing().state(), PairingState::Trusted));
    let step = s.handle_after(msg(Message::Ping), false, None, 0).unwrap();
    assert_eq!(step.replies.len(), 1);
    assert!(matches!(step.replies[0], ControlReply::Message(Message::Pong)));
    let step = s.handle_after(msg(Message::MicStart), false, None, 0).unwrap();
    assert!(no_replies(&step));
}

#[test]
fn hello_after_handshake_is_refused() {
    let mut s = connected_session();
    let r = s.handle_after(hello(Some(FINGERPRINT)), true, None, 0);
    assert!(matches!(r, Err(ControlError::HelloAfterHandshake)));
}

#[test]
fn session_refuses_hello_without_fingerprint() {
    let mut s = ControlSession::new();
    let r = s.handle_after(hello(None), true, None, 0);
    assert!(matches!(r, Err(ControlError::MissingFingerprint)));
}

#[test]
fn hello_of_another_protocol_is_refused() {
    let mut s = ControlSession::new();
    let input = ControlInput::Message(Message::Hello {
        device_id: "phone-1".to_string(),
        device_name: "Phone".to_string(),
        platform: "android".to_string(),
        protocol_version: 2,
        cert_fingerprint: Some(FINGERPRINT.to_string()),
    });
    let r = s.handle_after(input, true, None, 0);
    assert!(matches!(r, Err(ControlError::Pairing(PairingError::ProtocolMismatch { peer: 2, pc: 1 }))));
    assert_eq!(*s.state(), ConnectionState::Handshaking);
}

#[test]
fn untrusted_hello_gets_a_challenge_and_confirmation_connects() {
    let mut s = ControlSession::new();
    let step = s.handle_after(hello(Some(FINGERPRINT)), false, None, 0).unwrap();
    assert_eq!(step.replies.len(), 1);
    match &step.replies[0] {
        ControlReply::Pairing(PairingMessage::PairChallenge { device_id, fingerprint, short_code }) => {
            assert_eq!(device_id, "phone-1");
            assert_eq!(fingerprint, FINGERPRINT);
            assert_eq!(short_code, "3F9A-7B21");
        }
        _ => panic!("expected a pairing challenge"),
    }
    assert_eq!(*s.state(), ConnectionState::Handshaking);

    let again = s.handle_after(hello(Some(FINGERPRINT)), false, None, 0);
    assert!(matches!(again, Err(ControlError::Pairing(PairingError::DuplicateHello))));

    let confirm = |code: &str| ControlInput::PairConfirm { device_id: "phone-1".to_string(), short_code: code.to_string() };
    let r = s.handle_after(confirm("3F9A-7B21"), false, None, 0);
    assert!(matches!(r, Err(ControlError::MissingPeerFingerprint)));
    let r = s.handle_after(confirm("0000-0000"), false, Some(FINGERPRINT.to_string()), 0);
    assert!(matches!(r, Err(ControlError::Pairing(PairingError::CodeMismatch))));
    let r = s.handle_after(confirm("3F9A-7B21"), false, Some("ffff".to_string()), 0);
    assert!(matches!(r, Err(ControlError::Pairing(PairingError::FingerprintMismatch))));
    assert_eq!(*s.state(), ConnectionState::Handshaking);

    let step = s.handle_after(confirm("3F9A-7B21"), false, Some(FINGERPRINT.to_string()), 0).unwrap();
    match &step.replies[0] {
        ControlReply::Pairing(PairingMessage::PairResult { device_id, trusted, message }) => {
            assert_eq!(device_id, "phone-1");
            assert!(*trusted);
            assert_eq!(message, "device paired successfully");
        }
        _ => panic!("expected a pairing result"),
    }
    assert_eq!(*s.state(), ConnectionState::Connected);
}

#[test]
fn confirmation_without_challenge_is_not_expected() {
    let mut s = ControlSession::new();
    let input = ControlInput::PairConfirm { device_id: "phone-1".to_string(), short_code: "3F9A-7B21".to_string() };
    let r = s.handle_after(input, false, Some(FINGERPRINT.to_string()), 0);
    assert!(matches!(r, Err(ControlError::Pairing(PairingError::NotExpected))));
}

#[test]
fn handshake_times_out_after_fifteen_seconds() {
    let mut s = ControlSession::new();
    assert_eq!(HANDSHAKE_TIMEOUT_NANOS, 15_000_000_000);
    assert_eq!(s.timeout_after(5_000_000_000), 10_000_000_000);
    assert!(!s.is_expired_after(14_999_999_999));
    assert!(s.is_expired_after(15_000_000_000));
    let r = s.handle_after(hello(Some(FINGERPRINT)), true, None, 15_000_000_000);
    assert!(matches!(r, Err(ControlError::TimedOut)));
    assert_eq!(*s.state(), ConnectionState::Handshaking);
}

#[test]
fn connected_session_idles_for_forty_five_seconds() {
    let mut s = connected_session();
    assert_eq!(IDLE_TIMEOUT_NANOS, 45_000_000_000);
    assert_eq!(s.timeout_after(0), 45_000_000_000);
    assert_eq!(s.timeout_after(50_000_000_000), 0);
    assert!(s.handle_after(msg(Message::Ping), false, None, 44_000_000_000).is_ok());
    let r = s.handle_after(msg(Message::Ping), false, None, 45_000_000_000);
    assert!(matches!(r, Err(ControlError::TimedOut)));
}

#[test]
fn fresh_session_is_not_expired_by_the_clock() {
    let mut s = ControlSession::default();
    assert!(!s.is_expired());
    assert!(s.timeout().as_nanos() <= 15_000_000_000);
    let r = s.handle(msg(Message::Ping), false);
    assert!(matches!(r, Err(ControlError::PingBeforePairing)));
    let step = s.handle_with_peer(hello(Some(FINGERPRINT)), true, None).unwrap();
    assert!(step.replies.is_empty());
    assert!(s.is_authenticated());
}

#[test]
fn hello_without_pairing_code_is_not_taken() {
    let mut s = ControlSession::new();
    assert!(s.receive(hello(Some("abc")), false, None).is_none());
    assert_eq!(*s.state(), ConnectionState::Handshaking);
    assert!(matches!(s.pairing().state(), PairingState::AwaitingHello));
    let r = s.receive(msg(Message::Ping), false, None);
    assert!(matches!(r, Some(Err(ControlError::PingBeforePairing))));
}

#[test]
fn call_messages_without_backend_are_only_checked() {
    let mut s = connected_session();
    let step = s.handle_after(msg(Message::CallAnswer), false, None, 0).unwrap();
    assert!(no_replies(&step));
}

#[test]
fn call_messages_go_to_the_backend() {
    let mut s = connected_session().with_calls(create_backend(PlatformKind::Unknown));
    let step = s
        .handle_after(
            msg(Message::IncomingCall { caller_number: Some("+100".to_string()), caller_name: None }),
            false,
            None,
            0,
        )
        .unwrap();
    assert!(step.replies.is_empty());
    match step.call {
        Some(CallState::Ringing { caller_number, caller_name }) => {
            assert_eq!(caller_number.as_deref(), Some("+100"));
            assert_eq!(caller_name, None);
        }
        _ => panic!("expected a ringing call"),
    }
    match s.handle_after(msg(Message::CallAnswer), false, None, 0) {
        Err(ControlError::Call(reason)) => assert_eq!(reason, "HFP backend is not available on this platform/build"),
        _ => panic!("expected the backend's refusal"),
    }
    let step = s
        .handle_after(msg(Message::PhoneBluetoothStatus { hfp_calls_toggle_enabled: true }), false, None, 0)
        .unwrap();
    assert!(matches!(
        step.replies[0],
        ControlReply::Message(Message::PcBluetoothStatus { hfp_supported: HfpSupport::Unsupported })
    ));
}

#[test]
fn serving_delivers_sends_and_stops() {
    assert!(matches!(serve_step(ServeEvent::Received(Some(Message::Ping))), ServeAction::Deliver(Message::Ping)));
    assert!(matches!(serve_step(ServeEvent::Queued(Some(Message::CallEnd))), ServeAction::Send(Message::CallEnd)));
    assert!(matches!(serve_step(ServeEvent::Heartbeat), ServeAction::Send(Message::Ping)));
    assert!(matches!(serve_step(ServeEvent::Received(None)), ServeAction::Stop));
    assert!(matches!(serve_step(ServeEvent::Queued(None)), ServeAction::Stop));
}

#[test]
fn home_is_home_then_profile_then_current_dir() {
    assert_eq!(home_dir(Some("/home/a"), Some("C:\\Users\\a"), "."), "/home/a");
    assert_eq!(home_dir(None, Some("C:\\Users\\a"), "."), "C:\\Users\\a");
    assert_eq!(home_dir::<&str>(None, None, "."), ".");
}

#[test]
fn identity_dir_is_in_the_chosen_home() {
    let home = PathBuf::from("/home/a");
    let profile = PathBuf::from("/users/a");
    assert_eq!(default_identity_dir(Some(home.clone()), Some(profile.clone())), home.join(".phonebridge2"));
    assert_eq!(default_identity_dir(None, Some(profile.clone())), profile.join(".phonebridge2"));
    assert_eq!(default_identity_dir(None, None), PathBuf::from(".").join(".phonebridge2"));
}

#[test]
fn connect_loop_tries_in_order_and_reports_the_last_failure() {
    let mut progress = ConnectLoop::new(2);
    assert_eq!(progress.next(), ConnectStep::Try(0));
    progress.failed("refused".to_string());
    assert_eq!(progress.next(), ConnectStep::Try(1));
    progress.timed_out();
    assert_eq!(progress.next(), ConnectStep::GiveUp);
    assert_eq!(progress.into_error(), "connection attempt timed out");
}

#[test]
fn connect_loop_without_routes_gives_up_at_once() {
    let progress = ConnectLoop::new(0);
    assert_eq!(progress.next(), ConnectStep::GiveUp);
    assert_eq!(progress.into_error(), "no TCP routes available");
}

#[test]
fn timed_out_session_keeps_its_state() {
    let mut s = connected_session();
    let r = s.handle_after(msg(Message::Ping), false, None, 45_000_000_000);
    assert!(matches!(r, Err(ControlError::TimedOut)));
    assert!(s.is_authenticated());
    assert!(matches!(s.pairing().state(), PairingState::Trusted));
}
