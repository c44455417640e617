//! Decisions of the TLS control-plane listener: pairing gate and dispatch.
//!
//! Security model (mutual TLS):
//! - The phone must present its self-signed certificate during the handshake;
//!   unknown devices can reach the pairing gate, while TLS still proves
//!   possession of the private key.
//! - After the handshake the SHA-256 fingerprint is taken from the TLS layer,
//!   not from the Hello message. The fingerprint claimed inside Hello must
//!   match it, binding the protocol identity to the authenticated channel.
//! - Trusted `(device id, fingerprint)` pairs go straight in; anything else
//!   goes through the user's Allow/Reject decision and is remembered on Allow.
//!
//! The sockets, TLS and the user interface are driven by the caller.
use super::identity::Identity;
use super::trust::{short_code, short_code_of, TrustStore};
use crate::crypto::{sha256, sha256_hex};
use crate::protocol::{MediaPlaybackState, Message};
use crate::text::{
    ascii_lower_seq, eq_ignoring_ascii_case, hex_lower, lemma_hex_lower_ascii, str_eq_ignore_ascii_case,
};
use vstd::prelude::*;

verus! {

/// Port of the TLS control-plane listener.
pub const PAIRING_PORT: u16 = 17591;

/// What the user is asked to allow or reject.
pub struct PairingRequest {
    pub device_id: String,
    pub device_name: String,
    /// Pairing code of the phone's certificate.
    pub peer_code: String,
    /// Pairing code of this PC's certificate, to compare on the phone.
    pub local_code: String,
}

/// Who said Hello.
pub struct PeerHello {
    pub device_id: String,
    pub device_name: String,
}

/// Why the first message of a session is refused.
#[derive(Debug, Clone, Copy, PartialEq, Eq, Structural)]
pub enum HelloRejection {
    /// The first message is not a Hello.
    NotHello,
    /// The fingerprint claimed in Hello is not the TLS client certificate's.
    FingerprintMismatch,
    /// Hello carries no fingerprint.
    MissingFingerprint,
}

/// The authoritative fingerprint of a peer: SHA-256 of the certificate it
/// presented in the TLS handshake, in lower-case hex.
pub fn certificate_fingerprint_hex(cert_der: &[u8]) -> (r: String)
    ensures
        r@ == hex_lower(sha256(cert_der@)),
        sha256(cert_der@).len() == 32,
{
    sha256_hex(cert_der)
}

/// Checks the first message of a session against the TLS client certificate
/// fingerprint: it must be a Hello whose claimed fingerprint equals the TLS
/// one, ignoring the case of hex letters.
pub fn check_hello(hello: &Message, tls_fingerprint: &str) -> (r: Result<PeerHello, HelloRejection>)
    ensures
        match *hello {
            Message::Hello { device_id, device_name, cert_fingerprint, .. } => match cert_fingerprint {
                Some(claimed) => if eq_ignoring_ascii_case(claimed@, tls_fingerprint@) {
                    r matches Ok(p) && p.device_id@ == device_id@ && p.device_name@ == device_name@
                } else {
                    r == Err::<PeerHello, HelloRejection>(HelloRejection::FingerprintMismatch)
                },
                None => r == Err::<PeerHello, HelloRejection>(HelloRejection::MissingFingerprint),
            },
            _ => r == Err::<PeerHello, HelloRejection>(HelloRejection::NotHello),
        },
{
    match hello {
        Message::Hello { device_id, device_name, cert_fingerprint, .. } => {
            match cert_fingerprint {
                Some(claimed) => {
                    if str_eq_ignore_ascii_case(claimed.as_str(), tls_fingerprint) {
                        Ok(PeerHello { device_id: device_id.clone(), device_name: device_name.clone() })
                    } else {
                        Err(HelloRejection::FingerprintMismatch)
                    }
                },
                None => Err(HelloRejection::MissingFingerprint),
            }
        },
        _ => Err(HelloRejection::NotHello),
    }
}

pub open spec fn rejection_reason(r: HelloRejection) -> Option<Seq<char>> {
    match r {
        HelloRejection::NotHello => None,
        HelloRejection::FingerprintMismatch => Some(
            "Hello fingerprint does not match the TLS client certificate"@,
        ),
        HelloRejection::MissingFingerprint => Some(
            "client did not provide a certificate fingerprint"@,
        ),
    }
}

/// What the phone is told before the session is closed: an Error message with
/// the reason for a Hello whose fingerprint is missing or wrong; nothing when
/// the first message was not a Hello at all.
pub fn rejection_reply(rejection: HelloRejection) -> (r: Option<Message>)
    ensures
        match rejection_reason(rejection) {
            None => r is None,
            Some(reason) => r matches Some(Message::Error { message }) && message@ == reason,
        },
{
    match rejection {
        HelloRejection::NotHello => None,
        HelloRejection::FingerprintMismatch => Some(
            Message::Error {
                message: String::from_str(
                    "Hello fingerprint does not match the TLS client certificate",
                ),
            },
        ),
        HelloRejection::MissingFingerprint => Some(
            Message::Error {
                message: String::from_str("client did not provide a certificate fingerprint"),
            },
        ),
    }
}

/// The request shown to the user for an untrusted peer: its id and name and
/// the pairing codes of both certificates.
pub fn pairing_request(peer: PeerHello, peer_cert_der: &[u8], local: &Identity) -> (r: PairingRequest)
    ensures
        r.device_id == peer.device_id,
        r.device_name == peer.device_name,
        r.peer_code@ == short_code_of(hex_lower(sha256(peer_cert_der@))),
        r.local_code@ == short_code_of(hex_lower(sha256(local.cert_der@))),
{
    let peer_fp = certificate_fingerprint_hex(peer_cert_der);
    let local_fp = local.fingerprint_hex();
    proof {
        lemma_hex_lower_ascii(sha256(peer_cert_der@));
        lemma_hex_lower_ascii(sha256(local.cert_der@));
    }
    PairingRequest {
        device_id: peer.device_id,
        device_name: peer.device_name,
        peer_code: short_code(peer_fp.as_str()),
        local_code: short_code(local_fp.as_str()),
    }
}

/// The acknowledgement of a Hello: this PC's id, name and fingerprint and
/// whether the phone is trusted.
pub fn hello_ack(local: &Identity, device_name: String, trusted: bool) -> (r: Message)
    ensures
        r matches Message::HelloAck { device_id, device_name: name, trusted: t, cert_fingerprint }
            && device_id@ == local.device_id@ && name == device_name && t == trusted
            && cert_fingerprint@ == hex_lower(sha256(local.cert_der@)),
{
    Message::HelloAck {
        device_id: local.device_id.clone(),
        device_name,
        trusted,
        cert_fingerprint: local.fingerprint_hex(),
    }
}

/// What follows the first message of a session.
pub enum HelloOutcome {
    /// Close the session after sending this reply, if any; without a reply the
    /// session failed (the first message was not a Hello).
    Refuse(Option<Message>),
    /// The peer is trusted already: send the acknowledgement and serve it.
    Welcome { peer: PeerHello, ack: Message },
    /// The peer is unknown: ask the user, then call `decide`.
    Ask { peer: PeerHello, request: PairingRequest },
}

/// The acknowledgement this PC sends, as plain values: its device id, its
/// name, whether the phone is trusted, and its certificate fingerprint.
pub open spec fn is_ack(m: Message, local: Identity, device_name: Seq<char>, trusted: bool) -> bool {
    m matches Message::HelloAck { device_id, device_name: name, trusted: t, cert_fingerprint }
        && device_id@ == local.device_id@ && name@ == device_name && t == trusted
        && cert_fingerprint@ == hex_lower(sha256(local.cert_der@))
}

/// The pairing gate on the first message of a session, given the certificate
/// the phone presented in the TLS handshake: a Hello whose fingerprint is
/// missing or is not that certificate's is refused with an explanation; a
/// first message that is not a Hello gets no reply; a trusted (device id,
/// fingerprint) pair is welcomed at once; anything else is put to the user.
pub fn on_hello(
    hello: &Message,
    peer_cert_der: &[u8],
    store: &TrustStore,
    local: &Identity,
    device_name: String,
) -> (r: HelloOutcome)
    ensures
        ({
            let fp = hex_lower(sha256(peer_cert_der@));
            match *hello {
                Message::Hello { device_id, device_name: peer_name, cert_fingerprint, .. } => match cert_fingerprint {
                    None => r matches HelloOutcome::Refuse(Some(Message::Error { message }))
                        && message@ == rejection_reason(HelloRejection::MissingFingerprint)->0,
                    Some(claimed) => if !eq_ignoring_ascii_case(claimed@, fp) {
                        r matches HelloOutcome::Refuse(Some(Message::Error { message }))
                            && message@ == rejection_reason(HelloRejection::FingerprintMismatch)->0
                    } else if store.trusts(device_id@, fp) {
                        r matches HelloOutcome::Welcome { peer, ack } && peer.device_id@ == device_id@
                            && peer.device_name@ == peer_name@ && is_ack(ack, *local, device_name@, true)
                    } else {
                        r matches HelloOutcome::Ask { peer, request } && peer.device_id@ == device_id@
                            && peer.device_name@ == peer_name@ && request.device_id@ == device_id@
                            && request.device_name@ == peer_name@ && request.peer_code@ == short_code_of(fp)
                            && request.local_code@ == short_code_of(hex_lower(sha256(local.cert_der@)))
                    },
                },
                _ => r matches HelloOutcome::Refuse(None),
            }
        }),
{
    let fingerprint = certificate_fingerprint_hex(peer_cert_der);
    let peer = match check_hello(hello, fingerprint.as_str()) {
        Ok(peer) => peer,
        Err(rejection) => {
            return HelloOutcome::Refuse(rejection_reply(rejection));
        },
    };
    if store.is_trusted(peer.device_id.as_str(), fingerprint.as_str()) {
        let ack = hello_ack(local, device_name, true);
        HelloOutcome::Welcome { peer, ack }
    } else {
        let request = pairing_request(
            PeerHello { device_id: peer.device_id.clone(), device_name: peer.device_name.clone() },
            peer_cert_der,
            local,
        );
        HelloOutcome::Ask { peer, request }
    }
}

/// Carries out the user's answer for an unknown peer that presented the
/// certificate `peer_cert_der`: on Allow the peer's device id is trusted with
/// that certificate's fingerprint from now on (the store must then be written
/// back) and the session goes on; on Reject the store is left alone and the
/// session closes. Either way the phone gets an acknowledgement saying whether
/// it is trusted. Returns that message and whether to go on serving.
///
/// After an Allow, the phone's next Hello with the same device id and
/// certificate is welcomed by `on_hello` without asking again.
pub fn decide(
    accepted: bool,
    peer: &PeerHello,
    peer_cert_der: &[u8],
    store: &mut TrustStore,
    local: &Identity,
    device_name: String,
) -> (r: (Message, bool))
    ensures
        r.1 == accepted,
        is_ack(r.0, *local, device_name@, accepted),
        accepted ==> final(store).peers() == old(store).peers().insert(
            peer.device_id@,
            ascii_lower_seq(hex_lower(sha256(peer_cert_der@))),
        ),
        accepted ==> final(store).trusts(peer.device_id@, hex_lower(sha256(peer_cert_der@))),
        !accepted ==> final(store).peers() == old(store).peers(),
        final(store).location() == old(store).location(),
{
    if accepted {
        let fingerprint = certificate_fingerprint_hex(peer_cert_der);
        proof {
            lemma_hex_lower_ascii(sha256(peer_cert_der@));
            crate::text::lemma_eq_ignoring_ascii_case_equivalence(fingerprint@, fingerprint@, fingerprint@);
        }
        store.trust(peer.device_id.as_str(), fingerprint.as_str());
    }
    (hello_ack(local, device_name, accepted), accepted)
}

/// What the listener does with a message from a paired phone.
pub enum SessionAction {
    /// Nothing to do (keep-alives and status messages).
    Ignore,
    IncomingCall { caller_name: Option<String>, caller_number: Option<String> },
    CallEnded,
    /// Store the SMS and show it.
    SmsReceived { address: String, body: String, timestamp: i64 },
    /// Store one item of the SMS history.
    SmsHistoryItem { id: String, address: String, body: String, timestamp: i64 },
    /// The SMS history is complete.
    SmsHistoryEnd { count: u32 },
    SmsSent { address: String, body: String },
    SmsError { error: String },
    MediaState {
        package: Option<String>,
        state: MediaPlaybackState,
        title: Option<String>,
        artist: Option<String>,
        album: Option<String>,
    },
    /// The phone reported an error; it is shown like an SMS error.
    PeerError { message: String },
    /// A message the listener does not handle; it is only logged.
    Unhandled(Message),
}

/// Dispatch of a message from a paired phone.
pub fn session_action(message: Message) -> (r: SessionAction)
    ensures
        match message {
            Message::Ping | Message::PhoneBluetoothStatus { .. } | Message::PcBluetoothStatus { .. }
            | Message::HelloAck { .. } | Message::Pong => r is Ignore,
            Message::IncomingCall { caller_number, caller_name } => r == (SessionAction::IncomingCall {
                caller_name,
                caller_number,
            }),
            Message::CallEnded => r is CallEnded,
            Message::SmsReceived { address, body, timestamp } => r == (SessionAction::SmsReceived {
                address,
                body,
                timestamp,
            }),
            Message::SmsItem { id, address, body, timestamp } => r == (
            SessionAction::SmsHistoryItem { id, address, body, timestamp }),
            Message::SmsListEnd { count } => r == (SessionAction::SmsHistoryEnd { count }),
            Message::SmsSent { address, body } => r == (SessionAction::SmsSent { address, body }),
            Message::SmsError { error } => r == (SessionAction::SmsError { error }),
            Message::MediaState { package, state, title, artist, album } => r == (
            SessionAction::MediaState { package, state, title, artist, album }),
            Message::Error { message } => r == (SessionAction::PeerError { message }),
            _ => r == SessionAction::Unhandled(message),
        },
{
    match message {
        Message::Ping => SessionAction::Ignore,
        Message::IncomingCall { caller_number, caller_name } => SessionAction::IncomingCall {
            caller_name,
            caller_number,
        },
        Message::CallEnded => SessionAction::CallEnded,
        Message::SmsReceived { address, body, timestamp } => SessionAction::SmsReceived {
            address,
            body,
            timestamp,
        },
        Message::SmsItem { id, address, body, timestamp } => SessionAction::SmsHistoryItem {
            id,
            address,
            body,
            timestamp,
        },
        Message::SmsListEnd { count } => SessionAction::SmsHistoryEnd { count },
        Message::SmsSent { address, body } => SessionAction::SmsSent { address, body },
        Message::SmsError { error } => SessionAction::SmsError { error },
        Message::MediaState { package, state, title, artist, album } => SessionAction::MediaState {
            package,
            state,
            title,
            artist,
            album,
        },
        Message::PhoneBluetoothStatus { .. } | Message::PcBluetoothStatus { .. }
        | Message::HelloAck { .. } | Message::Pong => SessionAction::Ignore,
        Message::Error { message } => SessionAction::PeerError { message },
        other => SessionAction::Unhandled(other),
    }
}

} // verus!
