//! One control session with a phone: the handshake, pairing and the idle
//! timeout, and which messages are let through before the peer is trusted.
//!
//! The session decides; the transport around it reads the messages, sends the
//! replies and stores the call state that a step hands back.
use super::timeout::{
    duration_length, duration_of_nanos, elapsed_nanos, is_duration_length, max_duration_nanos, now,
};
use crate::call::controller::call_transition;
use crate::call::hfp::{HfpBackend, HostHfpBackend};
use crate::call::CallState;
use crate::pairing::session::{pending, PairingError, PairingMessage, PairingSession, PairingState};
use crate::pairing::trust::{has_short_code, short_code, short_code_of, try_short_code};
use crate::protocol::{Message, PROTOCOL_VERSION};
use std::time::{Duration, Instant};
use vstd::prelude::*;

verus! {

/// How long a peer may take to finish the handshake: 15 seconds, in nanoseconds.
pub const HANDSHAKE_TIMEOUT_NANOS: u128 = 15_000_000_000;

/// How long an authenticated session may stay silent: 45 seconds, in nanoseconds.
pub const IDLE_TIMEOUT_NANOS: u128 = 45_000_000_000;

/// Where a connection stands.
#[derive(Debug, Clone, Copy, PartialEq, Eq, Structural)]
pub enum ConnectionState {
    Disconnected,
    /// Waiting for the peer's Hello or for its pairing to be confirmed.
    Handshaking,
    /// The peer is trusted.
    Connected,
}

/// What the peer sent: a protocol message, or its confirmation of the pairing
/// code shown on both devices.
pub enum ControlInput {
    Message(Message),
    PairConfirm { device_id: String, short_code: String },
}

/// What the session sends back.
pub enum ControlReply {
    Message(Message),
    Pairing(PairingMessage),
}

/// The outcome of one handled input: the replies to send, in order, and the
/// call state to record (`None`: leave it as it is).
pub struct ControlStep {
    pub replies: Vec<ControlReply>,
    pub call: Option<CallState>,
}

/// Why the session refused an input.
#[derive(Debug)]
pub enum ControlError {
    /// The session was silent for longer than its limit.
    TimedOut,
    /// A Hello arrived after the handshake.
    HelloAfterHandshake,
    /// A Hello carried no certificate fingerprint.
    MissingFingerprint,
    /// A pairing confirmation arrived on a connection whose certificate
    /// fingerprint is not known.
    MissingPeerFingerprint,
    /// The pairing step was refused.
    Pairing(PairingError),
    /// A Ping arrived before the peer was trusted.
    PingBeforePairing,
    /// A call message arrived before the peer was trusted.
    CallBeforePairing,
    /// Another message arrived before the peer was trusted.
    NotAllowedBeforePairing,
    /// The HFP backend refused a call command, for this reason.
    Call(String),
}

/// The silence allowed in a connection state: the idle limit once connected,
/// the handshake limit before.
pub open spec fn limit_of(state: ConnectionState) -> u128 {
    if state == ConnectionState::Connected {
        IDLE_TIMEOUT_NANOS
    } else {
        HANDSHAKE_TIMEOUT_NANOS
    }
}

/// Nanoseconds left before a session in `state` times out, `elapsed`
/// nanoseconds after the peer was last heard from; zero once it has.
pub open spec fn time_left(state: ConnectionState, elapsed: u128) -> nat {
    if elapsed >= limit_of(state) {
        0
    } else {
        (limit_of(state) - elapsed) as nat
    }
}

/// Whether a session in `state` has timed out `elapsed` nanoseconds after the
/// peer was last heard from.
pub open spec fn timed_out(state: ConnectionState, elapsed: u128) -> bool {
    elapsed >= limit_of(state)
}

/// Whether a message concerns a phone call.
pub open spec fn is_call_message(m: Message) -> bool {
    ||| m is IncomingCall
    ||| m is CallAnswer
    ||| m is CallDecline
    ||| m is CallEnded
    ||| m is PhoneBluetoothStatus
}

/// An input the session can take: a Hello's fingerprint, where it has one,
/// must have a pairing code.
pub open spec fn has_code_if_hello(input: ControlInput) -> bool {
    input matches ControlInput::Message(Message::Hello { cert_fingerprint: Some(f), .. })
        ==> has_short_code(f@)
}

/// `r` is the refusal `e` and the session is left as it was.
pub open spec fn refused(
    s0: ControlSession,
    s1: ControlSession,
    r: Result<ControlStep, ControlError>,
    e: ControlError,
) -> bool {
    &&& r matches Err(x) && x == e
    &&& s1.spec_state() == s0.spec_state()
    &&& s1.spec_pairing() == s0.spec_pairing()
}

/// `r` sends exactly the replies `replies` and records no call state.
pub open spec fn replies_with(r: Result<ControlStep, ControlError>, replies: Seq<ControlReply>) -> bool {
    r matches Ok(step) && step.replies@ == replies && step.call is None
}

/// A call command that the backend answers with `refusal`: on success the
/// call moves to `next` and nothing is sent; otherwise the backend's reason
/// is the error. The session is left as it was either way.
pub open spec fn commanded_step(
    refusal: Option<Seq<char>>,
    next: CallState,
    r: Result<ControlStep, ControlError>,
) -> bool {
    match refusal {
        None => r matches Ok(step) && step.replies@.len() == 0 && step.call == Some(next),
        Some(reason) => r matches Err(ControlError::Call(e)) && e@ == reason,
    }
}

/// What a call message does once the peer is trusted, with the backend `hfp`.
pub open spec fn call_step(hfp: HostHfpBackend, m: Message, r: Result<ControlStep, ControlError>) -> bool {
    match m {
        Message::IncomingCall { caller_number, caller_name } => r matches Ok(step)
            && step.replies@.len() == 0 && step.call == Some(
            CallState::Ringing { caller_number, caller_name },
        ),
        Message::CallAnswer => commanded_step(hfp.answer_refusal(), CallState::Active, r),
        Message::CallDecline => commanded_step(hfp.decline_refusal(), CallState::Idle, r),
        Message::CallEnded => commanded_step(hfp.end_refusal(), CallState::Idle, r),
        _ => replies_with(
            r,
            seq![ControlReply::Message(Message::PcBluetoothStatus { hfp_supported: hfp.spec_support() })],
        ),
    }
}

/// `reply` is the pairing challenge for this device, fingerprint and code.
pub open spec fn is_challenge(reply: ControlReply, device_id: Seq<char>, fingerprint: Seq<char>, code: Seq<char>) -> bool {
    reply matches ControlReply::Pairing(
        PairingMessage::PairChallenge { device_id: d, fingerprint: g, short_code: c },
    ) && d@ == device_id && g@ == fingerprint && c@ == code
}

/// `reply` tells the device that it is now paired.
pub open spec fn is_paired_result(reply: ControlReply, device_id: Seq<char>) -> bool {
    reply matches ControlReply::Pairing(PairingMessage::PairResult { device_id: d, trusted: true, message: m })
        && d@ == device_id && m@ == "device paired successfully"@
}

/// What a Hello does: refused after the handshake or without a fingerprint;
/// otherwise handed to the pairing session with the fingerprint's code. A
/// trusted peer is connected at once; an untrusted one is sent the pairing
/// challenge and the handshake goes on; a refusal of the pairing session is
/// the error.
pub open spec fn hello_step(
    s0: ControlSession,
    s1: ControlSession,
    device_id: Seq<char>,
    protocol_version: u32,
    fingerprint: Option<String>,
    trusted: bool,
    r: Result<ControlStep, ControlError>,
) -> bool {
    if s0.spec_state() != ConnectionState::Handshaking {
        refused(s0, s1, r, ControlError::HelloAfterHandshake)
    } else {
        match fingerprint {
            None => refused(s0, s1, r, ControlError::MissingFingerprint),
            Some(f) => {
                let p = pending(s0.spec_pairing());
                if protocol_version != PROTOCOL_VERSION {
                    refused(
                        s0,
                        s1,
                        r,
                        ControlError::Pairing(
                            PairingError::ProtocolMismatch { peer: protocol_version, pc: PROTOCOL_VERSION },
                        ),
                    )
                } else if p is Some {
                    let (pending_id, pending_fingerprint, _) = p.unwrap();
                    refused(
                        s0,
                        s1,
                        r,
                        ControlError::Pairing(
                            if pending_id == device_id && pending_fingerprint == f@ {
                                PairingError::DuplicateHello
                            } else {
                                PairingError::OtherDevice
                            },
                        ),
                    )
                } else if trusted {
                    &&& replies_with(r, Seq::empty())
                    &&& s1.spec_pairing() is Trusted
                    &&& s1.spec_state() == ConnectionState::Connected
                } else {
                    &&& r matches Ok(step) && step.call is None && step.replies@.len() == 1
                        && is_challenge(step.replies@[0], device_id, f@, short_code_of(f@))
                    &&& pending(s1.spec_pairing()) == Some((device_id, f@, short_code_of(f@)))
                    &&& s1.spec_state() == ConnectionState::Handshaking
                }
            },
        }
    }
}

/// What a pairing confirmation does: it needs the connection's certificate
/// fingerprint; the pairing session checks device id, fingerprint and code;
/// on success the result is sent and the session is connected.
pub open spec fn confirm_step(
    s0: ControlSession,
    s1: ControlSession,
    device_id: Seq<char>,
    code: Seq<char>,
    peer_fingerprint: Option<String>,
    r: Result<ControlStep, ControlError>,
) -> bool {
    match peer_fingerprint {
        None => refused(s0, s1, r, ControlError::MissingPeerFingerprint),
        Some(f) => match pending(s0.spec_pairing()) {
            None => refused(s0, s1, r, ControlError::Pairing(PairingError::NotExpected)),
            Some(p) => if p.0 != device_id {
                refused(s0, s1, r, ControlError::Pairing(PairingError::DeviceMismatch))
            } else if p.1 != f@ {
                refused(s0, s1, r, ControlError::Pairing(PairingError::FingerprintMismatch))
            } else if p.2 != code {
                refused(s0, s1, r, ControlError::Pairing(PairingError::CodeMismatch))
            } else {
                &&& r matches Ok(step) && step.call is None && step.replies@.len() == 1
                    && is_paired_result(step.replies@[0], device_id)
                &&& s1.spec_pairing() is Trusted
                &&& s1.spec_state() == ConnectionState::Connected
            },
        },
    }
}

/// What any other message does: a Ping is answered with a Pong and a Pong is
/// taken silently; call messages go to the call backend, if the session has
/// one; every other message is let through with no reply. Everything but a
/// Pong is refused before the peer is trusted. The session is left as it was.
pub open spec fn message_step(
    s0: ControlSession,
    s1: ControlSession,
    m: Message,
    r: Result<ControlStep, ControlError>,
) -> bool {
    let trusted = s0.spec_state() == ConnectionState::Connected;
    &&& s1.spec_state() == s0.spec_state()
    &&& s1.spec_pairing() == s0.spec_pairing()
    &&& if m is Pong {
        replies_with(r, Seq::empty())
    } else if m is Ping {
        if trusted {
            replies_with(r, seq![ControlReply::Message(Message::Pong)])
        } else {
            r matches Err(ControlError::PingBeforePairing)
        }
    } else if is_call_message(m) {
        if !trusted {
            r matches Err(ControlError::CallBeforePairing)
        } else {
            match s0.spec_calls() {
                None => replies_with(r, Seq::empty()),
                Some(hfp) => call_step(hfp, m, r),
            }
        }
    } else if trusted {
        replies_with(r, Seq::empty())
    } else {
        r matches Err(ControlError::NotAllowedBeforePairing)
    }
}

/// One input handled `elapsed` nanoseconds after the last one: a session
/// silent for its whole limit has timed out and is left as it was; otherwise
/// the input is handled as its kind says. The call backend never changes.
pub open spec fn control_step(
    s0: ControlSession,
    s1: ControlSession,
    input: ControlInput,
    trusted: bool,
    peer_fingerprint: Option<String>,
    elapsed: u128,
    r: Result<ControlStep, ControlError>,
) -> bool {
    &&& s1.spec_calls() == s0.spec_calls()
    &&& if elapsed >= limit_of(s0.spec_state()) {
        refused(s0, s1, r, ControlError::TimedOut)
    } else {
        match input {
            ControlInput::Message(Message::Hello { device_id, protocol_version, cert_fingerprint, .. }) =>
                hello_step(s0, s1, device_id@, protocol_version, cert_fingerprint, trusted, r),
            ControlInput::PairConfirm { device_id, short_code } => confirm_step(
                s0,
                s1,
                device_id@,
                short_code@,
                peer_fingerprint,
                r,
            ),
            ControlInput::Message(m) => message_step(s0, s1, m, r),
        }
    }
}

/// The silence since the peer was last heard at `heard_at`, for a clock that
/// reads `reading`; both are counted from when the session opened.
pub open spec fn silence(reading: u128, heard_at: u128) -> u128 {
    if reading >= heard_at {
        (reading - heard_at) as u128
    } else {
        0
    }
}

/// One input handled with the clock reading `reading` (nanoseconds since the
/// session opened): it is handled as `control_step` says for the silence since
/// the peer was last heard, and unless the session timed out the peer now
/// counts as heard at `reading`; a timed-out session keeps its mark.
pub open spec fn heard_step(
    s0: ControlSession,
    s1: ControlSession,
    input: ControlInput,
    trusted: bool,
    peer_fingerprint: Option<String>,
    reading: u128,
    r: Result<ControlStep, ControlError>,
) -> bool {
    &&& is_duration_length(reading as nat)
    &&& control_step(s0, s1, input, trusted, peer_fingerprint, silence(reading, s0.spec_heard_at()), r)
    &&& s1.spec_opened() == s0.spec_opened()
    &&& if r matches Err(ControlError::TimedOut) {
        s1.spec_heard_at() == s0.spec_heard_at()
    } else {
        s1.spec_heard_at() == reading
    }
}

/// A control session: its connection state, its pairing, the HFP backend that
/// carries out call commands (none: call messages are only checked), when it
/// opened, and how long after that the peer was last heard from.
pub struct ControlSession {
    state: ConnectionState,
    pairing: PairingSession,
    calls: Option<HostHfpBackend>,
    opened: Instant,
    heard_at: u128,
}

impl ControlSession {
    pub closed spec fn spec_state(&self) -> ConnectionState {
        self.state
    }

    pub closed spec fn spec_pairing(&self) -> PairingState {
        self.pairing.spec_state()
    }

    pub closed spec fn spec_calls(&self) -> Option<HostHfpBackend> {
        self.calls
    }

    /// When the session opened.
    pub closed spec fn spec_opened(&self) -> Instant {
        self.opened
    }

    /// How long after the session opened the peer was last heard from, in
    /// nanoseconds.
    pub closed spec fn spec_heard_at(&self) -> u128 {
        self.heard_at
    }

    /// A new session, handshaking, with no pairing under way and no call
    /// backend; it opens now, and counts as active from its opening.
    pub fn new() -> (r: Self)
        ensures
            r.spec_state() == ConnectionState::Handshaking,
            r.spec_pairing() is AwaitingHello,
            r.spec_calls() is None,
            r.spec_heard_at() == 0,
    {
        ControlSession {
            state: ConnectionState::Handshaking,
            pairing: PairingSession::new(),
            calls: None,
            opened: now(),
            heard_at: 0,
        }
    }

    /// The session with `hfp` to carry out its call commands (for the host,
    /// `create_backend` makes it).
    pub fn with_calls(self, hfp: HostHfpBackend) -> (r: Self)
        ensures
            r.spec_state() == self.spec_state(),
            r.spec_pairing() == self.spec_pairing(),
            r.spec_calls() == Some(hfp),
            r.spec_opened() == self.spec_opened(),
            r.spec_heard_at() == self.spec_heard_at(),
    {
        let mut s = self;
        s.calls = Some(hfp);
        s
    }

    pub fn state(&self) -> (r: &ConnectionState)
        ensures
            *r == self.spec_state(),
    {
        &self.state
    }

    pub fn pairing(&self) -> (r: &PairingSession)
        ensures
            r.spec_state() == self.spec_pairing(),
    {
        &self.pairing
    }

    /// Whether the peer is trusted.
    pub fn is_authenticated(&self) -> (r: bool)
        ensures
            r == (self.spec_state() == ConnectionState::Connected),
    {
        self.state == ConnectionState::Connected
    }

    /// Nanoseconds left before the session times out, `elapsed_nanos` after
    /// the peer was last heard from; zero once it has.
    pub fn timeout_after(&self, elapsed_nanos: u128) -> (r: u128)
        ensures
            r == time_left(self.spec_state(), elapsed_nanos),
    {
        let limit = if self.state == ConnectionState::Connected {
            IDLE_TIMEOUT_NANOS
        } else {
            HANDSHAKE_TIMEOUT_NANOS
        };
        limit.saturating_sub(elapsed_nanos)
    }

    /// Whether the session has timed out, `elapsed_nanos` after the peer was
    /// last heard from.
    pub fn is_expired_after(&self, elapsed_nanos: u128) -> (r: bool)
        ensures
            r == timed_out(self.spec_state(), elapsed_nanos),
    {
        self.timeout_after(elapsed_nanos) == 0
    }

    /// What is left of the session's limit now, as the clock reads the time
    /// since the peer was last heard from.
    pub fn timeout(&self) -> (r: Duration)
        ensures
            exists|elapsed: u128| duration_length(r) == #[trigger] time_left(self.spec_state(), elapsed),
            exists|reading: u128|
                is_duration_length(reading as nat) && duration_length(r) == #[trigger] time_left(
                    self.spec_state(),
                    silence(reading, self.spec_heard_at()),
                ),
    {
        let t = elapsed_nanos(&self.opened);
        let e = t.saturating_sub(self.heard_at);
        let left = self.timeout_after(e);
        assert(left <= max_duration_nanos());
        let r = duration_of_nanos(left);
        assert(duration_length(r) == time_left(self.spec_state(), e));
        assert(is_duration_length(t as nat) && duration_length(r) == time_left(
            self.spec_state(),
            silence(t, self.spec_heard_at()),
        ));
        r
    }

    /// Whether the session has timed out by now, as the clock reads the time
    /// since the peer was last heard from.
    pub fn is_expired(&self) -> (r: bool)
        ensures
            exists|elapsed: u128| r == #[trigger] timed_out(self.spec_state(), elapsed),
            exists|reading: u128|
                is_duration_length(reading as nat) && r == #[trigger] timed_out(
                    self.spec_state(),
                    silence(reading, self.spec_heard_at()),
                ),
    {
        let t = elapsed_nanos(&self.opened);
        let e = t.saturating_sub(self.heard_at);
        let r = self.is_expired_after(e);
        assert(r == timed_out(self.spec_state(), e));
        assert(is_duration_length(t as nat) && r == timed_out(self.spec_state(), silence(t, self.spec_heard_at())));
        r
    }

    /// Handles one input, `elapsed_nanos` after the peer was last heard from
    /// (see `control_step`). `trusted` says whether the peer's certificate is
    /// already trusted; `peer_fingerprint` is the fingerprint of the
    /// certificate the peer presented on this connection, where known.
    pub fn handle_after(
        &mut self,
        input: ControlInput,
        trusted: bool,
        peer_fingerprint: Option<String>,
        elapsed_nanos: u128,
    ) -> (r: Result<ControlStep, ControlError>)
        requires
            has_code_if_hello(input),
        ensures
            control_step(*old(self), *final(self), input, trusted, peer_fingerprint, elapsed_nanos, r),
            r matches Err(ControlError::TimedOut) ==> *final(self) == *old(self),
            final(self).spec_opened() == old(self).spec_opened(),
            final(self).spec_heard_at() == old(self).spec_heard_at(),
    {
        if self.is_expired_after(elapsed_nanos) {
            return Err(ControlError::TimedOut);
        }
        match input {
            ControlInput::Message(Message::Hello { device_id, protocol_version, cert_fingerprint, .. }) => {
                if self.state != ConnectionState::Handshaking {
                    return Err(ControlError::HelloAfterHandshake);
                }
                let fingerprint = match cert_fingerprint {
                    Some(f) => f,
                    None => {
                        return Err(ControlError::MissingFingerprint);
                    },
                };
                let code = short_code(fingerprint.as_str());
                match self.pairing.accept_hello(device_id, fingerprint, protocol_version, trusted, code) {
                    Err(e) => Err(ControlError::Pairing(e)),
                    Ok(challenge) => {
                        let mut replies: Vec<ControlReply> = Vec::new();
                        match challenge {
                            Some(c) => replies.push(ControlReply::Pairing(c)),
                            None => {},
                        }
                        let now_trusted = match self.pairing.state() {
                            PairingState::Trusted => true,
                            _ => false,
                        };
                        self.state = if trusted || now_trusted {
                            ConnectionState::Connected
                        } else {
                            ConnectionState::Handshaking
                        };
                        Ok(ControlStep { replies, call: None })
                    },
                }
            },
            ControlInput::PairConfirm { device_id, short_code } => {
                let fingerprint = match peer_fingerprint {
                    Some(f) => f,
                    None => {
                        return Err(ControlError::MissingPeerFingerprint);
                    },
                };
                match self.pairing.confirm(device_id.as_str(), fingerprint.as_str(), short_code.as_str()) {
                    Err(e) => Err(ControlError::Pairing(e)),
                    Ok(result) => {
                        let paired = match &result {
                            PairingMessage::PairResult { trusted: true, .. } => true,
                            _ => false,
                        };
                        if paired {
                            self.state = ConnectionState::Connected;
                        }
                        let mut replies: Vec<ControlReply> = Vec::new();
                        replies.push(ControlReply::Pairing(result));
                        Ok(ControlStep { replies, call: None })
                    },
                }
            },
            ControlInput::Message(message) => self.handle_message(message),
        }
    }

    /// A message other than Hello, within the session's limit.
    fn handle_message(&self, message: Message) -> (r: Result<ControlStep, ControlError>)
        ensures
            message_step(*self, *self, message, r),
    {
        let authenticated = self.is_authenticated();
        match message {
            Message::Pong => Ok(ControlStep { replies: Vec::new(), call: None }),
            Message::Ping => {
                if !authenticated {
                    return Err(ControlError::PingBeforePairing);
                }
                let mut replies: Vec<ControlReply> = Vec::new();
                replies.push(ControlReply::Message(Message::Pong));
                Ok(ControlStep { replies, call: None })
            },
            Message::IncomingCall { .. }
            | Message::CallAnswer
            | Message::CallDecline
            | Message::CallEnded
            | Message::PhoneBluetoothStatus { .. } => {
                if !authenticated {
                    return Err(ControlError::CallBeforePairing);
                }
                match &self.calls {
                    None => Ok(ControlStep { replies: Vec::new(), call: None }),
                    Some(hfp) => match call_transition(hfp, &message) {
                        Err(e) => Err(ControlError::Call(e)),
                        Ok((call, reply)) => {
                            let mut replies: Vec<ControlReply> = Vec::new();
                            match reply {
                                Some(m) => replies.push(ControlReply::Message(m)),
                                None => {},
                            }
                            Ok(ControlStep { replies, call })
                        },
                    },
                }
            },
            _ => {
                if !authenticated {
                    return Err(ControlError::NotAllowedBeforePairing);
                }
                Ok(ControlStep { replies: Vec::new(), call: None })
            },
        }
    }

    /// Handles one input now: the time since the peer was last heard from is
    /// read from the clock, the input is handled as `handle_after` does for
    /// that time, and unless the session has timed out the peer now counts as
    /// heard from.
    pub fn handle_with_peer(&mut self, input: ControlInput, trusted: bool, peer_fingerprint: Option<String>) -> (r: Result<
        ControlStep,
        ControlError,
    >)
        requires
            has_code_if_hello(input),
        ensures
            exists|elapsed: u128|
                control_step(*old(self), *final(self), input, trusted, peer_fingerprint, elapsed, r),
            r matches Err(ControlError::TimedOut) ==> *final(self) == *old(self),
            exists|reading: u128|
                #[trigger] heard_step(*old(self), *final(self), input, trusted, peer_fingerprint, reading, r),
    {
        let ghost before = *self;
        let ghost taken = input;
        let ghost peer = peer_fingerprint;
        let t = elapsed_nanos(&self.opened);
        let e = t.saturating_sub(self.heard_at);
        let r = self.handle_after(input, trusted, peer_fingerprint, e);
        let ghost handled = *self;
        match r {
            Err(ControlError::TimedOut) => {},
            _ => {
                self.heard_at = t;
            },
        }
        assert(control_step(before, handled, taken, trusted, peer, e, r));
        assert(control_step(before, *self, taken, trusted, peer, e, r));
        assert(heard_step(before, *self, taken, trusted, peer, t, r));
        r
    }

    /// `handle_with_peer` on a connection whose certificate fingerprint is
    /// not known.
    pub fn handle(&mut self, input: ControlInput, trusted: bool) -> (r: Result<ControlStep, ControlError>)
        requires
            has_code_if_hello(input),
        ensures
            exists|elapsed: u128| control_step(*old(self), *final(self), input, trusted, None, elapsed, r),
            r matches Err(ControlError::TimedOut) ==> *final(self) == *old(self),
            exists|reading: u128| #[trigger] heard_step(*old(self), *final(self), input, trusted, None, reading, r),
    {
        self.handle_with_peer(input, trusted, None)
    }

    /// Takes one input from the wire: an input that the session cannot take (a
    /// Hello whose fingerprint has no pairing code) is answered with `None`
    /// and leaves the session as it was; any other is handled now, as
    /// `handle_with_peer` does.
    pub fn receive(&mut self, input: ControlInput, trusted: bool, peer_fingerprint: Option<String>) -> (r: Option<
        Result<ControlStep, ControlError>,
    >)
        ensures
            !has_code_if_hello(input) ==> r is None && *final(self) == *old(self),
            has_code_if_hello(input) ==> (r matches Some(x) && exists|elapsed: u128|
                control_step(*old(self), *final(self), input, trusted, peer_fingerprint, elapsed, x)),
            r matches Some(Err(ControlError::TimedOut)) ==> *final(self) == *old(self),
            has_code_if_hello(input) ==> (r matches Some(x) && exists|reading: u128|
                #[trigger] heard_step(*old(self), *final(self), input, trusted, peer_fingerprint, reading, x)),
    {
        let takes = match &input {
            ControlInput::Message(Message::Hello { cert_fingerprint: Some(f), .. }) => try_short_code(
                f.as_str(),
            ).is_some(),
            _ => true,
        };
        if !takes {
            return None;
        }
        Some(self.handle_with_peer(input, trusted, peer_fingerprint))
    }
}

impl Default for ControlSession {
    fn default() -> (r: Self)
        ensures
            r.spec_state() == ConnectionState::Handshaking,
            r.spec_pairing() is AwaitingHello,
            r.spec_calls() is None,
            r.spec_heard_at() == 0,
    {
        ControlSession::new()
    }
}

/// Before the peer is trusted, every message but a Hello and a Pong is
/// refused, and the refusal leaves the session as it was.
pub proof fn untrusted_session_refuses(
    s0: ControlSession,
    s1: ControlSession,
    m: Message,
    trusted: bool,
    peer_fingerprint: Option<String>,
    elapsed: u128,
    r: Result<ControlStep, ControlError>,
)
    requires
        s0.spec_state() != ConnectionState::Connected,
        !(m is Hello),
        !(m is Pong),
        control_step(s0, s1, ControlInput::Message(m), trusted, peer_fingerprint, elapsed, r),
    ensures
        r is Err,
        s1.spec_state() == s0.spec_state(),
        s1.spec_pairing() == s0.spec_pairing(),
{
}

/// A session silent for its whole limit refuses every input as timed out and
/// is left as it was.
pub proof fn silent_session_times_out(
    s0: ControlSession,
    s1: ControlSession,
    input: ControlInput,
    trusted: bool,
    peer_fingerprint: Option<String>,
    elapsed: u128,
    r: Result<ControlStep, ControlError>,
)
    requires
        elapsed >= limit_of(s0.spec_state()),
        control_step(s0, s1, input, trusted, peer_fingerprint, elapsed, r),
    ensures
        r matches Err(ControlError::TimedOut),
        s1.spec_state() == s0.spec_state(),
        s1.spec_pairing() == s0.spec_pairing(),
{
}

/// A session becomes connected only by a Hello from a peer whose certificate
/// is trusted, or by a pairing confirmation that matches the pending
/// challenge; either way the pairing is then trusted.
pub proof fn connects_only_when_trusted(
    s0: ControlSession,
    s1: ControlSession,
    input: ControlInput,
    trusted: bool,
    peer_fingerprint: Option<String>,
    elapsed: u128,
    r: Result<ControlStep, ControlError>,
)
    requires
        s0.spec_state() != ConnectionState::Connected,
        s1.spec_state() == ConnectionState::Connected,
        control_step(s0, s1, input, trusted, peer_fingerprint, elapsed, r),
    ensures
        r is Ok,
        s1.spec_pairing() is Trusted,
        (input matches ControlInput::Message(Message::Hello { .. }) && trusted) || (
        input is PairConfirm && pending(s0.spec_pairing()) is Some),
{
}

/// Each input that does not time out marks the peer as heard: the next input,
/// read at most the limit later, cannot time out, however long the session has
/// been open.
pub proof fn hearing_the_peer_restarts_the_limit(
    s0: ControlSession,
    s1: ControlSession,
    s2: ControlSession,
    first: ControlInput,
    second: ControlInput,
    trusted: bool,
    peer_fingerprint: Option<String>,
    first_reading: u128,
    second_reading: u128,
    r1: Result<ControlStep, ControlError>,
    r2: Result<ControlStep, ControlError>,
)
    requires
        heard_step(s0, s1, first, trusted, peer_fingerprint, first_reading, r1),
        !(r1 matches Err(ControlError::TimedOut)),
        heard_step(s1, s2, second, trusted, peer_fingerprint, second_reading, r2),
        first_reading <= second_reading,
        second_reading - first_reading < limit_of(s1.spec_state()),
    ensures
        !(r2 matches Err(ControlError::TimedOut)),
        s2.spec_heard_at() == second_reading,
{
    assert(s1.spec_heard_at() == first_reading);
    assert(silence(second_reading, s1.spec_heard_at()) == second_reading - first_reading);
    if r2 matches Err(ControlError::TimedOut) {
        assert(timed_out(s1.spec_state(), silence(second_reading, s1.spec_heard_at())));
    }
}

/// An input read the limit or more after the peer was last heard times out,
/// and leaves the mark where it was.
pub proof fn silence_past_the_limit_times_out(
    s0: ControlSession,
    s1: ControlSession,
    input: ControlInput,
    trusted: bool,
    peer_fingerprint: Option<String>,
    reading: u128,
    r: Result<ControlStep, ControlError>,
)
    requires
        heard_step(s0, s1, input, trusted, peer_fingerprint, reading, r),
        reading >= s0.spec_heard_at() + limit_of(s0.spec_state()),
    ensures
        r matches Err(ControlError::TimedOut),
        s1.spec_heard_at() == s0.spec_heard_at(),
        s1.spec_state() == s0.spec_state(),
{
}

} // verus!
