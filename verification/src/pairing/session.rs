//! Protocol-level pairing state, independent from the platform layer.
use crate::protocol::PROTOCOL_VERSION;
use vstd::prelude::*;

verus! {

pub enum PairingState {
    AwaitingHello,
    AwaitingConfirmation { device_id: String, fingerprint: String, code: String },
    Trusted,
}

/// Pairing messages the PC sends.
pub enum PairingMessage {
    /// Asks the user to confirm the pairing code shown on both devices.
    PairChallenge { device_id: String, fingerprint: String, short_code: String },
    /// The outcome of a confirmation.
    PairResult { device_id: String, trusted: bool, message: String },
}

/// Why a pairing step was refused.
#[derive(Debug, Clone, Copy, PartialEq, Eq, Structural)]
pub enum PairingError {
    /// The peer speaks another protocol version.
    ProtocolMismatch { peer: u32, pc: u32 },
    /// The same device said Hello again while its confirmation is pending.
    DuplicateHello,
    /// A confirmation for another device is pending.
    OtherDevice,
    /// No confirmation is pending.
    NotExpected,
    DeviceMismatch,
    FingerprintMismatch,
    CodeMismatch,
}

/// The pending confirmation of a state, as plain values.
pub open spec fn pending(s: PairingState) -> Option<(Seq<char>, Seq<char>, Seq<char>)> {
    match s {
        PairingState::AwaitingConfirmation { device_id, fingerprint, code } => Some(
            (device_id@, fingerprint@, code@),
        ),
        _ => None,
    }
}

pub struct PairingSession {
    state: PairingState,
}

impl PairingSession {
    pub closed spec fn spec_state(&self) -> PairingState {
        self.state
    }

    pub fn new() -> (r: Self)
        ensures
            r.spec_state() is AwaitingHello,
    {
        PairingSession { state: PairingState::AwaitingHello }
    }

    pub fn state(&self) -> (r: &PairingState)
        ensures
            *r == self.spec_state(),
    {
        &self.state
    }

    /// A Hello from a peer. A peer on another protocol version is refused. A
    /// trusted peer is let in at once. While a confirmation is pending, a
    /// second Hello is refused, from the same device or from another. An
    /// untrusted peer otherwise gets a pairing challenge with the code to show.
    pub fn accept_hello(
        &mut self,
        device_id: String,
        fingerprint: String,
        protocol_version: u32,
        trusted: bool,
        challenge_code: String,
    ) -> (r: Result<Option<PairingMessage>, PairingError>)
        ensures
            protocol_version != PROTOCOL_VERSION ==> {
                &&& r == Err::<Option<PairingMessage>, PairingError>(
                    PairingError::ProtocolMismatch { peer: protocol_version, pc: PROTOCOL_VERSION },
                )
                &&& final(self).spec_state() == old(self).spec_state()
            },
            protocol_version == PROTOCOL_VERSION && pending(old(self).spec_state()) is Some ==> {
                let p = pending(old(self).spec_state())->0;
                &&& r == Err::<Option<PairingMessage>, PairingError>(
                    if p.0 == device_id@ && p.1 == fingerprint@ {
                        PairingError::DuplicateHello
                    } else {
                        PairingError::OtherDevice
                    },
                )
                &&& final(self).spec_state() == old(self).spec_state()
            },
            protocol_version == PROTOCOL_VERSION && pending(old(self).spec_state()) is None
                && trusted ==> {
                &&& r matches Ok(None)
                &&& final(self).spec_state() is Trusted
            },
            protocol_version == PROTOCOL_VERSION && pending(old(self).spec_state()) is None
                && !trusted ==> {
                &&& r matches Ok(Some(PairingMessage::PairChallenge { device_id: d, fingerprint: f, short_code: c }))
                    && d@ == device_id@ && f@ == fingerprint@ && c@ == challenge_code@
                &&& pending(final(self).spec_state()) == Some(
                    (device_id@, fingerprint@, challenge_code@),
                )
            },
    {
        if protocol_version != PROTOCOL_VERSION {
            return Err(PairingError::ProtocolMismatch { peer: protocol_version, pc: PROTOCOL_VERSION });
        }
        match &self.state {
            PairingState::Trusted => {
                if trusted {
                    return Ok(None);
                }
            },
            PairingState::AwaitingConfirmation { device_id: old_id, fingerprint: old_fp, .. } => {
                if *old_id == device_id && *old_fp == fingerprint {
                    return Err(PairingError::DuplicateHello);
                }
                return Err(PairingError::OtherDevice);
            },
            PairingState::AwaitingHello => {},
        }
        if trusted {
            self.state = PairingState::Trusted;
            return Ok(None);
        }
        self.state = PairingState::AwaitingConfirmation {
            device_id: device_id.clone(),
            fingerprint: fingerprint.clone(),
            code: challenge_code.clone(),
        };
        Ok(Some(PairingMessage::PairChallenge { device_id, fingerprint, short_code: challenge_code }))
    }

    /// The peer confirms the pending pairing with its device id, certificate
    /// fingerprint and the code the user saw. All three must match what the
    /// challenge was issued for; then the peer is trusted.
    pub fn confirm(&mut self, device_id: &str, fingerprint: &str, code: &str) -> (r: Result<PairingMessage, PairingError>)
        ensures
            pending(old(self).spec_state()) is None ==> {
                &&& r == Err::<PairingMessage, PairingError>(PairingError::NotExpected)
                &&& final(self).spec_state() == old(self).spec_state()
            },
            pending(old(self).spec_state()) is Some ==> {
                let p = pending(old(self).spec_state())->0;
                if p.0 != device_id@ {
                    &&& r == Err::<PairingMessage, PairingError>(PairingError::DeviceMismatch)
                    &&& final(self).spec_state() == old(self).spec_state()
                } else if p.1 != fingerprint@ {
                    &&& r == Err::<PairingMessage, PairingError>(PairingError::FingerprintMismatch)
                    &&& final(self).spec_state() == old(self).spec_state()
                } else if p.2 != code@ {
                    &&& r == Err::<PairingMessage, PairingError>(PairingError::CodeMismatch)
                    &&& final(self).spec_state() == old(self).spec_state()
                } else {
                    &&& r matches Ok(PairingMessage::PairResult { device_id: d, trusted: true, message: m })
                        && d@ == device_id@ && m@ == "device paired successfully"@
                    &&& final(self).spec_state() is Trusted
                }
            },
    {
        match &self.state {
            PairingState::AwaitingConfirmation {
                device_id: expected_id,
                fingerprint: expected_fp,
                code: expected_code,
            } => {
                if expected_id.as_str().to_owned() != device_id.to_owned() {
                    return Err(PairingError::DeviceMismatch);
                }
                if expected_fp.as_str().to_owned() != fingerprint.to_owned() {
                    return Err(PairingError::FingerprintMismatch);
                }
                if expected_code.as_str().to_owned() != code.to_owned() {
                    return Err(PairingError::CodeMismatch);
                }
            },
            _ => {
                return Err(PairingError::NotExpected);
            },
        }
        self.state = PairingState::Trusted;
        Ok(
            PairingMessage::PairResult {
                device_id: device_id.to_owned(),
                trusted: true,
                message: String::from_str("device paired successfully"),
            },
        )
    }
}

impl Default for PairingSession {
    fn default() -> (r: Self)
        ensures
            r.spec_state() is AwaitingHello,
    {
        PairingSession::new()
    }
}

} // verus!
