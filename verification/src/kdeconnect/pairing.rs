//! UI-independent KDE Connect pairing state machine.
//!
//! It mirrors the protocol rule that devices must be paired before normal
//! packets are accepted. Network and TLS code drive it from outside.
use super::packet::{copy_identity, identity_view, IdentityPacket, Packet, PacketBody, PairPacket, pair_type};
use crate::connection::timeout::{duration_length, is_duration_length};
use std::time::{Duration, SystemTime, UNIX_EPOCH};
use vstd::prelude::*;

verus! {

/// Lowest KDE Connect protocol version this PC pairs with.
pub const MIN_PROTOCOL_VERSION: u8 = 7;

#[derive(Debug, Clone, Copy, PartialEq, Eq, Structural)]
pub enum PairingState {
    Idle,
    IncomingRequest,
    AwaitingRemote,
    Paired,
    Rejected,
}

#[derive(Debug, Clone, Copy, PartialEq, Eq, Structural)]
pub enum PairingDecision {
    Accept,
    Reject,
}

pub enum PairingEvent {
    Request { identity: IdentityPacket },
    Accepted { peer_id: String },
    Rejected { peer_id: String },
    Error(String),
}

pub struct PairingSession {
    pub state: PairingState,
    pub peer: Option<IdentityPacket>,
}

impl Default for PairingSession {
    fn default() -> (r: Self)
        ensures
            r.state == PairingState::Idle,
            r.peer is None,
    {
        PairingSession { state: PairingState::Idle, peer: None }
    }
}

/// `SystemTime::now`: the wall clock. Nothing is claimed of the result.
#[verifier::external_body]
fn system_now() -> (r: SystemTime) {
    SystemTime::now()
}

/// `SystemTime::duration_since(UNIX_EPOCH)`: the time since the Unix epoch,
/// `None` when `t` is before it. `SystemTime` and `Duration` are opaque here,
/// so nothing is claimed of the result.
#[verifier::external_body]
fn since_unix_epoch(t: &SystemTime) -> (r: Option<Duration>) {
    t.duration_since(UNIX_EPOCH).ok()
}

/// `Duration::as_secs`: "the number of whole seconds contained by this
/// `Duration`", that is its length in nanoseconds divided by 10^9, rounded down.
#[verifier::external_body]
fn duration_secs(d: &Duration) -> (r: u64)
    ensures
        r == duration_length(*d) / 1_000_000_000,
{
    d.as_secs()
}

/// The Unix time, in whole seconds, of a clock reading `since_epoch`
/// nanoseconds after the Unix epoch.
pub open spec fn unix_seconds_of(since_epoch: nat) -> i64 {
    (since_epoch / 1_000_000_000) as i64
}

/// A time stamp counts the whole seconds of the reading: it is the one whole
/// number of seconds `t` with `t` seconds at most the reading and `t + 1`
/// seconds beyond it (for readings whose seconds fit in an `i64`).
pub proof fn unix_time_counts_whole_seconds(since_epoch: nat)
    requires
        since_epoch < 9223372036854775808 * 1_000_000_000,
    ensures
        unix_seconds_of(since_epoch) >= 0,
        unix_seconds_of(since_epoch) * 1_000_000_000 <= since_epoch,
        since_epoch < (unix_seconds_of(since_epoch) + 1) * 1_000_000_000,
{
    let q = since_epoch / 1_000_000_000;
    assert(q < 9223372036854775808) by (nonlinear_arith)
        requires
            since_epoch < 9223372036854775808 * 1_000_000_000,
            q == since_epoch / 1_000_000_000,
    ;
    assert(q * 1_000_000_000 <= since_epoch < (q + 1) * 1_000_000_000) by (nonlinear_arith)
        requires
            q == since_epoch / 1_000_000_000,
    ;
}

/// Whether `t` is a time stamp that the clock can give: the whole seconds of
/// some time since the Unix epoch, or 0 for a clock set before the epoch.
pub open spec fn is_unix_time(t: i64) -> bool {
    t == 0 || exists|since_epoch: nat|
        is_duration_length(since_epoch) && t == #[trigger] unix_seconds_of(since_epoch)
}

/// A pair request stamped with a time that the clock can give.
pub open spec fn stamped_now(p: PairPacket) -> bool {
    p.timestamp matches Some(t) && is_unix_time(t)
}

/// The current time as whole seconds since the Unix epoch, 0 when the clock is
/// set before the epoch.
fn unix_seconds() -> (r: i64)
    ensures
        is_unix_time(r),
{
    match since_unix_epoch(&system_now()) {
        Some(duration) => {
            let secs = duration_secs(&duration);
            #[verifier::truncate]
            let signed = secs as i64;
            assert(is_duration_length(duration_length(duration)));
            assert(signed == unix_seconds_of(duration_length(duration)));
            signed
        },
        None => 0,
    }
}

impl PairingSession {
    /// A peer announced itself. Peers older than protocol version 7 are turned
    /// away and leave the session as it was; otherwise the peer is remembered
    /// and its request awaits a decision.
    pub fn receive_identity(&mut self, identity: IdentityPacket) -> (r: Result<PairingEvent, String>)
        ensures
            identity.protocol_version < MIN_PROTOCOL_VERSION ==> {
                &&& r matches Err(e) && e@ == "unsupported KDE Connect protocol version"@
                &&& final(self).state == old(self).state
                &&& final(self).peer == old(self).peer
            },
            identity.protocol_version >= MIN_PROTOCOL_VERSION ==> {
                &&& r matches Ok(PairingEvent::Request { identity: id }) && identity_view(id)
                    == identity_view(identity)
                &&& final(self).state == PairingState::IncomingRequest
                &&& final(self).peer matches Some(p) && identity_view(p) == identity_view(identity)
            },
    {
        if identity.protocol_version < MIN_PROTOCOL_VERSION {
            return Err(String::from_str("unsupported KDE Connect protocol version"));
        }
        self.peer = Some(copy_identity(&identity));
        self.state = PairingState::IncomingRequest;
        Ok(PairingEvent::Request { identity })
    }

    /// Asks the peer to pair, stamped with `timestamp`, and waits for its answer.
    pub fn make_pair_request_at(&mut self, timestamp: i64) -> (r: Packet)
        ensures
            final(self).state == PairingState::AwaitingRemote,
            final(self).peer == old(self).peer,
            r.id == 0,
            r.packet_type@ == pair_type(),
            r.body == (PacketBody::Pair(PairPacket { pair: true, timestamp: Some(timestamp) })),
    {
        self.state = PairingState::AwaitingRemote;
        Packet::pair_request(0, timestamp)
    }

    /// Asks the peer to pair, stamped with the current time, and waits for its answer.
    pub fn make_pair_request(&mut self) -> (r: Packet)
        ensures
            final(self).state == PairingState::AwaitingRemote,
            final(self).peer == old(self).peer,
            r.id == 0,
            r.packet_type@ == pair_type(),
            r.body matches PacketBody::Pair(p) && p.pair && p.timestamp is Some,
            r.body matches PacketBody::Pair(p) ==> stamped_now(p),
    {
        let now = unix_seconds();
        self.make_pair_request_at(now)
    }

    /// The user's decision on the pending request: the packet to send to the
    /// peer and the event to show. Without a known peer nothing is decided.
    pub fn decide(&mut self, decision: PairingDecision) -> (r: Result<(Packet, PairingEvent), String>)
        ensures
            old(self).peer is None ==> {
                &&& r matches Err(e) && e@ == "cannot decide pairing without a peer identity"@
                &&& final(self).state == old(self).state
            },
            old(self).peer matches Some(p) ==> {
                let accepted = decision == PairingDecision::Accept;
                &&& r matches Ok((packet, event)) && packet.id == 0 && packet.packet_type@
                    == pair_type() && packet.body == (PacketBody::Pair(
                    PairPacket { pair: accepted, timestamp: None },
                )) && (if accepted {
                    event matches PairingEvent::Accepted { peer_id } && peer_id@ == p.device_id@
                } else {
                    event matches PairingEvent::Rejected { peer_id } && peer_id@ == p.device_id@
                })
                &&& final(self).state == (if accepted {
                    PairingState::Paired
                } else {
                    PairingState::Rejected
                })
            },
            final(self).peer == old(self).peer,
    {
        let peer_id = match &self.peer {
            Some(p) => p.device_id.clone(),
            None => {
                return Err(String::from_str("cannot decide pairing without a peer identity"));
            },
        };
        match decision {
            PairingDecision::Accept => {
                self.state = PairingState::Paired;
                Ok((Packet::pair_response(0, true), PairingEvent::Accepted { peer_id }))
            },
            PairingDecision::Reject => {
                self.state = PairingState::Rejected;
                Ok((Packet::pair_response(0, false), PairingEvent::Rejected { peer_id }))
            },
        }
    }

    /// Normal packets are accepted only once paired.
    pub fn is_authenticated(&self) -> (r: bool)
        ensures
            r == (self.state == PairingState::Paired),
    {
        self.state == PairingState::Paired
    }
}

} // verus!
