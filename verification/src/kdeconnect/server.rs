//! Decisions of the framed TCP pairing listener of the KDE Connect path.
//!
//! The listener speaks KDE Connect's length-prefixed JSON framing and pairing
//! handshake; TLS certificate authentication is the next transport step. The
//! sockets and the user interface are driven by the caller.
use super::packet::{identity_type, pair_type, IdentityPacket, Packet, PacketBody, PairError};
use vstd::prelude::*;

verus! {

pub const DEFAULT_PAIRING_PORT: u16 = 1716;

/// Largest packet accepted on this path.
pub const MAX_PACKET_SIZE: usize = 1048576;

fn capability(name: &str) -> (r: Vec<String>)
    ensures
        r@.map_values(|s: String| s@) == seq![name@],
{
    let mut v: Vec<String> = Vec::new();
    v.push(name.to_owned());
    assert(v@.map_values(|s: String| s@) =~= seq![name@]);
    v
}

/// The identity this listener announces: a placeholder desktop identity with
/// the ping capability, protocol version 8.
pub fn local_identity() -> (r: IdentityPacket)
    ensures
        r.device_id@ == "phonebridge0000000000000000000000"@,
        r.device_name@ == "PhoneBridge PC"@,
        r.device_type@ == "desktop"@,
        r.incoming_capabilities@.map_values(|s: String| s@) == seq!["kdeconnect.ping"@],
        r.outgoing_capabilities@.map_values(|s: String| s@) == seq!["kdeconnect.ping"@],
        r.protocol_version == 8,
        r.transport_fields@.len() == 0,
{
    IdentityPacket {
        device_id: String::from_str("phonebridge0000000000000000000000"),
        device_name: String::from_str("PhoneBridge PC"),
        device_type: String::from_str("desktop"),
        incoming_capabilities: capability("kdeconnect.ping"),
        outgoing_capabilities: capability("kdeconnect.ping"),
        protocol_version: 8,
        transport_fields: Vec::new(),
    }
}

/// A placeholder identity for a pair request that arrives before any identity
/// packet; no device metadata is invented.
pub fn identity_from_peer_hint() -> (r: IdentityPacket)
    ensures
        r.device_id@ == "unknown"@,
        r.device_name@ == "Unknown device"@,
        r.device_type@ == "phone"@,
        r.incoming_capabilities@.len() == 0,
        r.outgoing_capabilities@.len() == 0,
        r.protocol_version == 8,
        r.transport_fields@.len() == 0,
{
    IdentityPacket {
        device_id: String::from_str("unknown"),
        device_name: String::from_str("Unknown device"),
        device_type: String::from_str("phone"),
        incoming_capabilities: Vec::new(),
        outgoing_capabilities: Vec::new(),
        protocol_version: 8,
        transport_fields: Vec::new(),
    }
}

/// What the listener does with a packet before pairing.
pub enum PairingStep {
    /// Ask the user whether to pair with this device.
    AskUser(IdentityPacket),
    /// Nothing: before pairing, non-core packets are ignored.
    Ignore,
}

/// Why the connection is closed.
#[derive(Debug, Clone, Copy, PartialEq, Eq, Structural)]
pub enum StepError {
    /// A `kdeconnect.identity` packet whose body is not an identity.
    InvalidIdentity,
    /// A `kdeconnect.pair` packet whose body is not a pair body.
    InvalidPair,
}

/// An identity packet asks the user about that device; a pair packet that asks
/// to pair asks the user about an unknown device; anything else is ignored.
pub fn step_for(packet: Packet) -> (r: Result<PairingStep, StepError>)
    ensures
        packet.packet_type@ == identity_type() ==> match packet.body {
            PacketBody::Identity(id) => r == Ok::<PairingStep, StepError>(PairingStep::AskUser(id)),
            _ => r == Err::<PairingStep, StepError>(StepError::InvalidIdentity),
        },
        packet.packet_type@ == pair_type() ==> match packet.body {
            PacketBody::Pair(p) => if p.pair {
                r matches Ok(PairingStep::AskUser(id)) && id.device_id@ == "unknown"@
            } else {
                r matches Ok(PairingStep::Ignore)
            },
            _ => r == Err::<PairingStep, StepError>(StepError::InvalidPair),
        },
        packet.packet_type@ != identity_type() && packet.packet_type@ != pair_type() ==> r matches Ok(
            PairingStep::Ignore,
        ),
{
    proof {
        reveal_strlit("kdeconnect.identity");
        reveal_strlit("kdeconnect.pair");
        assert(identity_type() != pair_type()) by {
            assert(identity_type().len() != pair_type().len());
        }
    }
    let identity = String::from_str("kdeconnect.identity");
    if packet.packet_type == identity {
        return match packet.body {
            PacketBody::Identity(id) => Ok(PairingStep::AskUser(id)),
            _ => Err(StepError::InvalidIdentity),
        };
    }
    match packet.as_pair() {
        Ok(pair) => {
            if pair.pair {
                Ok(PairingStep::AskUser(identity_from_peer_hint()))
            } else {
                Ok(PairingStep::Ignore)
            }
        },
        Err(PairError::NotPair) => Ok(PairingStep::Ignore),
        Err(PairError::InvalidBody) => Err(StepError::InvalidPair),
    }
}

/// The answer to the user's decision, and whether the connection is done:
/// KDE Connect expects `pair: true` to accept and `pair: false` to reject; a
/// timestamp belongs only to new requests. After an acceptance the listener
/// stops reading.
pub fn answer(accepted: bool) -> (r: (Packet, bool))
    ensures
        r.0.id == 0,
        r.0.packet_type@ == pair_type(),
        r.0.body == (PacketBody::Pair(super::packet::PairPacket { pair: accepted, timestamp: None })),
        r.1 == accepted,
{
    (Packet::pair_response(0, accepted), accepted)
}

} // verus!
