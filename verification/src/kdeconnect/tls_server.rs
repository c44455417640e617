//! Decisions of the KDE Connect TLS pairing path.
//!
//! A live TLS connection is kept while the user decides whether an incoming
//! device is trusted, so Allow/Reject is an actual network operation. The
//! sockets, TLS and threads are driven by the caller.
use super::packet::{
    announced_fingerprint, identity_type, pair_type, IdentityPacket, Packet, PacketBody, PairPacket,
};
use super::tls::{has_pair, others, LocalTlsIdentity, TrustStore, TrustedPeer};
use crate::text::{push_char, to_lowercase, unicode_lowercase};
use std::path::PathBuf;
use std::sync::{Arc, Mutex};
use vstd::prelude::*;

verus! {

/// Port of the KDE Connect pairing listener.
pub const TLS_PAIRING_PORT: u16 = 1716;

/// Largest packet accepted on this path.
pub const MAX_TLS_PACKET: usize = 4194304;

#[verifier::external_type_specification]
#[verifier::external_body]
#[verifier::reject_recursive_types(T)]
pub struct ExMutex<T: ?Sized>(Mutex<T>);

/// `Mutex::new`: a lock that holds `store`. Nothing is claimed of what the
/// lock holds: its contents change through every shared handle on it, without
/// any `&mut` that Verus could follow, so they are no function of the lock's
/// value that a contract could speak of.
#[verifier::external_body]
fn new_lock(store: TrustStore) -> (r: Mutex<TrustStore>) {
    Mutex::new(store)
}

/// `Arc::clone`: another handle on the same shared value.
#[verifier::external_body]
fn share(store: &Arc<Mutex<TrustStore>>) -> (r: Arc<Mutex<TrustStore>>)
    ensures
        r == *store,
{
    Arc::clone(store)
}

/// A device asking to pair, with the fingerprint it announced.
pub struct IncomingPairing {
    pub identity: IdentityPacket,
    pub fingerprint: String,
}

#[derive(Debug, Clone, Copy, PartialEq, Eq, Structural)]
pub enum PairingDecision {
    Accept,
    Reject,
}

/// The TLS pairing listener's shared state: this PC's identity and the trust
/// store, with where the store is kept.
pub struct TlsPairingServer {
    pub identity: LocalTlsIdentity,
    trust_store: Arc<Mutex<TrustStore>>,
    trust_path: PathBuf,
}

impl TlsPairingServer {
    pub closed spec fn spec_identity(&self) -> LocalTlsIdentity {
        self.identity
    }

    pub closed spec fn spec_store(&self) -> Arc<Mutex<TrustStore>> {
        self.trust_store
    }

    pub closed spec fn spec_trust_path(&self) -> PathBuf {
        self.trust_path
    }

    /// A listener for `identity` whose trust store, kept at `trust_path`, holds
    /// `store` (the caller reads it from disk, empty when there is none). The
    /// contract leaves unsaid that the shared lock holds `store` (see
    /// `new_lock`); the body hands `store` to the lock and nothing else.
    pub fn new(identity: LocalTlsIdentity, trust_path: PathBuf, store: TrustStore) -> (r: Self)
        ensures
            r.spec_identity() == identity,
            r.spec_trust_path() == trust_path,
    {
        let lock = new_lock(store);
        TlsPairingServer { identity, trust_store: Arc::new(lock), trust_path }
    }

    /// A handle on the shared trust store.
    pub fn trusted_store(&self) -> (r: Arc<Mutex<TrustStore>>)
        ensures
            r == self.spec_store(),
    {
        share(&self.trust_store)
    }

    pub fn trust_path(&self) -> (r: &PathBuf)
        ensures
            *r == self.spec_trust_path(),
    {
        &self.trust_path
    }
}

/// `s` with every `:` removed.
pub open spec fn without_colons(s: Seq<char>) -> Seq<char> {
    s.filter(|c: char| c != ':')
}

/// The KDE Connect device id of this PC: its certificate fingerprint without
/// the `:` separators, lower-cased.
pub fn local_device_id(fingerprint: &str) -> (r: String)
    ensures
        r@ == unicode_lowercase(without_colons(fingerprint@)),
{
    let mut compact = String::new();
    let n = fingerprint.unicode_len();
    let mut i: usize = 0;
    let ghost keep = |c: char| c != ':';
    while i < n
        invariant
            n == fingerprint@.len(),
            0 <= i <= n,
            keep == (|c: char| c != ':'),
            compact@ == fingerprint@.take(i as int).filter(keep),
        decreases n - i,
    {
        let c = fingerprint.get_char(i);
        if c != ':' {
            push_char(&mut compact, c);
        }
        proof {
            let t = fingerprint@.take(i + 1);
            reveal_with_fuel(Seq::filter, 1);
            assert(t.drop_last() =~= fingerprint@.take(i as int));
            assert(t.last() == c);
        }
        i = i + 1;
    }
    assert(fingerprint@.take(n as int) =~= fingerprint@);
    to_lowercase(compact.as_str())
}

fn strings2(a: &str, b: &str) -> (r: Vec<String>)
    ensures
        r@.map_values(|s: String| s@) == seq![a@, b@],
{
    let mut v: Vec<String> = Vec::new();
    v.push(a.to_owned());
    v.push(b.to_owned());
    assert(v@.map_values(|s: String| s@) =~= seq![a@, b@]);
    v
}

/// The identity this PC announces on the TLS path: a desktop speaking protocol
/// version 8 with the ping and share capabilities both ways.
pub fn local_identity_packet(fingerprint: &str, device_name: String) -> (r: IdentityPacket)
    ensures
        r.device_id@ == unicode_lowercase(without_colons(fingerprint@)),
        r.device_name == device_name,
        r.device_type@ == "desktop"@,
        r.incoming_capabilities@.map_values(|s: String| s@) == seq![
            "kdeconnect.ping"@,
            "kdeconnect.share"@,
        ],
        r.outgoing_capabilities@.map_values(|s: String| s@) == seq![
            "kdeconnect.ping"@,
            "kdeconnect.share"@,
        ],
        r.protocol_version == 8,
        r.transport_fields@.len() == 0,
{
    IdentityPacket {
        device_id: local_device_id(fingerprint),
        device_name,
        device_type: String::from_str("desktop"),
        incoming_capabilities: strings2("kdeconnect.ping", "kdeconnect.share"),
        outgoing_capabilities: strings2("kdeconnect.ping", "kdeconnect.share"),
        protocol_version: 8,
        transport_fields: Vec::new(),
    }
}

/// Why a pairing connection is closed.
#[derive(Debug, Clone, Copy, PartialEq, Eq, Structural)]
pub enum ClientError {
    /// The peer closed the connection before sending its identity.
    ClosedBeforeIdentity,
    /// The first packet is not `kdeconnect.identity`.
    NotIdentity,
    /// The identity packet's body is not an identity.
    InvalidIdentity,
    /// The peer closed the connection before asking to pair.
    ClosedBeforePairRequest,
    /// The packet after the identity is not `kdeconnect.pair`.
    NotPair,
    /// The pair packet's body is not a pair body.
    InvalidPair,
    /// The peer sent a pair packet that does not ask to pair.
    NoPairRequest,
}

/// The peer's identity from the first packet it sent (`None`: it closed the
/// connection first).
pub fn expect_identity(packet: Option<Packet>) -> (r: Result<IdentityPacket, ClientError>)
    ensures
        match packet {
            None => r == Err::<IdentityPacket, ClientError>(ClientError::ClosedBeforeIdentity),
            Some(p) => if p.packet_type@ != identity_type() {
                r == Err::<IdentityPacket, ClientError>(ClientError::NotIdentity)
            } else {
                match p.body {
                    PacketBody::Identity(id) => r == Ok::<IdentityPacket, ClientError>(id),
                    _ => r == Err::<IdentityPacket, ClientError>(ClientError::InvalidIdentity),
                }
            },
        },
{
    match packet {
        None => Err(ClientError::ClosedBeforeIdentity),
        Some(p) => {
            let expected = String::from_str("kdeconnect.identity");
            if p.packet_type != expected {
                return Err(ClientError::NotIdentity);
            }
            match p.body {
                PacketBody::Identity(id) => Ok(id),
                _ => Err(ClientError::InvalidIdentity),
            }
        },
    }
}

/// Checks that the packet after the identity asks to pair.
pub fn expect_pair_request(packet: &Option<Packet>) -> (r: Result<(), ClientError>)
    ensures
        match *packet {
            None => r == Err::<(), ClientError>(ClientError::ClosedBeforePairRequest),
            Some(p) => if p.packet_type@ != pair_type() {
                r == Err::<(), ClientError>(ClientError::NotPair)
            } else {
                match p.body {
                    PacketBody::Pair(pair) => if pair.pair {
                        r is Ok
                    } else {
                        r == Err::<(), ClientError>(ClientError::NoPairRequest)
                    },
                    _ => r == Err::<(), ClientError>(ClientError::InvalidPair),
                }
            },
        },
{
    match packet {
        None => Err(ClientError::ClosedBeforePairRequest),
        Some(p) => {
            let expected = String::from_str("kdeconnect.pair");
            if p.packet_type != expected {
                return Err(ClientError::NotPair);
            }
            match &p.body {
                PacketBody::Pair(pair) => if pair.pair {
                    Ok(())
                } else {
                    Err(ClientError::NoPairRequest)
                },
                _ => Err(ClientError::InvalidPair),
            }
        },
    }
}

/// The fingerprint a peer announces in its identity; "unknown" when absent.
pub fn announced_certificate_fingerprint(identity: &IdentityPacket) -> (r: String)
    ensures
        r@ == announced_fingerprint(identity.transport_fields@),
{
    super::packet::certificate_fingerprint_field(identity)
}

/// What follows the identity a peer sent first.
pub enum IdentityOutcome {
    /// The peer is trusted under the fingerprint it announced: accept at once.
    AcceptTrusted(IncomingPairing),
    /// The peer is unknown: its next packet must ask to pair, then the user decides.
    AwaitPairRequest(IncomingPairing),
}

/// Reads the first packet of a TLS pairing connection: it must be an identity
/// (see `expect_identity`); a peer already trusted under the fingerprint it
/// announces is accepted without asking, any other must go on to request
/// pairing.
pub fn on_identity(packet: Option<Packet>, store: &TrustStore) -> (r: Result<IdentityOutcome, ClientError>)
    ensures
        match packet {
            None => r == Err::<IdentityOutcome, ClientError>(ClientError::ClosedBeforeIdentity),
            Some(p) => if p.packet_type@ != identity_type() {
                r == Err::<IdentityOutcome, ClientError>(ClientError::NotIdentity)
            } else {
                match p.body {
                    PacketBody::Identity(id) => {
                        let fp = announced_fingerprint(id.transport_fields@);
                        if has_pair(store.peers@, id.device_id@, fp) {
                            r matches Ok(IdentityOutcome::AcceptTrusted(req)) && req.identity == id
                                && req.fingerprint@ == fp
                        } else {
                            r matches Ok(IdentityOutcome::AwaitPairRequest(req)) && req.identity == id
                                && req.fingerprint@ == fp
                        }
                    },
                    _ => r == Err::<IdentityOutcome, ClientError>(ClientError::InvalidIdentity),
                }
            },
        },
{
    let identity = match expect_identity(packet) {
        Ok(identity) => identity,
        Err(e) => {
            return Err(e);
        },
    };
    let fingerprint = announced_certificate_fingerprint(&identity);
    let trusted = store.is_trusted(identity.device_id.as_str(), fingerprint.as_str());
    let request = IncomingPairing { identity, fingerprint };
    if trusted {
        Ok(IdentityOutcome::AcceptTrusted(request))
    } else {
        Ok(IdentityOutcome::AwaitPairRequest(request))
    }
}

/// Carries out the user's decision on a pairing request: on Accept the peer
/// is trusted (replacing any earlier entry for its device id) as paired at
/// `paired_at`; either way the answer to send is a pair response with id 1.
pub fn apply_decision(
    store: &mut TrustStore,
    peer: &IdentityPacket,
    fingerprint: &str,
    decision: PairingDecision,
    paired_at: i64,
) -> (r: Packet)
    ensures
        decision == PairingDecision::Accept ==> final(store).peers@.len() == others(
            old(store).peers@,
            peer.device_id@,
        ).len() + 1 && final(store).peers@.last().device_id@ == peer.device_id@
            && final(store).peers@.last().device_name@ == peer.device_name@
            && final(store).peers@.last().fingerprint@ == fingerprint@
            && final(store).peers@.last().paired_at == paired_at && final(store).peers@.drop_last()
            == others(old(store).peers@, peer.device_id@),
        decision == PairingDecision::Accept ==> has_pair(final(store).peers@, peer.device_id@, fingerprint@),
        decision == PairingDecision::Reject ==> final(store).peers@ == old(store).peers@,
        r.id == 1,
        r.packet_type@ == pair_type(),
        r.body == (PacketBody::Pair(
            PairPacket { pair: decision == PairingDecision::Accept, timestamp: None },
        )),
{
    let accepted = decision == PairingDecision::Accept;
    if accepted {
        store.trust(
            TrustedPeer {
                device_id: peer.device_id.clone(),
                device_name: peer.device_name.clone(),
                fingerprint: fingerprint.to_owned(),
                paired_at,
            },
        );
        let ghost n = store.peers@.len();
        assert(store.peers@[n - 1].device_id@ == peer.device_id@);
        assert(store.peers@.drop_last() =~= others(old(store).peers@, peer.device_id@));
    }
    Packet::pair_response(1, accepted)
}

} // verus!
