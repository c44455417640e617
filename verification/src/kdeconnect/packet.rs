//! Minimal KDE Connect core packet model.
//!
//! KDE Connect packets are JSON objects with `id`, `type` and `body`. Identity
//! and pair packets are the core negotiation messages. Here a body is held as
//! the value it describes; the JSON text itself is written and read by the
//! caller.
use vstd::prelude::*;

verus! {

/// Value of a transport-specific identity field.
pub enum FieldValue {
    /// A JSON string.
    Text(String),
    /// Any other JSON value, kept as its JSON text.
    Json(String),
}

pub struct IdentityPacket {
    pub device_id: String,
    pub device_name: String,
    pub device_type: String,
    pub incoming_capabilities: Vec<String>,
    pub outgoing_capabilities: Vec<String>,
    pub protocol_version: u8,
    /// Further top-level fields of the identity body, by name.
    pub transport_fields: Vec<(String, FieldValue)>,
}

#[derive(Debug, Clone, Copy, PartialEq, Eq, Structural)]
pub struct PairPacket {
    pub pair: bool,
    pub timestamp: Option<i64>,
}

/// What a packet carries.
pub enum PacketBody {
    Identity(IdentityPacket),
    Pair(PairPacket),
    /// A body of another packet type, as JSON text.
    Other(String),
}

pub struct Packet {
    pub id: u64,
    pub packet_type: String,
    pub body: PacketBody,
}

/// Why a packet is not a pair packet.
#[derive(Debug, Clone, Copy, PartialEq, Eq, Structural)]
pub enum PairError {
    /// The packet type is not `kdeconnect.pair`.
    NotPair,
    /// The packet type is `kdeconnect.pair` but the body is not a pair body.
    InvalidBody,
}

/// The identity field value as plain values.
pub open spec fn field_view(v: FieldValue) -> (bool, Seq<char>) {
    match v {
        FieldValue::Text(s) => (true, s@),
        FieldValue::Json(s) => (false, s@),
    }
}

/// An identity packet as plain values: id, name, type, capabilities in and
/// out, protocol version and the transport fields.
pub open spec fn identity_view(p: IdentityPacket) -> (
    Seq<char>,
    Seq<char>,
    Seq<char>,
    Seq<Seq<char>>,
    Seq<Seq<char>>,
    u8,
    Seq<(Seq<char>, (bool, Seq<char>))>,
) {
    (
        p.device_id@,
        p.device_name@,
        p.device_type@,
        p.incoming_capabilities@.map_values(|s: String| s@),
        p.outgoing_capabilities@.map_values(|s: String| s@),
        p.protocol_version,
        p.transport_fields@.map_values(|f: (String, FieldValue)| (f.0@, field_view(f.1))),
    )
}

pub open spec fn pair_type() -> Seq<char> {
    "kdeconnect.pair"@
}

pub open spec fn identity_type() -> Seq<char> {
    "kdeconnect.identity"@
}

fn copy_strings(v: &Vec<String>) -> (r: Vec<String>)
    ensures
        r@.map_values(|s: String| s@) == v@.map_values(|s: String| s@),
{
    let mut out: Vec<String> = Vec::new();
    let mut i: usize = 0;
    while i < v.len()
        invariant
            0 <= i <= v@.len(),
            out@.len() == i,
            forall|j: int| 0 <= j < i ==> #[trigger] out@[j]@ == v@[j]@,
        decreases v@.len() - i,
    {
        out.push(v[i].clone());
        i = i + 1;
    }
    assert(out@.map_values(|s: String| s@) =~= v@.map_values(|s: String| s@));
    out
}

fn copy_field(v: &FieldValue) -> (r: FieldValue)
    ensures
        field_view(r) == field_view(*v),
{
    match v {
        FieldValue::Text(s) => FieldValue::Text(s.clone()),
        FieldValue::Json(s) => FieldValue::Json(s.clone()),
    }
}

fn copy_fields(v: &Vec<(String, FieldValue)>) -> (r: Vec<(String, FieldValue)>)
    ensures
        r@.map_values(|f: (String, FieldValue)| (f.0@, field_view(f.1))) == v@.map_values(
            |f: (String, FieldValue)| (f.0@, field_view(f.1)),
        ),
{
    let mut out: Vec<(String, FieldValue)> = Vec::new();
    let mut i: usize = 0;
    while i < v.len()
        invariant
            0 <= i <= v@.len(),
            out@.len() == i,
            forall|j: int|
                0 <= j < i ==> (#[trigger] out@[j]).0@ == v@[j].0@ && field_view(out@[j].1)
                    == field_view(v@[j].1),
        decreases v@.len() - i,
    {
        out.push((v[i].0.clone(), copy_field(&v[i].1)));
        i = i + 1;
    }
    assert(out@.map_values(|f: (String, FieldValue)| (f.0@, field_view(f.1))) =~= v@.map_values(
        |f: (String, FieldValue)| (f.0@, field_view(f.1)),
    ));
    out
}

/// A copy of an identity packet.
pub fn copy_identity(p: &IdentityPacket) -> (r: IdentityPacket)
    ensures
        identity_view(r) == identity_view(*p),
{
    IdentityPacket {
        device_id: p.device_id.clone(),
        device_name: p.device_name.clone(),
        device_type: p.device_type.clone(),
        incoming_capabilities: copy_strings(&p.incoming_capabilities),
        outgoing_capabilities: copy_strings(&p.outgoing_capabilities),
        protocol_version: p.protocol_version,
        transport_fields: copy_fields(&p.transport_fields),
    }
}

impl Packet {
    /// The identity packet announcing `identity`.
    pub fn identity(id: u64, identity: &IdentityPacket) -> (r: Self)
        ensures
            r.id == id,
            r.packet_type@ == identity_type(),
            r.body matches PacketBody::Identity(p) && identity_view(p) == identity_view(*identity),
    {
        Packet {
            id,
            packet_type: String::from_str("kdeconnect.identity"),
            body: PacketBody::Identity(copy_identity(identity)),
        }
    }

    /// A request to pair, stamped with the sender's time.
    pub fn pair_request(id: u64, timestamp: i64) -> (r: Self)
        ensures
            r.id == id,
            r.packet_type@ == pair_type(),
            r.body == (PacketBody::Pair(PairPacket { pair: true, timestamp: Some(timestamp) })),
    {
        Packet {
            id,
            packet_type: String::from_str("kdeconnect.pair"),
            body: PacketBody::Pair(PairPacket { pair: true, timestamp: Some(timestamp) }),
        }
    }

    /// The answer to a pair request: `pair` is whether it was accepted; it
    /// carries no timestamp.
    pub fn pair_response(id: u64, accepted: bool) -> (r: Self)
        ensures
            r.id == id,
            r.packet_type@ == pair_type(),
            r.body == (PacketBody::Pair(PairPacket { pair: accepted, timestamp: None })),
    {
        Packet {
            id,
            packet_type: String::from_str("kdeconnect.pair"),
            body: PacketBody::Pair(PairPacket { pair: accepted, timestamp: None }),
        }
    }

    /// The pair body of a `kdeconnect.pair` packet.
    pub fn as_pair(&self) -> (r: Result<PairPacket, PairError>)
        ensures
            self.packet_type@ != pair_type() ==> r == Err::<PairPacket, PairError>(PairError::NotPair),
            self.packet_type@ == pair_type() ==> r == (match self.body {
                PacketBody::Pair(p) => Ok::<PairPacket, PairError>(p),
                _ => Err(PairError::InvalidBody),
            }),
    {
        let expected = String::from_str("kdeconnect.pair");
        if self.packet_type != expected {
            return Err(PairError::NotPair);
        }
        match &self.body {
            PacketBody::Pair(p) => Ok(*p),
            _ => Err(PairError::InvalidBody),
        }
    }
}

/// The certificate fingerprint an identity packet announces in its
/// `certificateFingerprint` field, when that field is a JSON string; "unknown"
/// otherwise.
pub open spec fn announced_fingerprint(fields: Seq<(String, FieldValue)>) -> Seq<char>
    decreases fields.len(),
{
    if fields.len() == 0 {
        "unknown"@
    } else if fields[0].0@ == "certificateFingerprint"@ {
        match fields[0].1 {
            FieldValue::Text(s) => s@,
            FieldValue::Json(_) => "unknown"@,
        }
    } else {
        announced_fingerprint(fields.drop_first())
    }
}

pub fn certificate_fingerprint_field(identity: &IdentityPacket) -> (r: String)
    ensures
        r@ == announced_fingerprint(identity.transport_fields@),
{
    let key = String::from_str("certificateFingerprint");
    let mut i: usize = 0;
    assert(identity.transport_fields@.skip(0) =~= identity.transport_fields@);
    while i < identity.transport_fields.len()
        invariant
            0 <= i <= identity.transport_fields@.len(),
            key@ == "certificateFingerprint"@,
            announced_fingerprint(identity.transport_fields@) == announced_fingerprint(
                identity.transport_fields@.skip(i as int),
            ),
        decreases identity.transport_fields@.len() - i,
    {
        let ghost rest = identity.transport_fields@.skip(i as int);
        assert(rest[0] == identity.transport_fields@[i as int]);
        if identity.transport_fields[i].0 == key {
            return match &identity.transport_fields[i].1 {
                FieldValue::Text(s) => s.clone(),
                FieldValue::Json(_) => String::from_str("unknown"),
            };
        }
        assert(rest.drop_first() =~= identity.transport_fields@.skip(i + 1));
        i = i + 1;
    }
    String::from_str("unknown")
}

} // verus!
