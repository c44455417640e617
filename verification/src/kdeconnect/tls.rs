//! Persistent TLS identity, certificate fingerprinting and trusted-peer storage
//! for the KDE Connect path. The private key stays on the PC and the
//! certificate fingerprint is stable across restarts; pairing approval is
//! stored separately from the certificate.
use vstd::prelude::*;

pub use crate::crypto::certificate_fingerprint;

use crate::crypto::{
    certificate_dns_names, colon_hex_upper, generate_self_signed, never_an_ip_address, sha256,
    subject_names,
};

verus! {

/// The PC's own certificate and key (DER) with the certificate's fingerprint.
pub struct LocalTlsIdentity {
    pub cert: Vec<u8>,
    pub key: Vec<u8>,
    pub fingerprint: String,
}

impl LocalTlsIdentity {
    /// The identity made of a certificate and its private key (both DER), with
    /// the certificate's fingerprint.
    pub fn from_der(cert: Vec<u8>, key: Vec<u8>) -> (r: Self)
        ensures
            r.cert == cert,
            r.key == key,
            r.fingerprint@ == colon_hex_upper(sha256(cert@)),
    {
        let fingerprint = certificate_fingerprint(cert.as_slice());
        LocalTlsIdentity { cert, key, fingerprint }
    }

    /// A new identity: a fresh key pair and a self-signed certificate
    /// generated for `subject` as its one subject name, made into an identity
    /// by `from_der`; `None` when the generator cannot make one. A subject
    /// that cannot be read as an IP address is the certificate's one DNS name.
    pub fn generate(subject: String) -> (r: Option<Self>)
        ensures
            r matches Some(id) ==> id.fingerprint@ == colon_hex_upper(sha256(id.cert@)),
            r matches Some(id) ==> (never_an_ip_address(subject@) ==> certificate_dns_names(id.cert@)
                == seq![subject@]),
    {
        let names = subject_names(subject.as_str());
        proof {
            assert(names@.map_values(|n: String| n@) =~= seq![subject@]);
        }
        match generate_self_signed(names) {
            Some(generated) => Some(LocalTlsIdentity::from_der(generated.cert_der, generated.key_der)),
            None => None,
        }
    }
}

/// A device that the user allowed to pair.
pub struct TrustedPeer {
    pub device_id: String,
    pub device_name: String,
    pub fingerprint: String,
    pub paired_at: i64,
}

/// Trusted peers in the order in which they were paired.
pub struct TrustStore {
    pub peers: Vec<TrustedPeer>,
}

/// The peers of `s` that do not belong to `device_id`.
pub open spec fn others(s: Seq<TrustedPeer>, device_id: Seq<char>) -> Seq<TrustedPeer> {
    s.filter(not_of_device(device_id))
}

/// Whether a peer belongs to another device than `device_id`.
pub open spec fn not_of_device(device_id: Seq<char>) -> spec_fn(TrustedPeer) -> bool {
    |p: TrustedPeer| p.device_id@ != device_id
}

/// Some peer of `s` has this device id and this fingerprint.
pub open spec fn has_pair(s: Seq<TrustedPeer>, device_id: Seq<char>, fingerprint: Seq<char>) -> bool {
    exists|i: int|
        0 <= i < s.len() && #[trigger] s[i].device_id@ == device_id && s[i].fingerprint@
            == fingerprint
}

/// Dropping the entries of `dev` leaves no pair for `dev` and keeps every pair
/// of every other device.
proof fn lemma_others_pairs(s: Seq<TrustedPeer>, dev: Seq<char>)
    ensures
        forall|fp: Seq<char>| !#[trigger] has_pair(others(s, dev), dev, fp),
        forall|id: Seq<char>, fp: Seq<char>|
            id != dev ==> #[trigger] has_pair(others(s, dev), id, fp) == has_pair(s, id, fp),
{
    let pred = not_of_device(dev);
    let f = others(s, dev);
    assert forall|fp: Seq<char>| !#[trigger] has_pair(others(s, dev), dev, fp) by {
        if has_pair(f, dev, fp) {
            let i = choose|i: int|
                0 <= i < f.len() && #[trigger] f[i].device_id@ == dev && f[i].fingerprint@ == fp;
            s.lemma_filter_pred(pred, i);
        }
    }
    assert forall|id: Seq<char>, fp: Seq<char>|
        id != dev implies #[trigger] has_pair(others(s, dev), id, fp) == has_pair(s, id, fp) by {
        if has_pair(f, id, fp) {
            let i = choose|i: int|
                0 <= i < f.len() && #[trigger] f[i].device_id@ == id && f[i].fingerprint@ == fp;
            s.lemma_filter_contains_rev(pred, f[i]);
            let j = choose|j: int| 0 <= j < s.len() && s[j] == f[i];
            assert(s[j].device_id@ == id);
            assert(has_pair(s, id, fp));
        }
        if has_pair(s, id, fp) {
            let j = choose|j: int|
                0 <= j < s.len() && #[trigger] s[j].device_id@ == id && s[j].fingerprint@ == fp;
            s.lemma_filter_contains(pred, j);
            let i = choose|i: int| 0 <= i < f.len() && f[i] == s[j];
            assert(f[i].device_id@ == id);
            assert(has_pair(f, id, fp));
        }
    }
}

fn copy_peer(p: &TrustedPeer) -> (r: TrustedPeer)
    ensures
        r == *p,
{
    TrustedPeer {
        device_id: p.device_id.clone(),
        device_name: p.device_name.clone(),
        fingerprint: p.fingerprint.clone(),
        paired_at: p.paired_at,
    }
}

fn without_device(peers: &Vec<TrustedPeer>, device_id: &str) -> (r: Vec<TrustedPeer>)
    ensures
        r@ == others(peers@, device_id@),
{
    let mut kept: Vec<TrustedPeer> = Vec::new();
    let mut i: usize = 0;
    let ghost pred = not_of_device(device_id@);
    while i < peers.len()
        invariant
            0 <= i <= peers@.len(),
            pred == not_of_device(device_id@),
            kept@ == peers@.take(i as int).filter(pred),
        decreases peers@.len() - i,
    {
        let same = peers[i].device_id.as_str().to_owned() == device_id.to_owned();
        if !same {
            kept.push(copy_peer(&peers[i]));
        }
        proof {
            let t = peers@.take(i + 1);
            reveal_with_fuel(Seq::filter, 1);
            assert(t.drop_last() =~= peers@.take(i as int));
            assert(t.last() == peers@[i as int]);
            assert(t.filter(pred) == (if pred(t.last()) {
                t.drop_last().filter(pred).push(t.last())
            } else {
                t.drop_last().filter(pred)
            }));
        }
        i = i + 1;
    }
    assert(peers@.take(peers@.len() as int) =~= peers@);
    kept
}

impl TrustStore {
    pub fn new() -> (r: Self)
        ensures
            r.peers@ == Seq::<TrustedPeer>::empty(),
    {
        TrustStore { peers: Vec::new() }
    }

    /// Whether a peer with this device id was paired under this exact fingerprint.
    pub fn is_trusted(&self, device_id: &str, fingerprint: &str) -> (r: bool)
        ensures
            r == has_pair(self.peers@, device_id@, fingerprint@),
    {
        let mut i: usize = 0;
        while i < self.peers.len()
            invariant
                0 <= i <= self.peers@.len(),
                forall|j: int|
                    0 <= j < i ==> !(#[trigger] self.peers@[j].device_id@ == device_id@
                        && self.peers@[j].fingerprint@ == fingerprint@),
            decreases self.peers@.len() - i,
        {
            let p = &self.peers[i];
            if p.device_id.as_str().to_owned() == device_id.to_owned()
                && p.fingerprint.as_str().to_owned() == fingerprint.to_owned() {
                return true;
            }
            i = i + 1;
        }
        false
    }

    /// Trusts `peer`, replacing any earlier entry for the same device id; the
    /// new entry comes last.
    pub fn trust(&mut self, peer: TrustedPeer)
        ensures
            final(self).peers@ == others(old(self).peers@, peer.device_id@).push(peer),
            // The peer is trusted under its fingerprint from now on; every
            // other device keeps exactly the pairs it had.
            has_pair(final(self).peers@, peer.device_id@, peer.fingerprint@),
            forall|id: Seq<char>, fp: Seq<char>|
                id != peer.device_id@ ==> #[trigger] has_pair(final(self).peers@, id, fp)
                    == has_pair(old(self).peers@, id, fp),
    {
        let ghost dev = peer.device_id@;
        let ghost fp0 = peer.fingerprint@;
        let mut kept = without_device(&self.peers, peer.device_id.as_str());
        kept.push(peer);
        self.peers = kept;
        proof {
            let old_s = old(self).peers@;
            let o = others(old_s, dev);
            let n = self.peers@.len();
            lemma_others_pairs(old_s, dev);
            assert(self.peers@.drop_last() == o);
            assert(self.peers@[n - 1].device_id@ == dev && self.peers@[n - 1].fingerprint@ == fp0);
            assert forall|id: Seq<char>, fp: Seq<char>|
                id != dev implies #[trigger] has_pair(self.peers@, id, fp) == has_pair(old_s, id, fp) by {
                if has_pair(self.peers@, id, fp) {
                    let i = choose|i: int|
                        0 <= i < self.peers@.len() && #[trigger] self.peers@[i].device_id@ == id
                            && self.peers@[i].fingerprint@ == fp;
                    assert(i < n - 1);
                    assert(o[i] == self.peers@[i]);
                    assert(has_pair(o, id, fp));
                }
                if has_pair(o, id, fp) {
                    let i = choose|i: int|
                        0 <= i < o.len() && #[trigger] o[i].device_id@ == id && o[i].fingerprint@ == fp;
                    assert(self.peers@[i] == o[i]);
                }
            }
        }
    }

    /// Forgets every entry for `device_id`.
    pub fn revoke(&mut self, device_id: &str)
        ensures
            final(self).peers@ == others(old(self).peers@, device_id@),
            // The device is no longer trusted under any fingerprint; every
            // other device keeps exactly the pairs it had.
            forall|fp: Seq<char>| !#[trigger] has_pair(final(self).peers@, device_id@, fp),
            forall|id: Seq<char>, fp: Seq<char>|
                id != device_id@ ==> #[trigger] has_pair(final(self).peers@, id, fp)
                    == has_pair(old(self).peers@, id, fp),
    {
        self.peers = without_device(&self.peers, device_id);
        proof {
            lemma_others_pairs(old(self).peers@, device_id@);
        }
    }
}

impl Default for TrustStore {
    fn default() -> (r: Self)
        ensures
            r.peers@ == Seq::<TrustedPeer>::empty(),
    {
        TrustStore::new()
    }
}

} // verus!
