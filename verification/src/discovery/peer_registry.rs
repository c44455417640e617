//! PCs heard on the network recently, by device id.
use super::Announce;
use crate::connection::timeout::{elapsed_nanos, is_duration_length, now};
use std::time::Instant;
use vstd::prelude::*;

verus! {

/// How long an announcement stays valid: ten seconds, in nanoseconds.
pub const PEER_TTL_NANOS: u128 = 10_000_000_000;

/// A PC that announced itself from `addr`, last heard at `last_seen`.
pub struct DiscoveredPc<A> {
    pub announce: Announce,
    pub addr: A,
    pub last_seen: Instant,
}

/// The entries of `s` that belong to another device than `device_id`.
pub open spec fn others<A>(s: Seq<DiscoveredPc<A>>, device_id: Seq<char>) -> Seq<DiscoveredPc<A>> {
    s.filter(not_of_device::<A>(device_id))
}

pub open spec fn not_of_device<A>(device_id: Seq<char>) -> spec_fn(DiscoveredPc<A>) -> bool {
    |p: DiscoveredPc<A>| p.announce.device_id@ != device_id
}

/// The most recent entry of `device_id` in `s`, if any.
pub open spec fn heard<A>(s: Seq<DiscoveredPc<A>>, device_id: Seq<char>) -> Option<DiscoveredPc<A>>
    decreases s.len(),
{
    if s.len() == 0 {
        None
    } else if s.last().announce.device_id@ == device_id {
        Some(s.last())
    } else {
        heard(s.drop_last(), device_id)
    }
}

/// Dropping the entries of `dev` forgets `dev` and keeps what is heard of
/// every other device.
proof fn lemma_heard_others<A>(s: Seq<DiscoveredPc<A>>, dev: Seq<char>, id: Seq<char>)
    ensures
        heard(others(s, dev), id) == (if id == dev {
            None
        } else {
            heard(s, id)
        }),
    decreases s.len(),
{
    reveal_with_fuel(Seq::filter, 1);
    if s.len() > 0 {
        lemma_heard_others(s.drop_last(), dev, id);
        let f = others(s.drop_last(), dev);
        if s.last().announce.device_id@ != dev {
            assert(others(s, dev) == f.push(s.last()));
            assert(f.push(s.last()).drop_last() =~= f);
        } else {
            assert(others(s, dev) == f);
        }
    }
}

/// The entries of `s` whose flag in `keep` is set, in their order.
pub open spec fn selected<A>(s: Seq<DiscoveredPc<A>>, keep: Seq<bool>) -> Seq<DiscoveredPc<A>>
    decreases s.len(),
{
    if s.len() == 0 || keep.len() != s.len() {
        Seq::empty()
    } else {
        let rest = selected(s.drop_last(), keep.drop_last());
        if keep.last() {
            rest.push(s.last())
        } else {
            rest
        }
    }
}

/// For each entry, whether it was heard within the TTL, given the time that
/// has elapsed since each was heard.
pub open spec fn fresh_flags(elapsed: Seq<nat>) -> Seq<bool> {
    elapsed.map_values(|e: nat| e <= PEER_TTL_NANOS)
}

/// Keeping the entries of `s` heard within the TTL (`elapsed[i]` nanoseconds
/// ago for entry `i`) keeps every such entry, in order, and nothing else: an
/// entry heard longer ago than the TTL is gone.
pub proof fn pruning_keeps_exactly_the_fresh<A>(s: Seq<DiscoveredPc<A>>, elapsed: Seq<nat>)
    requires
        elapsed.len() == s.len(),
    ensures
        forall|j: int|
            0 <= j < selected(s, fresh_flags(elapsed)).len() ==> exists|i: int|
                0 <= i < s.len() && elapsed[i] <= PEER_TTL_NANOS && #[trigger] selected(
                    s,
                    fresh_flags(elapsed),
                )[j] == s[i],
        forall|i: int|
            0 <= i < s.len() && elapsed[i] <= PEER_TTL_NANOS ==> selected(
                s,
                fresh_flags(elapsed),
            ).contains(#[trigger] s[i]),
        selected(s, fresh_flags(elapsed)).len() == elapsed.filter(|e: nat| e <= PEER_TTL_NANOS).len(),
    decreases s.len(),
{
    let keep = fresh_flags(elapsed);
    let out = selected(s, keep);
    if s.len() > 0 {
        let s0 = s.drop_last();
        let e0 = elapsed.drop_last();
        pruning_keeps_exactly_the_fresh(s0, e0);
        assert(keep.drop_last() =~= fresh_flags(e0));
        let rest = selected(s0, fresh_flags(e0));
        reveal_with_fuel(Seq::filter, 1);
        assert(elapsed.drop_last() == e0);
        if elapsed.last() <= PEER_TTL_NANOS {
            assert(out == rest.push(s.last()));
            assert forall|j: int| 0 <= j < out.len() implies exists|i: int|
                0 <= i < s.len() && elapsed[i] <= PEER_TTL_NANOS && #[trigger] out[j] == s[i] by {
                if j < rest.len() {
                    let i = choose|i: int|
                        0 <= i < s0.len() && e0[i] <= PEER_TTL_NANOS && #[trigger] rest[j] == s0[i];
                    assert(out[j] == s[i]);
                } else {
                    assert(out[j] == s[s.len() - 1]);
                }
            }
            assert forall|i: int| 0 <= i < s.len() && elapsed[i] <= PEER_TTL_NANOS implies out.contains(
                #[trigger] s[i],
            ) by {
                if i < s0.len() {
                    assert(s0[i] == s[i]);
                    assert(rest.contains(s0[i]));
                    let j = choose|j: int| 0 <= j < rest.len() && rest[j] == s0[i];
                    assert(out[j] == s[i]);
                } else {
                    assert(out[out.len() - 1] == s[i]);
                }
            }
        } else {
            assert(out == rest);
            assert forall|j: int| 0 <= j < out.len() implies exists|i: int|
                0 <= i < s.len() && elapsed[i] <= PEER_TTL_NANOS && #[trigger] out[j] == s[i] by {
                let i = choose|i: int|
                    0 <= i < s0.len() && e0[i] <= PEER_TTL_NANOS && #[trigger] rest[j] == s0[i];
                assert(out[j] == s[i]);
            }
            assert forall|i: int| 0 <= i < s.len() && elapsed[i] <= PEER_TTL_NANOS implies out.contains(
                #[trigger] s[i],
            ) by {
                assert(i < s0.len());
                assert(s0[i] == s[i]);
                assert(rest.contains(s0[i]));
            }
        }
    }
}

/// Whether an announcement heard `elapsed_nanos` ago is still valid.
pub fn is_fresh(elapsed_nanos: u128) -> (r: bool)
    ensures
        r == (elapsed_nanos <= PEER_TTL_NANOS),
{
    elapsed_nanos <= PEER_TTL_NANOS
}

/// Discovered PCs in the order they were last heard; at most one per device id.
pub struct PeerRegistry<A> {
    peers: Vec<DiscoveredPc<A>>,
}

impl<A> PeerRegistry<A> {
    pub closed spec fn entries(&self) -> Seq<DiscoveredPc<A>> {
        self.peers@
    }

    pub fn new() -> (r: Self)
        ensures
            r.entries() == Seq::<DiscoveredPc<A>>::empty(),
    {
        PeerRegistry { peers: Vec::new() }
    }

    /// Records an announcement heard now from `addr`, replacing any earlier
    /// entry of the same device; the new entry comes last.
    pub fn upsert(&mut self, announce: Announce, addr: A)
        ensures
            final(self).entries().drop_last() == others(old(self).entries(), announce.device_id@),
            final(self).entries().len() > 0,
            final(self).entries().last().announce == announce,
            final(self).entries().last().addr == addr,
            // What is heard of the device afterwards is this announcement;
            // what is heard of every other device is unchanged.
            heard(final(self).entries(), announce.device_id@) == Some(final(self).entries().last()),
            forall|id: Seq<char>|
                id != announce.device_id@ ==> #[trigger] heard(final(self).entries(), id) == heard(
                    old(self).entries(),
                    id,
                ),
    {
        let ghost id = announce.device_id@;
        let mut old_peers: Vec<DiscoveredPc<A>> = Vec::new();
        std::mem::swap(&mut old_peers, &mut self.peers);
        let mut kept = without_device(old_peers, announce.device_id.as_str());
        let last_seen = now();
        kept.push(DiscoveredPc { announce, addr, last_seen });
        self.peers = kept;
        proof {
            let o = others(old(self).entries(), id);
            assert(self.peers@.drop_last() =~= o);
            assert forall|other: Seq<char>| other != id implies #[trigger] heard(self.peers@, other)
                == heard(old(self).entries(), other) by {
                lemma_heard_others(old(self).entries(), id, other);
            }
        }
    }

    /// The entry of `device_id`, if it was heard.
    pub fn get(&self, device_id: &str) -> (r: Option<&DiscoveredPc<A>>)
        ensures
            match r {
                Some(p) => heard(self.entries(), device_id@) == Some(*p),
                None => heard(self.entries(), device_id@) is None,
            },
    {
        let mut i: usize = self.peers.len();
        assert(self.peers@.take(i as int) =~= self.peers@);
        while i > 0
            invariant
                0 <= i <= self.peers@.len(),
                heard(self.peers@, device_id@) == heard(self.peers@.take(i as int), device_id@),
            decreases i,
        {
            let ghost t = self.peers@.take(i as int);
            assert(t.drop_last() =~= self.peers@.take(i - 1));
            assert(t.last() == self.peers@[i - 1]);
            if self.peers[i - 1].announce.device_id.as_str().to_owned() == device_id.to_owned() {
                return Some(&self.peers[i - 1]);
            }
            i = i - 1;
        }
        None
    }

    /// Drops the entries not heard within the TTL (`is_fresh` decides on the
    /// time elapsed since each was heard, read from the clock). What is left is
    /// a part of what was there, in the same order: every entry whose elapsed
    /// time, as the clock read it, is within the TTL, and no other (see
    /// `pruning_keeps_exactly_the_fresh`).
    pub fn prune(&mut self)
        ensures
            exists|keep: Seq<bool>|
                keep.len() == old(self).entries().len() && final(self).entries() == #[trigger] selected(
                    old(self).entries(),
                    keep,
                ),
            exists|elapsed: Seq<nat>|
                {
                    &&& elapsed.len() == old(self).entries().len()
                    &&& forall|i: int| 0 <= i < elapsed.len() ==> is_duration_length(#[trigger] elapsed[i])
                    &&& final(self).entries() == #[trigger] selected(old(self).entries(), fresh_flags(elapsed))
                },
    {
        let mut rest: Vec<DiscoveredPc<A>> = Vec::new();
        std::mem::swap(&mut rest, &mut self.peers);
        let ghost all = rest@;
        assert(all == old(self).entries());
        let ghost mut readings: Seq<nat> = Seq::empty();
        let mut kept: Vec<DiscoveredPc<A>> = Vec::new();
        assert(all.take(0) =~= Seq::<DiscoveredPc<A>>::empty());
        while rest.len() > 0
            invariant
                readings.len() <= all.len(),
                rest@ == all.skip(readings.len() as int),
                kept@ == selected(all.take(readings.len() as int), fresh_flags(readings)),
                forall|i: int| 0 <= i < readings.len() ==> is_duration_length(#[trigger] readings[i]),
            decreases rest@.len(),
        {
            let ghost n = readings.len() as int;
            let peer = rest.remove(0);
            let e = elapsed_nanos(&peer.last_seen);
            let fresh = is_fresh(e);
            proof {
                assert(peer == all[n]);
                assert(rest@ =~= all.skip(n + 1));
                let t = all.take(n + 1);
                let more = readings.push(e as nat);
                assert(t.drop_last() =~= all.take(n));
                assert(fresh_flags(more).drop_last() =~= fresh_flags(readings));
                assert(fresh_flags(more).last() == fresh);
                assert(t.last() == peer);
                readings = more;
            }
            if fresh {
                kept.push(peer);
            }
        }
        assert(readings.len() == all.len());
        assert(all.take(readings.len() as int) =~= all);
        assert(kept@ == selected(all, fresh_flags(readings)));
        self.peers = kept;
        assert(self.entries() == selected(old(self).entries(), fresh_flags(readings)));
        assert(fresh_flags(readings).len() == old(self).entries().len());
    }

    /// All entries, in the order they were last heard.
    pub fn all(&self) -> (r: &Vec<DiscoveredPc<A>>)
        ensures
            r@ == self.entries(),
    {
        &self.peers
    }
}

/// `peers` without the entries of `device_id`, in their order.
fn without_device<A>(peers: Vec<DiscoveredPc<A>>, device_id: &str) -> (r: Vec<DiscoveredPc<A>>)
    ensures
        r@ == others(peers@, device_id@),
{
    let mut rest = peers;
    let ghost all = rest@;
    let ghost pred = not_of_device::<A>(device_id@);
    let mut kept: Vec<DiscoveredPc<A>> = Vec::new();
    let ghost mut taken: int = 0;
    while rest.len() > 0
        invariant
            0 <= taken <= all.len(),
            rest@ == all.skip(taken),
            kept@ == all.take(taken).filter(pred),
            pred == not_of_device::<A>(device_id@),
        decreases rest@.len(),
    {
        let ghost before = rest@;
        let peer = rest.remove(0);
        proof {
            assert(peer == all[taken]);
            let t = all.take(taken + 1);
            reveal_with_fuel(Seq::filter, 1);
            assert(t.drop_last() =~= all.take(taken));
            assert(t.last() == peer);
            assert(rest@ =~= all.skip(taken + 1));
        }
        let same = peer.announce.device_id.as_str().to_owned() == device_id.to_owned();
        if !same {
            kept.push(peer);
        }
        proof {
            taken = taken + 1;
        }
    }
    assert(all.take(all.len() as int) =~= all);
    kept
}

} // verus!
