//! Trust-on-first-use storage: device id -> certificate fingerprint (hex).
//!
//! On first connection from an unknown device id the user compares a
//! human-readable short code (see `short_code`) on both screens; only after an
//! explicit confirmation does the entry land in the store.
use crate::text::{
    all_ascii, ascii_lower_seq, ascii_upper_seq, char_to_ascii_uppercase, char_utf8_len, chars_before,
    eq_ignoring_ascii_case, is_ascii_char, is_char_boundary, lemma_ascii_lower_seq_matches,
    lemma_chars_before_unique, lemma_eq_ignoring_ascii_case_equivalence, lemma_utf8_size_increasing,
    push_char, str_eq_ignore_ascii_case, to_lowercase, to_uppercase, unicode_lowercase, unicode_uppercase,
    utf8_size,
};
use std::path::PathBuf;
use vstd::prelude::*;

verus! {

/// Fingerprint recorded for `id` in the list of `(device id, fingerprint)`
/// entries `s`; a later entry for the same id overrides an earlier one.
pub open spec fn lookup(s: Seq<(String, String)>, id: Seq<char>) -> Option<Seq<char>>
    decreases s.len(),
{
    if s.len() == 0 {
        None
    } else if s.last().0@ == id {
        Some(s.last().1@)
    } else {
        lookup(s.drop_last(), id)
    }
}

/// No device id occurs twice in the entry list.
pub open spec fn unique_ids(s: Seq<(String, String)>) -> bool {
    forall|i: int, j: int| 0 <= i < j < s.len() ==> #[trigger] s[i].0@ != #[trigger] s[j].0@
}

proof fn lemma_lookup_found(s: Seq<(String, String)>, i: int)
    requires
        unique_ids(s),
        0 <= i < s.len(),
    ensures
        lookup(s, s[i].0@) == Some(s[i].1@),
    decreases s.len(),
{
    if i < s.len() - 1 {
        assert(s.drop_last()[i] == s[i]);
        assert(s[i].0@ != s[s.len() - 1].0@);
        lemma_lookup_found(s.drop_last(), i);
    }
}

proof fn lemma_lookup_absent(s: Seq<(String, String)>, id: Seq<char>)
    requires
        forall|i: int| 0 <= i < s.len() ==> #[trigger] s[i].0@ != id,
    ensures
        lookup(s, id) is None,
    decreases s.len(),
{
    if s.len() > 0 {
        assert(s.last() == s[s.len() - 1]);
        assert forall|i: int| 0 <= i < s.drop_last().len() implies #[trigger] s.drop_last()[i].0@
            != id by {
            assert(s.drop_last()[i] == s[i]);
        }
        lemma_lookup_absent(s.drop_last(), id);
    }
}

proof fn lemma_lookup_some(s: Seq<(String, String)>, id: Seq<char>)
    requires
        lookup(s, id) is Some,
    ensures
        exists|i: int| 0 <= i < s.len() && #[trigger] s[i].0@ == id,
    decreases s.len(),
{
    if s.last().0@ != id {
        lemma_lookup_some(s.drop_last(), id);
        let i = choose|i: int| 0 <= i < s.drop_last().len() && #[trigger] s.drop_last()[i].0@ == id;
        assert(s[i] == s.drop_last()[i]);
    } else {
        assert(s[s.len() - 1].0@ == id);
    }
}

/// Replacing the entry of an id keeps every other id's fingerprint.
proof fn lemma_lookup_update(s: Seq<(String, String)>, i: int, e: (String, String), id: Seq<char>)
    requires
        unique_ids(s),
        0 <= i < s.len(),
        e.0@ == s[i].0@,
    ensures
        unique_ids(s.update(i, e)),
        lookup(s.update(i, e), id) == (if id == e.0@ {
            Some(e.1@)
        } else {
            lookup(s, id)
        }),
{
    let t = s.update(i, e);
    assert(unique_ids(t)) by {
        assert forall|a: int, b: int| 0 <= a < b < t.len() implies #[trigger] t[a].0@
            != #[trigger] t[b].0@ by {
            assert(s[a].0@ != s[b].0@);
        }
    }
    if id == e.0@ {
        lemma_lookup_found(t, i);
    } else {
        if lookup(s, id) is Some {
            lemma_lookup_some(s, id);
            let j = choose|j: int| 0 <= j < s.len() && #[trigger] s[j].0@ == id;
            lemma_lookup_found(s, j);
            lemma_lookup_found(t, j);
        } else {
            assert forall|j: int| 0 <= j < t.len() implies #[trigger] t[j].0@ != id by {
                if j != i && s[j].0@ == id {
                    lemma_lookup_found(s, j);
                }
            }
            lemma_lookup_absent(t, id);
        }
    }
}

/// Removing the entry of an id drops that id and keeps every other one.
proof fn lemma_lookup_remove(s: Seq<(String, String)>, i: int, id: Seq<char>)
    requires
        unique_ids(s),
        0 <= i < s.len(),
    ensures
        unique_ids(s.remove(i)),
        lookup(s.remove(i), id) == (if id == s[i].0@ {
            None
        } else {
            lookup(s, id)
        }),
{
    let t = s.remove(i);
    assert(unique_ids(t)) by {
        assert forall|a: int, b: int| 0 <= a < b < t.len() implies #[trigger] t[a].0@
            != #[trigger] t[b].0@ by {
            let a2 = if a < i { a } else { a + 1 };
            let b2 = if b < i { b } else { b + 1 };
            assert(t[a] == s[a2] && t[b] == s[b2]);
            assert(s[a2].0@ != s[b2].0@);
        }
    }
    if id == s[i].0@ {
        assert forall|j: int| 0 <= j < t.len() implies #[trigger] t[j].0@ != id by {
            let j2 = if j < i { j } else { j + 1 };
            assert(t[j] == s[j2]);
        }
        lemma_lookup_absent(t, id);
    } else if lookup(s, id) is Some {
        lemma_lookup_some(s, id);
        let j = choose|j: int| 0 <= j < s.len() && #[trigger] s[j].0@ == id;
        lemma_lookup_found(s, j);
        let j2 = if j < i { j } else { j - 1 };
        assert(t[j2] == s[j]);
        lemma_lookup_found(t, j2);
    } else {
        assert forall|j: int| 0 <= j < t.len() implies #[trigger] t[j].0@ != id by {
            let j2 = if j < i { j } else { j + 1 };
            assert(t[j] == s[j2]);
            if s[j2].0@ == id {
                lemma_lookup_found(s, j2);
            }
        }
        lemma_lookup_absent(t, id);
    }
}

/// The map described by an entry list.
pub open spec fn entries_map(s: Seq<(String, String)>) -> Map<Seq<char>, Seq<char>> {
    Map::new(|id: Seq<char>| lookup(s, id) is Some, |id: Seq<char>| lookup(s, id)->0)
}

/// Trusted peers: which certificate fingerprint (hex) each device id was
/// paired with, and where the store is kept on disk.
pub struct TrustStore {
    peers: Vec<(String, String)>,
    path: PathBuf,
}

impl TrustStore {
    /// `device_id` was paired with a fingerprint equal to `fingerprint_hex`
    /// up to the case of hex letters.
    pub open spec fn trusts(&self, device_id: Seq<char>, fingerprint_hex: Seq<char>) -> bool {
        self.peers().contains_key(device_id) && eq_ignoring_ascii_case(
            self.peers()[device_id],
            fingerprint_hex,
        )
    }

    /// device id -> fingerprint hex.
    pub closed spec fn peers(&self) -> Map<Seq<char>, Seq<char>> {
        entries_map(self.peers@)
    }

    /// No device id occurs twice among the entries.
    #[verifier::type_invariant]
    spec fn ids_unique(self) -> bool {
        unique_ids(self.peers@)
    }

    pub closed spec fn location(&self) -> PathBuf {
        self.path
    }

    /// An empty store kept at `path`.
    pub fn empty(path: PathBuf) -> (r: Self)
        ensures
            r.peers() == Map::<Seq<char>, Seq<char>>::empty(),
            r.location() == path,
    {
        let r = TrustStore { peers: Vec::new(), path };
        assert(r.peers() =~= Map::<Seq<char>, Seq<char>>::empty());
        r
    }

    /// A store kept at `path` holding the given `(device id, fingerprint)`
    /// entries as they were read from disk; a later entry for an id overrides
    /// an earlier one.
    pub fn from_entries(path: PathBuf, entries: Vec<(String, String)>) -> (r: Self)
        ensures
            r.peers() == entries_map(entries@),
            r.location() == path,
    {
        let mut store = TrustStore { peers: Vec::new(), path };
        let mut i: usize = 0;
        assert(store.peers() =~= entries_map(entries@.take(0)));
        while i < entries.len()
            invariant
                0 <= i <= entries.len(),
                store.peers() == entries_map(entries@.take(i as int)),
                store.path == path,
            decreases entries.len() - i,
        {
            let (id, fp) = (entries[i].0.clone(), entries[i].1.clone());
            let ghost before = store.peers();
            store.insert_entry(id, fp);
            proof {
                let t = entries@.take(i + 1);
                assert(t.drop_last() == entries@.take(i as int));
                assert(t.last() == entries@[i as int]);
                assert(store.peers() =~= entries_map(t)) by {
                    assert forall|k: Seq<char>| #[trigger] lookup(t, k) == (if k
                        == entries@[i as int].0@ {
                        Some(entries@[i as int].1@)
                    } else {
                        lookup(entries@.take(i as int), k)
                    }) by {}
                }
            }
            i = i + 1;
        }
        assert(entries@.take(entries.len() as int) == entries@);
        store
    }

    /// The `(device id, fingerprint)` entries, for writing the store to disk.
    pub fn entries(&self) -> (r: &Vec<(String, String)>)
        ensures
            entries_map(r@) == self.peers(),
            unique_ids(r@),
    {
        proof {
            use_type_invariant(self);
        }
        &self.peers
    }

    pub fn path(&self) -> (r: &PathBuf)
        ensures
            *r == self.location(),
    {
        &self.path
    }

    fn position(&self, device_id: &str) -> (r: Option<usize>)
        ensures
            r matches Some(i) ==> i < self.peers@.len() && self.peers@[i as int].0@ == device_id@,
            r is None ==> forall|i: int|
                0 <= i < self.peers@.len() ==> #[trigger] self.peers@[i].0@ != device_id@,
    {
        let mut i: usize = 0;
        while i < self.peers.len()
            invariant
                0 <= i <= self.peers@.len(),
                forall|j: int| 0 <= j < i ==> #[trigger] self.peers@[j].0@ != device_id@,
            decreases self.peers@.len() - i,
        {
            if self.peers[i].0.as_str().to_owned() == device_id.to_owned() {
                return Some(i);
            }
            i = i + 1;
        }
        None
    }

    fn insert_entry(&mut self, device_id: String, fingerprint: String)
        ensures
            final(self).peers() == old(self).peers().insert(device_id@, fingerprint@),
            final(self).path == old(self).path,
    {
        proof {
            use_type_invariant(&*self);
        }
        let ghost old_peers = self.peers@;
        let pos = self.position(device_id.as_str());
        let mut peers: Vec<(String, String)> = Vec::new();
        std::mem::swap(&mut peers, &mut self.peers);
        let e = (device_id, fingerprint);
        let ghost key = e.0@;
        let ghost value = e.1@;
        match pos {
            Some(i) => {
                proof {
                    assert forall|k: Seq<char>| #[trigger] lookup(old_peers.update(i as int, e), k)
                        == (if k == key {
                        Some(value)
                    } else {
                        lookup(old_peers, k)
                    }) by {
                        lemma_lookup_update(old_peers, i as int, e, k);
                    }
                }
                peers.set(i, e);
                proof {
                    let t = peers@;
                    assert(unique_ids(t)) by {
                        assert forall|a: int, b: int| 0 <= a < b < t.len() implies #[trigger] t[a].0@
                            != #[trigger] t[b].0@ by {
                            assert(old_peers[a].0@ != old_peers[b].0@);
                            if a == i {
                                assert(t[a].0@ == old_peers[a].0@);
                            } else if b == i {
                                assert(t[b].0@ == old_peers[b].0@);
                            } else {
                                assert(t[a] == old_peers[a] && t[b] == old_peers[b]);
                            }
                        }
                    }
                }
            },
            None => {
                peers.push(e);
                proof {
                    let t = peers@;
                    assert(t.drop_last() == old_peers);
                    assert(unique_ids(t)) by {
                        assert forall|a: int, b: int| 0 <= a < b < t.len() implies #[trigger] t[a].0@
                            != #[trigger] t[b].0@ by {
                            if b == t.len() - 1 {
                                assert(t[a] == old_peers[a]);
                            } else {
                                assert(old_peers[a].0@ != old_peers[b].0@);
                            }
                        }
                    }
                }
            },
        }
        self.peers = peers;
        assert(self.peers() =~= entries_map(old_peers).insert(key, value));
    }

    /// Whether `device_id` was paired with this certificate fingerprint; the
    /// fingerprints are compared without regard to the case of hex letters.
    pub fn is_trusted(&self, device_id: &str, fingerprint_hex: &str) -> (r: bool)
        ensures
            r == self.trusts(device_id@, fingerprint_hex@),
    {
        proof {
            use_type_invariant(self);
        }
        match self.position(device_id) {
            Some(i) => {
                proof {
                    lemma_lookup_found(self.peers@, i as int);
                }
                str_eq_ignore_ascii_case(self.peers[i].1.as_str(), fingerprint_hex)
            },
            None => {
                proof {
                    lemma_lookup_absent(self.peers@, device_id@);
                }
                false
            },
        }
    }

    /// Trusts this device id + fingerprint from now on, replacing whatever
    /// fingerprint the id had. The fingerprint is stored lower-cased. Only
    /// called after the user confirmed the short code on both devices; writing
    /// the store back to disk is up to the caller.
    pub fn trust(&mut self, device_id: &str, fingerprint_hex: &str)
        ensures
            final(self).peers() == old(self).peers().insert(
                device_id@,
                unicode_lowercase(fingerprint_hex@),
            ),
            all_ascii(fingerprint_hex@) ==> final(self).peers()[device_id@] == ascii_lower_seq(
                fingerprint_hex@,
            ),
            // An ASCII fingerprint is trusted from now on, in any letter case.
            all_ascii(fingerprint_hex@) ==> forall|fp: Seq<char>|
                eq_ignoring_ascii_case(fp, fingerprint_hex@) ==> #[trigger] final(self).trusts(
                    device_id@,
                    fp,
                ),
            // Every other device keeps its trust.
            forall|id: Seq<char>, fp: Seq<char>|
                id != device_id@ ==> #[trigger] final(self).trusts(id, fp) == old(self).trusts(id, fp),
            final(self).location() == old(self).location(),
    {
        let lower = to_lowercase(fingerprint_hex);
        self.insert_entry(device_id.to_owned(), lower);
        proof {
            if all_ascii(fingerprint_hex@) {
                let stored = ascii_lower_seq(fingerprint_hex@);
                assert forall|fp: Seq<char>| eq_ignoring_ascii_case(fp, fingerprint_hex@) implies #[trigger] self.trusts(
                    device_id@,
                    fp,
                ) by {
                    lemma_ascii_lower_seq_matches(fingerprint_hex@);
                    lemma_eq_ignoring_ascii_case_equivalence(stored, fingerprint_hex@, fp);
                    lemma_eq_ignoring_ascii_case_equivalence(fp, fingerprint_hex@, stored);
                }
            }
        }
    }

    /// Forgets `device_id`. Returns whether it was trusted, that is, whether
    /// the store changed and must be written back.
    pub fn revoke(&mut self, device_id: &str) -> (r: bool)
        ensures
            final(self).peers() == old(self).peers().remove(device_id@),
            r == old(self).peers().contains_key(device_id@),
            // The device is no longer trusted under any fingerprint; every
            // other device keeps its trust.
            forall|fp: Seq<char>| !#[trigger] final(self).trusts(device_id@, fp),
            forall|id: Seq<char>, fp: Seq<char>|
                id != device_id@ ==> #[trigger] final(self).trusts(id, fp) == old(self).trusts(id, fp),
            final(self).location() == old(self).location(),
    {
        proof {
            use_type_invariant(&*self);
        }
        let ghost old_peers = self.peers@;
        match self.position(device_id) {
            Some(i) => {
                proof {
                    assert forall|k: Seq<char>| #[trigger] lookup(old_peers.remove(i as int), k)
                        == (if k == old_peers[i as int].0@ {
                        None
                    } else {
                        lookup(old_peers, k)
                    }) by {
                        lemma_lookup_remove(old_peers, i as int, k);
                    }
                    lemma_lookup_remove(old_peers, i as int, device_id@);
                    lemma_lookup_found(old_peers, i as int);
                }
                let mut peers: Vec<(String, String)> = Vec::new();
                std::mem::swap(&mut peers, &mut self.peers);
                peers.remove(i);
                proof {
                    let t = peers@;
                    assert(unique_ids(t)) by {
                        assert forall|a: int, b: int| 0 <= a < b < t.len() implies #[trigger] t[a].0@
                            != #[trigger] t[b].0@ by {
                            let a2 = if a < i { a } else { a + 1 };
                            let b2 = if b < i { b } else { b + 1 };
                            assert(t[a] == old_peers[a2] && t[b] == old_peers[b2]);
                            assert(old_peers[a2].0@ != old_peers[b2].0@);
                        }
                    }
                }
                self.peers = peers;
                assert(self.peers() =~= entries_map(old_peers).remove(device_id@));
                true
            },
            None => {
                proof {
                    lemma_lookup_absent(old_peers, device_id@);
                }
                assert(self.peers() =~= entries_map(old_peers).remove(device_id@));
                false
            },
        }
    }
}

/// Saving a store and loading it back keeps its trust: a store rebuilt (with
/// `from_entries`) from the entries another store handed out (with
/// `entries`) trusts exactly the same device and fingerprint pairs.
pub proof fn lemma_reload_keeps_trust(saved: TrustStore, entries: Seq<(String, String)>, reloaded: TrustStore)
    requires
        entries_map(entries) == saved.peers(),
        reloaded.peers() == entries_map(entries),
    ensures
        forall|id: Seq<char>, fp: Seq<char>| #[trigger] reloaded.trusts(id, fp) == saved.trusts(id, fp),
{
}

/// The first eight characters of `f` are ASCII.
pub open spec fn ascii_head(f: Seq<char>) -> bool {
    &&& f.len() >= 8
    &&& forall|i: int| 0 <= i < 8 ==> is_ascii_char(#[trigger] f[i])
}

/// The first eight characters (or fewer, when there are fewer) of the
/// upper-cased fingerprint.
pub open spec fn code_chunk(f: Seq<char>) -> Seq<char> {
    let u = unicode_uppercase(f);
    u.take(if u.len() < 8 { u.len() as int } else { 8 })
}

/// A pairing code exists for `f`: the UTF-8 encoding of its code chunk has
/// character boundaries at bytes 4 and 8. That is always so when the first
/// eight characters are ASCII (as in a hex fingerprint).
pub open spec fn has_short_code(f: Seq<char>) -> bool {
    ||| ascii_head(f)
    ||| is_char_boundary(code_chunk(f), 4) && is_char_boundary(code_chunk(f), 8)
}

/// The pairing code shown to the user for a fingerprint: bytes 0..4 and 4..8
/// of its upper-cased first eight characters, joined by `-`. For an ASCII
/// head that is its first eight characters upper-cased, in two groups of four.
pub open spec fn short_code_of(f: Seq<char>) -> Seq<char> {
    if ascii_head(f) {
        ascii_upper_seq(f.subrange(0, 4)) + seq!['-'] + ascii_upper_seq(f.subrange(4, 8))
    } else {
        let c = code_chunk(f);
        c.subrange(0, chars_before(c, 4)) + seq!['-'] + c.subrange(chars_before(c, 4), chars_before(c, 8))
    }
}

fn has_ascii_head(f: &str) -> (r: bool)
    ensures
        r == ascii_head(f@),
{
    if f.unicode_len() < 8 {
        return false;
    }
    let mut i: usize = 0;
    while i < 8
        invariant
            f@.len() >= 8,
            0 <= i <= 8,
            forall|j: int| 0 <= j < i ==> is_ascii_char(#[trigger] f@[j]),
        decreases 8 - i,
    {
        if f.get_char(i) as u32 >= 128 {
            return false;
        }
        i = i + 1;
    }
    true
}

fn ascii_code(fingerprint_hex: &str) -> (r: String)
    requires
        ascii_head(fingerprint_hex@),
    ensures
        r@ == short_code_of(fingerprint_hex@),
{
    let mut code = String::new();
    let mut i: usize = 0;
    while i < 8
        invariant
            fingerprint_hex@.len() >= 8,
            0 <= i <= 8,
            code@ == (if i <= 4 {
                ascii_upper_seq(fingerprint_hex@.subrange(0, i as int))
            } else {
                ascii_upper_seq(fingerprint_hex@.subrange(0, 4)) + seq!['-'] + ascii_upper_seq(
                    fingerprint_hex@.subrange(4, i as int),
                )
            }),
        decreases 8 - i,
    {
        if i == 4 {
            push_char(&mut code, '-');
        }
        let c = char_to_ascii_uppercase(fingerprint_hex.get_char(i));
        push_char(&mut code, c);
        proof {
            if i < 4 {
                assert(ascii_upper_seq(fingerprint_hex@.subrange(0, i + 1)) =~= ascii_upper_seq(
                    fingerprint_hex@.subrange(0, i as int),
                ).push(c));
            } else {
                assert(ascii_upper_seq(fingerprint_hex@.subrange(4, i + 1)) =~= ascii_upper_seq(
                    fingerprint_hex@.subrange(4, i as int),
                ).push(c));
            }
        }
        i = i + 1;
    }
    code
}

/// The code taken from the Unicode upper-casing of the fingerprint, when its
/// code chunk splits at bytes 4 and 8.
fn unicode_code(f: &str) -> (r: Option<String>)
    ensures
        r is Some <==> (is_char_boundary(code_chunk(f@), 4) && is_char_boundary(code_chunk(f@), 8)),
        r matches Some(s) ==> s@ == ({
            let c = code_chunk(f@);
            c.subrange(0, chars_before(c, 4)) + seq!['-'] + c.subrange(
                chars_before(c, 4),
                chars_before(c, 8),
            )
        }),
{
    let upper = to_uppercase(f);
    let u = upper.as_str();
    let n = u.unicode_len();
    let m: usize = if n < 8 {
        n
    } else {
        8
    };
    let ghost c = code_chunk(f@);
    assert(c =~= u@.take(m as int));
    let mut j: usize = 0;
    let mut bytes: usize = 0;
    let mut j4: Option<usize> = None;
    let mut j8: Option<usize> = None;
    assert(c.take(0) =~= Seq::<char>::empty());
    while j < m
        invariant
            m <= u@.len(),
            m <= 8,
            c == u@.take(m as int),
            j <= m,
            bytes == utf8_size(c.take(j as int)),
            bytes <= 4 * j,
            j4 matches Some(x) ==> x <= j && utf8_size(c.take(x as int)) == 4,
            j4 is None ==> forall|x: int| 0 <= x <= j ==> #[trigger] utf8_size(c.take(x)) != 4,
            j8 matches Some(x) ==> x <= j && utf8_size(c.take(x as int)) == 8,
            j8 is None ==> forall|x: int| 0 <= x <= j ==> #[trigger] utf8_size(c.take(x)) != 8,
        decreases m - j,
    {
        let ch = u.get_char(j);
        proof {
            let t = c.take(j + 1);
            assert(t.drop_last() =~= c.take(j as int));
            assert(t.last() == ch);
        }
        bytes = bytes + char_utf8_len(ch);
        j = j + 1;
        if bytes == 4 {
            j4 = Some(j);
        }
        if bytes == 8 {
            j8 = Some(j);
        }
    }
    assert(c.take(m as int) =~= c);
    match (j4, j8) {
        (Some(a), Some(b)) => {
            proof {
                lemma_chars_before_unique(c, 4, a as int);
                lemma_chars_before_unique(c, 8, b as int);
                if b < a {
                    lemma_utf8_size_increasing(c, b as int, a as int);
                }
            }
            let mut code = String::new();
            code.append(u.substring_char(0, a));
            push_char(&mut code, '-');
            code.append(u.substring_char(a, b));
            assert(code@ =~= c.subrange(0, a as int) + seq!['-'] + c.subrange(a as int, b as int));
            Some(code)
        },
        _ => {
            proof {
                if j4 is None && is_char_boundary(c, 4) {
                    let x = choose|x: int| 0 <= x <= c.len() && #[trigger] utf8_size(c.take(x)) == 4;
                    assert(utf8_size(c.take(x)) != 4);
                }
                if j8 is None && is_char_boundary(c, 8) {
                    let x = choose|x: int| 0 <= x <= c.len() && #[trigger] utf8_size(c.take(x)) == 8;
                    assert(utf8_size(c.take(x)) != 8);
                }
            }
            None
        },
    }
}

/// Human-readable pairing code, e.g. "3F9A-7B21": the first 4 bytes of the
/// SHA-256 certificate fingerprint as upper-case hex, grouped by 4 characters.
/// The Android side computes it with the same algorithm.
pub fn short_code(fingerprint_hex: &str) -> (r: String)
    requires
        has_short_code(fingerprint_hex@),
    ensures
        r@ == short_code_of(fingerprint_hex@),
{
    if has_ascii_head(fingerprint_hex) {
        ascii_code(fingerprint_hex)
    } else {
        match unicode_code(fingerprint_hex) {
            Some(code) => code,
            None => String::new(),
        }
    }
}

/// The pairing code of a fingerprint, or `None` for a string that has none
/// (see `has_short_code`).
pub fn try_short_code(fingerprint_hex: &str) -> (r: Option<String>)
    ensures
        r is Some <==> has_short_code(fingerprint_hex@),
        r matches Some(code) ==> code@ == short_code_of(fingerprint_hex@),
{
    if has_ascii_head(fingerprint_hex) {
        Some(ascii_code(fingerprint_hex))
    } else {
        unicode_code(fingerprint_hex)
    }
}

} // verus!
