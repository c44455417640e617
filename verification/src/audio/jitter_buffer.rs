use std::collections::BTreeMap;
use vstd::prelude::*;

verus! {

broadcast use {vstd::std_specs::btree::group_btree_axioms, vstd::laws_cmp::group_laws_cmp};

/// Reorders decoded audio frames by their 16-bit sequence number before playback.
///
/// Frames are held in a map keyed by sequence number. Playback starts only once
/// `target_frames` frames are buffered, and the buffer never keeps more than
/// `max_frames` frames: on overflow the oldest (lowest-numbered) frame is dropped.
pub struct JitterBuffer {
    buffer: BTreeMap<u16, Vec<i16>>,
    target_frames: usize,
    max_frames: usize,
    next_seq: u16,
}

/// `k` is the lowest sequence number held in `m`.
pub open spec fn is_oldest(m: Map<u16, Vec<i16>>, k: u16) -> bool {
    &&& m.contains_key(k)
    &&& forall|j: u16| #[trigger] m.contains_key(j) ==> k <= j
}

/// The lowest sequence number held in `m` (meaningful when `m` is not empty).
pub open spec fn oldest(m: Map<u16, Vec<i16>>) -> u16 {
    choose|k: u16| is_oldest(m, k)
}

/// The sequence number that follows `s`, wrapping from `u16::MAX` to 0.
pub open spec fn seq_after(s: u16) -> u16 {
    if s == u16::MAX {
        0
    } else {
        (s + 1) as u16
    }
}

/// The map that `push(seq, frame)` leaves behind in a buffer holding `m`
/// whose capacity is `max_frames`.
pub open spec fn pushed(m: Map<u16, Vec<i16>>, seq: u16, frame: Vec<i16>, max_frames: usize) -> Map<
    u16,
    Vec<i16>,
> {
    let inserted = m.insert(seq, frame);
    if inserted.len() > max_frames {
        inserted.remove(oldest(inserted))
    } else {
        inserted
    }
}

/// Smallest key of `m`, read with `BTreeMap::first_key_value`, whose
/// documentation states that the key it returns is the minimum key of the map
/// and that it returns `None` exactly when the map is empty. That is all this
/// contract claims of it.
#[verifier::external_body]
fn first_seq(m: &BTreeMap<u16, Vec<i16>>) -> (r: Option<u16>)
    ensures
        r is None <==> m@.len() == 0,
        r matches Some(k) ==> is_oldest(m@, k),
{
    m.first_key_value().map(|(k, _)| *k)
}

proof fn lemma_oldest_unique(m: Map<u16, Vec<i16>>, k: u16)
    requires
        is_oldest(m, k),
    ensures
        oldest(m) == k,
        is_oldest(m, oldest(m)),
{
    let o = oldest(m);
    assert(is_oldest(m, o));
    assert(m.contains_key(k) && m.contains_key(o));
    assert(o <= k && k <= o);
}

impl JitterBuffer {
    /// The buffer never holds more frames than its capacity.
    #[verifier::type_invariant]
    spec fn within_capacity(self) -> bool {
        self.buffer@.len() <= self.max_frames
    }

    /// The buffered frames, keyed by sequence number.
    pub closed spec fn frames(&self) -> Map<u16, Vec<i16>> {
        self.buffer@
    }

    /// How many frames must be buffered before `pop` hands one out.
    pub closed spec fn target(&self) -> usize {
        self.target_frames
    }

    /// Capacity of the buffer.
    pub closed spec fn capacity(&self) -> usize {
        self.max_frames
    }

    /// Sequence number expected next by playback.
    pub closed spec fn expected_seq(&self) -> u16 {
        self.next_seq
    }

    pub fn new(target_frames: usize, max_frames: usize) -> (r: Self)
        ensures
            r.frames() == Map::<u16, Vec<i16>>::empty(),
            r.target() == target_frames,
            r.capacity() == max_frames,
            r.expected_seq() == 0,
    {
        JitterBuffer { buffer: BTreeMap::new(), target_frames, max_frames, next_seq: 0 }
    }

    /// Inserts `frame` under `seq` (replacing a frame with the same number) and,
    /// when the buffer then holds more than its capacity, drops the oldest frame.
    pub fn push(&mut self, seq: u16, frame: Vec<i16>)
        ensures
            final(self).frames() == pushed(old(self).frames(), seq, frame, old(self).capacity()),
            old(self).frames().insert(seq, frame).len() > old(self).capacity() ==> is_oldest(
                old(self).frames().insert(seq, frame),
                oldest(old(self).frames().insert(seq, frame)),
            ),
            final(self).frames().len() <= final(self).capacity(),
            final(self).target() == old(self).target(),
            final(self).capacity() == old(self).capacity(),
            final(self).expected_seq() == old(self).expected_seq(),
    {
        proof {
            use_type_invariant(&*self);
        }
        let ghost inserted = self.buffer@.insert(seq, frame);
        let mut buffer: BTreeMap<u16, Vec<i16>> = BTreeMap::new();
        std::mem::swap(&mut buffer, &mut self.buffer);
        buffer.insert(seq, frame);
        if buffer.len() > self.max_frames {
            if let Some(oldest_seq) = first_seq(&buffer) {
                proof {
                    lemma_oldest_unique(inserted, oldest_seq);
                }
                buffer.remove(&oldest_seq);
            }
        }
        self.buffer = buffer;
    }

    /// Hands out the oldest buffered frame once at least `target_frames` frames
    /// are buffered, and expects the sequence number after it next.
    pub fn pop(&mut self) -> (r: Option<Vec<i16>>)
        ensures
            (old(self).frames().len() < old(self).target() || old(self).frames().len() == 0) ==> {
                &&& r is None
                &&& final(self).frames() == old(self).frames()
                &&& final(self).expected_seq() == old(self).expected_seq()
            },
            !(old(self).frames().len() < old(self).target() || old(self).frames().len() == 0) ==> {
                let k = oldest(old(self).frames());
                &&& is_oldest(old(self).frames(), k)
                &&& r == Some(old(self).frames()[k])
                &&& final(self).frames() == old(self).frames().remove(k)
                &&& final(self).expected_seq() == seq_after(k)
            },
            final(self).frames().len() <= final(self).capacity(),
            final(self).target() == old(self).target(),
            final(self).capacity() == old(self).capacity(),
    {
        proof {
            use_type_invariant(&*self);
        }
        if self.buffer.len() < self.target_frames {
            return None;
        }
        if let Some(seq) = first_seq(&self.buffer) {
            proof {
                lemma_oldest_unique(self.buffer@, seq);
            }
            if seq == self.next_seq || self.buffer.len() >= self.max_frames {
                return self.take_frame(seq);
            }
        }
        if let Some(seq) = first_seq(&self.buffer) {
            proof {
                lemma_oldest_unique(self.buffer@, seq);
            }
            return self.take_frame(seq);
        }
        None
    }

    /// Removes and returns the frame `seq` and expects the one after it next.
    fn take_frame(&mut self, seq: u16) -> (r: Option<Vec<i16>>)
        requires
            old(self).frames().contains_key(seq),
        ensures
            r == Some(old(self).frames()[seq]),
            final(self).frames() == old(self).frames().remove(seq),
            final(self).expected_seq() == seq_after(seq),
            final(self).target() == old(self).target(),
            final(self).capacity() == old(self).capacity(),
    {
        proof {
            use_type_invariant(&*self);
        }
        let mut buffer: BTreeMap<u16, Vec<i16>> = BTreeMap::new();
        std::mem::swap(&mut buffer, &mut self.buffer);
        let r = buffer.remove(&seq);
        self.buffer = buffer;
        self.next_seq = seq.wrapping_add(1);
        r
    }

    pub fn len(&self) -> (r: usize)
        ensures
            r == self.frames().len(),
            r <= self.capacity(),
    {
        proof {
            use_type_invariant(self);
        }
        self.buffer.len()
    }
}

} // verus!
