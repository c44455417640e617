//! Audio datagrams between phone and PC.
//!
//! Every datagram is `[seq u16 big-endian][opus encoded bytes]`: the media
//! stream from the phone (UDP 5001) and the microphone relay to the phone
//! (UDP 5003) use the same format.
use crate::audio::jitter_buffer::{is_oldest, oldest, pushed, seq_after, JitterBuffer};
use vstd::prelude::*;

verus! {

/// UDP port of the phone -> PC media stream.
pub const MEDIA_PORT: u16 = 5001;

/// UDP port on the phone that receives the PC microphone.
pub const PHONE_MIC_PORT: u16 = 5003;

/// Largest datagram the sender builds.
pub const MAX_DATAGRAM: usize = 1500;

/// The datagram carrying `payload` under sequence number `seq`.
pub open spec fn framed(seq: u16, payload: Seq<u8>) -> Seq<u8> {
    seq![(seq / 256) as u8, (seq % 256) as u8] + payload
}

/// Builds the datagram for an encoded frame.
pub fn frame_datagram(seq: u16, payload: &[u8]) -> (r: Vec<u8>)
    requires
        payload@.len() + 2 <= usize::MAX,
    ensures
        r@ == framed(seq, payload@),
{
    let mut datagram: Vec<u8> = Vec::with_capacity(payload.len() + 2);
    datagram.push((seq / 256) as u8);
    datagram.push((seq % 256) as u8);
    let mut i: usize = 0;
    while i < payload.len()
        invariant
            0 <= i <= payload@.len(),
            datagram@ == framed(seq, payload@.take(i as int)),
        decreases payload@.len() - i,
    {
        datagram.push(payload[i]);
        proof {
            assert(payload@.take(i + 1) =~= payload@.take(i as int).push(payload@[i as int]));
        }
        assert(datagram@ =~= framed(seq, payload@.take(i + 1)));
        i = i + 1;
    }
    assert(payload@.take(payload@.len() as int) =~= payload@);
    datagram
}

/// The media sender's datagram for an encoded frame: none when the frame does
/// not fit into `MAX_DATAGRAM` bytes with its header (such frames are skipped).
pub fn sender_datagram(seq: u16, frame: &[u8]) -> (r: Option<Vec<u8>>)
    ensures
        frame@.len() + 2 > MAX_DATAGRAM ==> r is None,
        frame@.len() + 2 <= MAX_DATAGRAM ==> (r matches Some(d) && d@ == framed(seq, frame@)),
{
    if frame.len() > MAX_DATAGRAM - 2 {
        return None;
    }
    Some(frame_datagram(seq, frame))
}

/// The sequence number and encoded frame of a received datagram; datagrams
/// shorter than four bytes are dropped.
pub fn parse_datagram(datagram: &[u8]) -> (r: Option<(u16, Vec<u8>)>)
    ensures
        datagram@.len() < 4 ==> r is None,
        datagram@.len() >= 4 ==> (r matches Some((seq, payload)) && seq == datagram@[0] as int
            * 256 + datagram@[1] && payload@ == datagram@.skip(2)),
{
    if datagram.len() < 4 {
        return None;
    }
    let seq: u16 = (datagram[0] as u16) * 256 + (datagram[1] as u16);
    let mut payload: Vec<u8> = Vec::new();
    let mut i: usize = 2;
    while i < datagram.len()
        invariant
            2 <= i <= datagram@.len(),
            payload@ == datagram@.subrange(2, i as int),
        decreases datagram@.len() - i,
    {
        payload.push(datagram[i]);
        assert(payload@ =~= datagram@.subrange(2, i + 1));
        i = i + 1;
    }
    assert(payload@ =~= datagram@.skip(2));
    Some((seq, payload))
}

/// A frame sent with at least two bytes of payload is read back as sent.
pub proof fn lemma_datagram_round_trip(seq: u16, payload: Seq<u8>)
    requires
        payload.len() >= 2,
    ensures
        framed(seq, payload).len() >= 4,
        framed(seq, payload)[0] as int * 256 + framed(seq, payload)[1] == seq,
        framed(seq, payload).skip(2) == payload,
{
    let d = framed(seq, payload);
    assert(d.skip(2) =~= payload);
    assert(((seq / 256) as u8) as int * 256 + ((seq % 256) as u8) as int == seq);
}

/// The microphone relay numbers its datagrams from 1: each datagram carries
/// the sequence number after the previous one.
pub fn next_mic_datagram(seq: &mut u16, packet: &[u8]) -> (r: Vec<u8>)
    requires
        packet@.len() + 2 <= usize::MAX,
    ensures
        *final(seq) == seq_after(*old(seq)),
        r@ == framed(*final(seq), packet@),
{
    *seq = seq.wrapping_add(1);
    frame_datagram(*seq, packet)
}

/// A decoded frame arriving from the phone: it enters the jitter buffer, and
/// the buffer hands out the frame due for playback, if any.
pub fn accept_decoded(jitter: &mut JitterBuffer, seq: u16, pcm: Vec<i16>) -> (r: Option<Vec<i16>>)
    ensures
        ({
            let m = pushed(old(jitter).frames(), seq, pcm, old(jitter).capacity());
            &&& (m.len() < old(jitter).target() || m.len() == 0) ==> (r is None
                && final(jitter).frames() == m)
            &&& !(m.len() < old(jitter).target() || m.len() == 0) ==> {
                &&& is_oldest(m, oldest(m))
                &&& r == Some(m[oldest(m)])
                &&& final(jitter).frames() == m.remove(oldest(m))
                &&& final(jitter).expected_seq() == seq_after(oldest(m))
            }
        }),
        final(jitter).frames().len() <= final(jitter).capacity(),
        final(jitter).target() == old(jitter).target(),
        final(jitter).capacity() == old(jitter).capacity(),
{
    jitter.push(seq, pcm);
    jitter.pop()
}

} // verus!
