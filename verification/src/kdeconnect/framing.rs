//! KDE Connect length-prefixed framing: a 4-byte big-endian length, then the
//! JSON text of the packet.
use vstd::prelude::*;

verus! {

/// Why a frame is refused.
#[derive(Debug, Clone, Copy, PartialEq, Eq, Structural)]
pub enum FrameError {
    /// The announced or actual length is zero or above the limit.
    InvalidLength,
}

/// The length announced by a frame header.
pub open spec fn header_length(header: [u8; 4]) -> int {
    header[0] as int * 0x1000000 + header[1] as int * 0x10000 + header[2] as int * 0x100 + header[3] as int
}

/// The payload length announced by a frame header, accepted when it is not
/// zero and at most `max_len`.
pub fn payload_length(header: [u8; 4], max_len: usize) -> (r: Result<usize, FrameError>)
    ensures
        (header_length(header) == 0 || header_length(header) > max_len) ==> r == Err::<usize, FrameError>(FrameError::InvalidLength),
        (0 < header_length(header) <= max_len) ==> r == Ok::<usize, FrameError>(header_length(header) as usize),
{
    let length: u64 = (header[0] as u64) * 0x1000000 + (header[1] as u64) * 0x10000 + (header[2] as u64) * 0x100 + (header[3] as u64);
    if length == 0 || length > max_len as u64 {
        return Err(FrameError::InvalidLength);
    }
    Ok(length as usize)
}

/// The 4-byte big-endian header announcing `len` bytes.
pub open spec fn header_for(len: nat) -> Seq<u8> {
    seq![
        (len / 0x1000000) as u8,
        ((len / 0x10000) % 0x100) as u8,
        ((len / 0x100) % 0x100) as u8,
        (len % 0x100) as u8,
    ]
}

/// The frame carrying `payload`; payloads longer than `max_len` are refused.
pub fn frame_packet(payload: &[u8], max_len: usize) -> (r: Result<Vec<u8>, FrameError>)
    requires
        max_len <= u32::MAX,
    ensures
        payload@.len() > max_len ==> r == Err::<Vec<u8>, FrameError>(FrameError::InvalidLength),
        payload@.len() <= max_len ==> (r matches Ok(f) && f@ == header_for(payload@.len()) + payload@),
{
    if payload.len() > max_len {
        return Err(FrameError::InvalidLength);
    }
    let len = payload.len() as u32;
    let mut frame: Vec<u8> = Vec::new();
    frame.push((len / 0x1000000) as u8);
    frame.push(((len / 0x10000) % 0x100) as u8);
    frame.push(((len / 0x100) % 0x100) as u8);
    frame.push((len % 0x100) as u8);
    let mut i: usize = 0;
    while i < payload.len()
        invariant
            0 <= i <= payload@.len(),
            len == payload@.len(),
            frame@ == header_for(payload@.len()) + payload@.take(i as int),
        decreases payload@.len() - i,
    {
        frame.push(payload[i]);
        assert(payload@.take(i + 1) =~= payload@.take(i as int).push(payload@[i as int]));
        assert(frame@ =~= header_for(payload@.len()) + payload@.take(i + 1));
        i = i + 1;
    }
    assert(payload@.take(payload@.len() as int) =~= payload@);
    Ok(frame)
}

/// A frame's header announces exactly its payload's length.
pub proof fn lemma_header_round_trip(len: nat)
    requires
        len <= u32::MAX,
    ensures
        header_length(
            [header_for(len)[0], header_for(len)[1], header_for(len)[2], header_for(len)[3]],
        ) == len,
{
    let h = header_for(len);
    assert(h[0] as int * 0x1000000 + h[1] as int * 0x10000 + h[2] as int * 0x100 + h[3] as int == len) by (nonlinear_arith)
        requires
            h[0] as int == len / 0x1000000,
            h[1] as int == (len / 0x10000) % 0x100,
            h[2] as int == (len / 0x100) % 0x100,
            h[3] as int == len % 0x100,
            len <= u32::MAX,
    ;
}

} // verus!
