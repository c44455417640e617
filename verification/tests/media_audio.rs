use phonebridge::audio::jitter_buffer::JitterBuffer;
use phonebridge::audio::mix::{downmix_to_mono, spread_frame};
use phonebridge::network::media::{accept_decoded, frame_datagram, next_mic_datagram, parse_datagram, sender_datagram, MAX_DATAGRAM};

#[test]
fn datagram_carries_big_endian_sequence() {
    assert_eq!(frame_datagram(0x0102, &[9, 8, 7]), vec![1, 2, 9, 8, 7]);
}

#[test]
fn datagram_round_trips() {
    let datagram = frame_datagram(513, &[1, 2, 3, 4]);
    assert_eq!(parse_datagram(&datagram), Some((513, vec![1, 2, 3, 4])));
}

#[test]
fn short_datagrams_are_dropped() {
    assert_eq!(parse_datagram(&[0, 1, 2]), None);
    assert_eq!(parse_datagram(&[]), None);
    assert_eq!(parse_datagram(&[0, 1, 2, 3]), Some((1, vec![2, 3])));
}

#[test]
fn oversized_frames_are_not_sent() {
    let big = vec![0u8; MAX_DATAGRAM - 1];
    assert_eq!(sender_datagram(1, &big), None);
    let fits = vec![0u8; MAX_DATAGRAM - 2];
    assert_eq!(sender_datagram(1, &fits).map(|d| d.len()), Some(MAX_DATAGRAM));
}

#[test]
fn mic_sequence_wraps() {
    let mut seq: u16 = u16::MAX;
    let datagram = next_mic_datagram(&mut seq, &[5, 6]);
    assert_eq!(seq, 0);
    assert_eq!(datagram, vec![0, 0, 5, 6]);
    let datagram = next_mic_datagram(&mut seq, &[7]);
    assert_eq!(seq, 1);
    assert_eq!(datagram, vec![0, 1, 7]);
}

#[test]
fn jitter_buffer_waits_for_target_then_plays_in_order() {
    let mut jitter = JitterBuffer::new(2, 10);
    jitter.push(5, vec![5]);
    assert_eq!(jitter.pop(), None);
    jitter.push(3, vec![3]);
    assert_eq!(jitter.len(), 2);
    assert_eq!(jitter.pop(), Some(vec![3]));
    assert_eq!(jitter.len(), 1);
    assert_eq!(jitter.pop(), None, "below target again");
}

#[test]
fn jitter_buffer_drops_oldest_on_overflow() {
    let mut jitter = JitterBuffer::new(1, 2);
    jitter.push(10, vec![10]);
    jitter.push(11, vec![11]);
    jitter.push(12, vec![12]);
    assert_eq!(jitter.len(), 2);
    assert_eq!(jitter.pop(), Some(vec![11]));
    assert_eq!(jitter.pop(), Some(vec![12]));
    assert_eq!(jitter.pop(), None);
}

#[test]
fn jitter_buffer_replaces_duplicate_sequence() {
    let mut jitter = JitterBuffer::new(1, 4);
    jitter.push(7, vec![1]);
    jitter.push(7, vec![2]);
    assert_eq!(jitter.len(), 1);
    assert_eq!(jitter.pop(), Some(vec![2]));
}

#[test]
fn decoded_frames_pass_through_the_jitter_buffer() {
    let mut jitter = JitterBuffer::new(2, 8);
    assert_eq!(accept_decoded(&mut jitter, 1, vec![1, 1]), None);
    assert_eq!(accept_decoded(&mut jitter, 0, vec![0, 0]), Some(vec![0, 0]));
    assert_eq!(jitter.len(), 1);
}

#[test]
fn stereo_is_averaged_toward_zero() {
    assert_eq!(downmix_to_mono(&[10, 20, -3, 0, 7], 2), vec![15, -1, 3]);
    assert_eq!(downmix_to_mono(&[i16::MAX, i16::MAX, i16::MIN, i16::MIN], 2), vec![i16::MAX, i16::MIN]);
    assert_eq!(downmix_to_mono(&[1, 2, 3], 1), vec![1, 2, 3]);
    assert_eq!(downmix_to_mono(&[], 2), Vec::<i16>::new());
}

#[test]
fn mono_frame_is_spread_over_channels() {
    assert_eq!(spread_frame(&[1, 2], 6, 2), vec![1, 1, 2, 2, 0, 0]);
    assert_eq!(spread_frame(&[4, 5, 6], 2, 1), vec![4, 5]);
    assert_eq!(spread_frame(&[], 3, 3), vec![0, 0, 0]);
}
