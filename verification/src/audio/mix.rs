//! Sample layout conversions between the audio devices and the mono 48 kHz
//! Opus stream: interleaved multi-channel capture down to mono, and a mono
//! frame spread over every channel of an output buffer.
use vstd::prelude::*;

verus! {

pub open spec fn sum(s: Seq<i16>) -> int
    decreases s.len(),
{
    if s.len() == 0 {
        0
    } else {
        sum(s.drop_last()) + s.last() as int
    }
}

/// Integer division rounding toward zero, as Rust's `/` does.
pub open spec fn trunc_div(a: int, b: int) -> int {
    if a >= 0 {
        a / b
    } else {
        -((-a) / b)
    }
}

/// Mono version of interleaved samples: each group of `channels` consecutive
/// samples (the last group may be shorter) becomes the sum of the group
/// divided by `channels`, rounded toward zero.
pub open spec fn downmixed(data: Seq<i16>, channels: nat) -> Seq<i16>
    decreases data.len(),
{
    if data.len() == 0 || channels == 0 {
        Seq::empty()
    } else {
        let n = if data.len() < channels { data.len() as int } else { channels as int };
        seq![trunc_div(sum(data.take(n)), channels as int) as i16] + downmixed(
            data.skip(n),
            channels,
        )
    }
}

proof fn lemma_sum_push(s: Seq<i16>, x: i16)
    ensures
        sum(s.push(x)) == sum(s) + x,
{
    assert(s.push(x).drop_last() =~= s);
}

/// Averages interleaved multi-channel samples down to mono.
pub fn downmix_to_mono(data: &[i16], channels: usize) -> (r: Vec<i16>)
    requires
        1 <= channels <= 65535,
    ensures
        r@ == downmixed(data@, channels as nat),
{
    let mut mono: Vec<i16> = Vec::new();
    let mut start: usize = 0;
    assert(data@.skip(0) =~= data@);
    while start < data.len()
        invariant
            1 <= channels <= 65535,
            start <= data@.len(),
            mono@ + downmixed(data@.skip(start as int), channels as nat) == downmixed(
                data@,
                channels as nat,
            ),
        decreases data@.len() - start,
    {
        let rest_len = data.len() - start;
        let n = if rest_len < channels {
            rest_len
        } else {
            channels
        };
        let mut acc: i32 = 0;
        let mut j: usize = 0;
        let ghost rest = data@.skip(start as int);
        while j < n
            invariant
                n <= channels <= 65535,
                start + n <= data.len(),
                rest == data@.skip(start as int),
                0 <= j <= n,
                acc == sum(rest.take(j as int)),
                -32768 * j <= acc <= 32767 * j,
            decreases n - j,
        {
            let x = data[start + j];
            proof {
                assert(rest.take(j + 1) =~= rest.take(j as int).push(x));
                lemma_sum_push(rest.take(j as int), x);
            }
            acc = acc + x as i32;
            j = j + 1;
        }
        let ch = channels as i32;
        let avg = acc / ch;
        proof {
            assert(-32768 <= trunc_div(acc as int, ch as int) <= 32767) by (nonlinear_arith)
                requires
                    1 <= ch,
                    n <= ch,
                    -32768 * n <= acc <= 32767 * n,
            {
                if acc >= 0 {
                    assert(acc <= 32767 * ch);
                } else {
                    assert(-acc <= 32768 * ch);
                }
            }
        }
        let ghost before = mono@;
        mono.push(avg as i16);
        proof {
            let n_int = n as int;
            assert(rest.skip(n_int) =~= data@.skip(start + n));
            assert(downmixed(rest, channels as nat) == seq![
                trunc_div(sum(rest.take(n_int)), channels as int) as i16,
            ] + downmixed(rest.skip(n_int), channels as nat));
            assert(mono@ + downmixed(data@.skip(start + n), channels as nat) =~= before
                + downmixed(rest, channels as nat));
        }
        start = start + n;
    }
    proof {
        assert(downmixed(data@.skip(start as int), channels as nat) =~= Seq::<i16>::empty());
        assert(mono@ + Seq::<i16>::empty() =~= mono@);
    }
    mono
}

/// Output samples for a buffer of `len` interleaved samples over `channels`
/// channels: sample `i` plays frame sample `i / channels`, or silence past the
/// end of the frame.
pub open spec fn spread(frame: Seq<i16>, len: nat, channels: nat) -> Seq<i16> {
    Seq::new(
        len,
        |i: int|
            if i / (channels as int) < frame.len() {
                frame[i / (channels as int)]
            } else {
                0
            },
    )
}

/// Channel `channel` of output frame `k` in an interleaved buffer of
/// `channels` channels.
pub open spec fn channel_sample(buf: Seq<i16>, channels: nat, k: int, channel: int) -> i16 {
    buf[k * channels + channel]
}

/// Spreading a mono frame over `channels` channels plays frame sample `k` on
/// every channel of output frame `k`, and silence on every channel of the
/// output frames past the end of the mono frame; the buffer holds `len`
/// samples.
pub proof fn spread_plays_each_sample_on_every_channel(frame: Seq<i16>, len: nat, channels: nat)
    requires
        channels >= 1,
    ensures
        spread(frame, len, channels).len() == len,
        forall|k: int, channel: int|
            0 <= k && 0 <= channel < channels && k * channels + channel < len ==> #[trigger] channel_sample(
                spread(frame, len, channels),
                channels,
                k,
                channel,
            ) == (if k < frame.len() {
                frame[k]
            } else {
                0
            }),
{
    assert forall|k: int, channel: int|
        0 <= k && 0 <= channel < channels && k * channels + channel < len implies #[trigger] channel_sample(
            spread(frame, len, channels),
            channels,
            k,
            channel,
        ) == (if k < frame.len() {
            frame[k]
        } else {
            0
        }) by {
        let c = channels as int;
        assert((k * c + channel) / c == k) by (nonlinear_arith)
            requires
                0 <= k,
                0 <= channel < c,
        ;
        assert(0 <= k * c + channel) by (nonlinear_arith)
            requires
                0 <= k,
                0 <= channel,
                c >= 1,
        ;
    }
}

/// Fills an output buffer of `len` interleaved samples from a mono frame.
pub fn spread_frame(frame: &[i16], len: usize, channels: usize) -> (r: Vec<i16>)
    requires
        channels >= 1,
    ensures
        r@ == spread(frame@, len as nat, channels as nat),
        r@.len() == len,
        forall|k: int, channel: int|
            0 <= k && 0 <= channel < channels && k * channels + channel < len ==> #[trigger] channel_sample(
                r@,
                channels as nat,
                k,
                channel,
            ) == (if k < frame@.len() {
                frame@[k]
            } else {
                0
            }),
{
    proof {
        spread_plays_each_sample_on_every_channel(frame@, len as nat, channels as nat);
    }
    let mut out: Vec<i16> = Vec::new();
    let mut i: usize = 0;
    while i < len
        invariant
            channels >= 1,
            i <= len,
            out@ =~= spread(frame@, len as nat, channels as nat).take(i as int),
        decreases len - i,
    {
        let frame_idx = i / channels;
        let sample = if frame_idx < frame.len() {
            frame[frame_idx]
        } else {
            0
        };
        out.push(sample);
        i = i + 1;
    }
    out
}

} // verus!
