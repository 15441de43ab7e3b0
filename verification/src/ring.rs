//! Sample movement between the capture callbacks and the render loop: the
//! rolling sample window, channel splitting and stereo frame alignment.

use vstd::prelude::*;

verus! {

/// The window after appending `samples` to `window` and keeping only the
/// newest `window.len()` values.
pub open spec fn rolled<T>(window: Seq<T>, samples: Seq<T>) -> Seq<T> {
    (window + samples).skip(samples.len() as int)
}

/// Append `samples` to the fixed-size window `buf`, dropping the oldest
/// values so that its length stays the same.
pub fn write_to_buffer<T: Copy>(buf: &mut Vec<T>, samples: &[T])
    ensures
        final(buf)@ == rolled(old(buf)@, samples@),
        final(buf)@.len() == old(buf)@.len(),
{
    let capacity = buf.len();
    let new_len = samples.len();
    let ghost old_buf = buf@;
    if new_len >= capacity {
        let start = new_len - capacity;
        let mut i: usize = 0;
        while i < capacity
            invariant
                capacity == old_buf.len(),
                new_len == samples@.len(),
                start == new_len - capacity,
                i <= capacity,
                buf@.len() == capacity,
                forall|k: int| 0 <= k < i ==> buf@[k] == samples@[start + k],
            decreases capacity - i,
        {
            buf.set(i, samples[start + i]);
            i += 1;
        }
        assert(buf@ =~= rolled(old_buf, samples@));
    } else {
        let keep = capacity - new_len;
        let mut i: usize = 0;
        while i < keep
            invariant
                capacity == old_buf.len(),
                new_len == samples@.len(),
                keep == capacity - new_len,
                i <= keep,
                buf@.len() == capacity,
                forall|k: int| 0 <= k < i ==> buf@[k] == old_buf[k + new_len],
                forall|k: int| i <= k < capacity ==> buf@[k] == old_buf[k],
            decreases keep - i,
        {
            let v = buf[i + new_len];
            buf.set(i, v);
            i += 1;
        }
        let mut j: usize = 0;
        while j < new_len
            invariant
                capacity == old_buf.len(),
                new_len == samples@.len(),
                keep == capacity - new_len,
                j <= new_len,
                buf@.len() == capacity,
                forall|k: int| 0 <= k < keep ==> buf@[k] == old_buf[k + new_len],
                forall|k: int| 0 <= k < j ==> buf@[keep + k] == samples@[k],
            decreases new_len - j,
        {
            buf.set(keep + j, samples[j]);
            j += 1;
        }
        assert(buf@ =~= rolled(old_buf, samples@));
    }
}

/// Two writes in a row leave the window as one write of both batches would.
pub proof fn lemma_rolled_compose<T>(window: Seq<T>, a: Seq<T>, b: Seq<T>)
    ensures
        rolled(rolled(window, a), b) == rolled(window, a + b),
        rolled(window, a).len() == window.len(),
{
    assert(rolled(rolled(window, a), b) =~= rolled(window, a + b));
}

/// A write of at least a window's worth of samples leaves exactly the newest
/// of them, whatever the window held before.
pub proof fn lemma_rolled_overwrites<T>(window: Seq<T>, samples: Seq<T>)
    requires
        samples.len() >= window.len(),
    ensures
        rolled(window, samples) == samples.skip(samples.len() - window.len()),
{
    assert(rolled(window, samples) =~= samples.skip(samples.len() - window.len()));
}

/// A write shorter than the window drops the oldest values, one per new
/// sample, moves the rest to the front and puts the new samples at the end,
/// oldest first; the newest sample is always last.
pub proof fn lemma_rolled_shifts<T>(window: Seq<T>, samples: Seq<T>)
    ensures
        samples.len() <= window.len() ==> rolled(window, samples) == window.skip(samples.len() as int)
            + samples,
        0 < samples.len() && 0 < window.len() ==> rolled(window, samples).last() == samples.last(),
{
    if samples.len() <= window.len() {
        assert(rolled(window, samples) =~= window.skip(samples.len() as int) + samples);
    }
}

/// The number of frames `data.chunks(channels)` yields.
pub open spec fn frame_count(len: nat, channels: nat) -> nat
    recommends
        channels > 0,
{
    ((len + channels - 1) / (channels as int)) as nat
}

/// Interleaved data can be split when it has at least one channel and, with
/// more than one channel, no frame is cut down to a single sample.
pub open spec fn splittable(len: nat, channels: nat) -> bool {
    &&& channels > 0
    &&& channels > 1 ==> len % channels != 1
}

/// Split interleaved samples into a left and a right channel: the first and
/// second sample of every frame of `channels` samples (a trailing partial
/// frame counts too).  Mono data gives the same sample to both channels.
pub fn split_channels<T: Copy>(data: &[T], channels: usize) -> (lr: (Vec<T>, Vec<T>))
    requires
        splittable(data@.len(), channels as nat),
    ensures
        lr.0@.len() == frame_count(data@.len(), channels as nat),
        lr.1@.len() == frame_count(data@.len(), channels as nat),
        forall|k: int|
            0 <= k < lr.0@.len() ==> #[trigger] lr.0@[k] == data@[k * channels as int],
        forall|k: int|
            0 <= k < lr.1@.len() ==> #[trigger] lr.1@[k] == if channels > 1 {
                data@[k * channels as int + 1]
            } else {
                data@[k * channels as int]
            },
{
    let mut left: Vec<T> = Vec::new();
    let mut right: Vec<T> = Vec::new();
    let len = data.len();
    let mut pos: usize = 0;
    let ghost mut k: int = 0;
    proof {
        assert(frame_count(0, channels as nat) == 0) by {
            vstd::arithmetic::div_mod::lemma_basic_div(channels as int - 1, channels as int);
        }
    }
    while pos < len
        invariant
            len == data@.len(),
            splittable(len as nat, channels as nat),
            pos <= len,
            pos < len ==> pos == k * channels,
            pos == len ==> k == frame_count(len as nat, channels as nat),
            0 <= k,
            left@.len() == k,
            right@.len() == k,
            forall|m: int| 0 <= m < k ==> #[trigger] left@[m] == data@[m * channels as int],
            forall|m: int|
                0 <= m < k ==> #[trigger] right@[m] == if channels > 1 {
                    data@[m * channels as int + 1]
                } else {
                    data@[m * channels as int]
                },
        decreases len - pos,
    {
        proof {
            vstd::arithmetic::div_mod::lemma_mod_multiples_basic(k, channels as int);
            assert(pos as int == k * channels as int);
        }
        let l = data[pos];
        let r = if channels > 1 {
            proof {
                lemma_second_in_frame(len as int, pos as int, channels as int);
            }
            data[pos + 1]
        } else {
            l
        };
        left.push(l);
        right.push(r);
        if len - pos <= channels {
            proof {
                lemma_last_frame(len as int, k, channels as int);
            }
            pos = len;
        } else {
            proof {
                assert(pos + channels == (k + 1) * channels) by (nonlinear_arith)
                    requires
                        pos == k * channels,
                ;
            }
            pos = pos + channels;
        }
        proof {
            k = k + 1;
        }
    }
    (left, right)
}

proof fn lemma_second_in_frame(len: int, pos: int, channels: int)
    requires
        0 <= pos < len,
        channels > 1,
        len % channels != 1,
        pos % channels == 0,
    ensures
        pos + 1 < len,
{
    if pos + 1 >= len {
        assert(pos == len - 1);
        assert(len % channels == 1) by (nonlinear_arith)
            requires
                pos % channels == 0,
                len == pos + 1,
                channels > 1,
        ;
    }
}

proof fn lemma_last_frame(len: int, k: int, channels: int)
    requires
        channels > 0,
        0 <= k,
        0 < len - k * channels <= channels,
    ensures
        (len + channels - 1) / channels == k + 1,
{
    assert((k + 1) * channels == k * channels + channels) by (nonlinear_arith);
    vstd::arithmetic::div_mod::lemma_fundamental_div_mod_converse(
        len + channels - 1,
        channels,
        k + 1,
        len - 1 - k * channels,
    );
}

/// The longest prefix of `n` bytes that holds only whole stereo frames of two
/// 4-byte samples.
pub fn frame_aligned_len(n: usize) -> (r: usize)
    ensures
        r == n - n % 8,
        r % 8 == 0,
        r <= n < r + 8,
{
    n - n % 8
}

} // verus!
