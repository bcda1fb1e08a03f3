//! Layout of sample streams: interleaved channels, fixed-size frames, and the
//! sign pattern from which the zero-crossing rate is taken.

use vstd::prelude::*;

verus! {

/// Frames per channel that are gathered before each resampling pass.
pub const RESAMPLER_CHUNK_SIZE: usize = 1024;

/// Splits interleaved samples into one sequence per channel: channel `ch`
/// receives `input[i * channels + ch]` for every whole frame `i`; a trailing
/// partial frame is ignored.
pub fn deinterleave<S: Copy>(input: &[S], channels: usize) -> (out: Vec<Vec<S>>)
    requires
        channels > 0,
    ensures
        out@.len() == channels,
        forall|ch: int|
            0 <= ch < channels ==> #[trigger] out@[ch]@.len() == input@.len() as int / (channels as int),
        forall|ch: int, i: int|
            0 <= ch < channels && 0 <= i < input@.len() as int / (channels as int) ==> #[trigger] out@[ch]@[i]
                == input@[i * channels + ch],
{
    let len = input.len();
    let frames = len / channels;
    let mut out: Vec<Vec<S>> = Vec::new();
    let mut ch: usize = 0;
    while ch < channels
        invariant
            ch <= channels,
            channels > 0,
            len == input@.len(),
            frames == input@.len() as int / (channels as int),
            out@.len() == ch,
            forall|c: int| 0 <= c < ch ==> #[trigger] out@[c]@.len() == frames,
            forall|c: int, i: int|
                0 <= c < ch && 0 <= i < frames ==> #[trigger] out@[c]@[i] == input@[i * channels + c],
        decreases channels - ch,
    {
        let mut lane: Vec<S> = Vec::with_capacity(frames);
        let mut i: usize = 0;
        while i < frames
            invariant
                i <= frames,
                ch < channels,
                channels > 0,
                len == input@.len(),
                frames == input@.len() as int / (channels as int),
                lane@.len() == i,
                forall|j: int| 0 <= j < i ==> #[trigger] lane@[j] == input@[j * channels + ch],
            decreases frames - i,
        {
            proof {
                lemma_frame_index_in_bounds(i as int, ch as int, channels as int, input@.len() as int);
            }
            lane.push(input[i * channels + ch]);
            i = i + 1;
        }
        out.push(lane);
        ch = ch + 1;
    }
    out
}

/// A sample of a whole frame lies inside the input.
proof fn lemma_frame_index_in_bounds(i: int, ch: int, channels: int, len: int)
    requires
        0 <= i < len / channels,
        0 <= ch < channels,
        channels > 0,
        len >= 0,
    ensures
        0 <= i * channels + ch < len,
{
    assert(i * channels + ch < len) by (nonlinear_arith)
        requires
            0 <= i < len / channels,
            0 <= ch < channels,
            channels > 0,
            len >= 0,
    {
        assert(i + 1 <= len / channels);
        assert((i + 1) * channels <= (len / channels) * channels);
        assert((len / channels) * channels <= len);
    }
    assert(0 <= i * channels) by (nonlinear_arith)
        requires
            0 <= i,
            channels > 0,
    ;
}

/// The first channel of a resampler's output, or nothing when there is no channel.
pub fn first_channel<S>(output: Vec<Vec<S>>) -> (lane: Vec<S>)
    ensures
        output@.len() == 0 ==> lane@ == Seq::<S>::empty(),
        output@.len() > 0 ==> lane == output@[0],
{
    let mut output = output;
    if output.len() == 0 {
        return Vec::new();
    }
    output.swap_remove(0)
}

/// The whole frames of `size` samples that `samples` contains, in order; a
/// trailing partial frame is dropped.
pub fn full_frames<S: Copy>(samples: &[S], size: usize) -> (frames: Vec<Vec<S>>)
    requires
        size > 0,
    ensures
        frames@.len() == samples@.len() as int / (size as int),
        forall|k: int|
            0 <= k < frames@.len() ==> #[trigger] frames@[k]@ == samples@.subrange(
                k * size,
                (k + 1) * size,
            ),
{
    let len = samples.len();
    let count = len / size;
    let mut frames: Vec<Vec<S>> = Vec::new();
    let mut k: usize = 0;
    let mut start: usize = 0;
    while k < count
        invariant
            k <= count,
            size > 0,
            len == samples@.len(),
            count == samples@.len() as int / (size as int),
            start == k * size,
            frames@.len() == k,
            forall|j: int|
                0 <= j < k ==> #[trigger] frames@[j]@ == samples@.subrange(j * size, (j + 1) * size),
        decreases count - k,
    {
        proof {
            assert((k + 1) * size <= samples@.len()) by (nonlinear_arith)
                requires
                    k < count,
                    count == samples@.len() as int / (size as int),
                    size > 0,
            {
                assert((k + 1) * size <= count * size);
                assert(count * size <= samples@.len());
            }
            assert((k + 1) * size == k * size + size) by (nonlinear_arith);
        }
        let mut frame: Vec<S> = Vec::with_capacity(size);
        let mut i: usize = 0;
        while i < size
            invariant
                i <= size,
                size > 0,
                len == samples@.len(),
                start + size <= samples@.len(),
                frame@ == samples@.subrange(start as int, start + i),
            decreases size - i,
        {
            frame.push(samples[start + i]);
            i = i + 1;
            assert(frame@ == samples@.subrange(start as int, start + i));
        }
        frames.push(frame);
        start = start + size;
        k = k + 1;
    }
    frames
}

/// Where a sample lies with respect to zero; a sample that compares with
/// nothing (a NaN) is `Unordered`.
#[derive(Debug, Clone, Copy, PartialEq, Eq)]
pub enum SampleSign {
    /// Zero or above.
    NonNegative,
    /// Below zero.
    Negative,
    /// Neither (not a number).
    Unordered,
}

/// Whether a signal crosses zero between neighbouring samples with these signs.
pub open spec fn crosses(a: SampleSign, b: SampleSign) -> bool {
    ||| (a is NonNegative && b is Negative)
    ||| (a is Negative && b is NonNegative)
}

fn crosses_between(a: SampleSign, b: SampleSign) -> (r: bool)
    ensures
        r == crosses(a, b),
{
    match (a, b) {
        (SampleSign::NonNegative, SampleSign::Negative) => true,
        (SampleSign::Negative, SampleSign::NonNegative) => true,
        _ => false,
    }
}

/// How many neighbouring pairs of `signs` cross zero.
pub open spec fn sign_changes(signs: Seq<SampleSign>) -> nat
    decreases signs.len(),
{
    if signs.len() < 2 {
        0
    } else {
        sign_changes(signs.drop_last()) + if crosses(signs[signs.len() - 2], signs.last()) {
            1nat
        } else {
            0nat
        }
    }
}

/// The zero-crossing count grows by one exactly when a sample whose sign is
/// known follows a sample of the opposite known sign: two samples of the same
/// sign, or a pair with a sample that compares with nothing, add nothing.
pub proof fn lemma_sign_changes_extend(signs: Seq<SampleSign>, next: SampleSign)
    requires
        signs.len() >= 1,
    ensures
        (signs.last() == SampleSign::NonNegative && next == SampleSign::Negative) ==> sign_changes(
            signs.push(next),
        ) == sign_changes(signs) + 1,
        (signs.last() == SampleSign::Negative && next == SampleSign::NonNegative) ==> sign_changes(
            signs.push(next),
        ) == sign_changes(signs) + 1,
        signs.last() == next ==> sign_changes(signs.push(next)) == sign_changes(signs),
        (signs.last() == SampleSign::Unordered || next == SampleSign::Unordered) ==> sign_changes(
            signs.push(next),
        ) == sign_changes(signs),
{
    let t = signs.push(next);
    assert(t.drop_last() =~= signs);
    assert(t[t.len() - 2] == signs.last());
}

/// A signal that never goes below zero, or never reaches zero or above,
/// never crosses zero; and no signal crosses more often than it has
/// neighbouring pairs.
pub proof fn lemma_sign_changes_bounds(signs: Seq<SampleSign>)
    ensures
        (forall|i: int| 0 <= i < signs.len() ==> #[trigger] signs[i] != SampleSign::Negative)
            ==> sign_changes(signs) == 0,
        (forall|i: int| 0 <= i < signs.len() ==> #[trigger] signs[i] != SampleSign::NonNegative)
            ==> sign_changes(signs) == 0,
        signs.len() >= 1 ==> sign_changes(signs) <= signs.len() - 1,
    decreases signs.len(),
{
    if signs.len() >= 2 {
        let d = signs.drop_last();
        lemma_sign_changes_bounds(d);
        if forall|i: int| 0 <= i < signs.len() ==> #[trigger] signs[i] != SampleSign::Negative {
            assert forall|i: int| 0 <= i < d.len() implies #[trigger] d[i] != SampleSign::Negative by {
                assert(d[i] == signs[i]);
            }
            assert(signs[signs.len() - 1] != SampleSign::Negative);
            assert(signs[signs.len() - 2] != SampleSign::Negative);
        }
        if forall|i: int| 0 <= i < signs.len() ==> #[trigger] signs[i] != SampleSign::NonNegative {
            assert forall|i: int| 0 <= i < d.len() implies #[trigger] d[i] != SampleSign::NonNegative by {
                assert(d[i] == signs[i]);
            }
            assert(signs[signs.len() - 1] != SampleSign::NonNegative);
            assert(signs[signs.len() - 2] != SampleSign::NonNegative);
        }
    }
}

/// Counts the zero crossings of a signal given by the signs of its samples.
pub fn count_sign_changes(signs: &[SampleSign]) -> (n: usize)
    ensures
        n == sign_changes(signs@),
{
    if signs.len() < 2 {
        return 0;
    }
    let mut n: usize = 0;
    let mut i: usize = 1;
    while i < signs.len()
        invariant
            1 <= i <= signs@.len(),
            n == sign_changes(signs@.subrange(0, i as int)),
            n < i,
        decreases signs@.len() - i,
    {
        assert(signs@.subrange(0, i as int + 1).drop_last() == signs@.subrange(0, i as int));
        if crosses_between(signs[i - 1], signs[i]) {
            n = n + 1;
        }
        i = i + 1;
    }
    assert(signs@.subrange(0, signs@.len() as int) == signs@);
    n
}

/// Samples gathered before one resampling pass over `channels` interleaved
/// channels, or `None` when that count does not fit in a `usize`.
pub fn batch_target(channels: usize) -> (target: Option<usize>)
    ensures
        target is Some <==> RESAMPLER_CHUNK_SIZE * channels <= usize::MAX,
        target matches Some(t) ==> t == RESAMPLER_CHUNK_SIZE * channels,
{
    RESAMPLER_CHUNK_SIZE.checked_mul(channels)
}

} // verus!
