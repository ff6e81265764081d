//! The frames that a buffered body is read in, as sequences of bytes.

use bytes::Bytes;
use vstd::prelude::*;

use crate::bindings::byte_buf::bytes_view;

verus! {

/// The concatenation of the bytes of a sequence of buffers.
pub open spec fn concat_bytes(s: Seq<Bytes>) -> Seq<u8>
    decreases s.len(),
{
    if s.len() == 0 {
        Seq::empty()
    } else {
        bytes_view(s[0]) + concat_bytes(s.drop_first())
    }
}

/// Appending a buffer appends its bytes to the concatenation.
pub proof fn lemma_concat_bytes_push(s: Seq<Bytes>, b: Bytes)
    ensures
        concat_bytes(s.push(b)) == concat_bytes(s) + bytes_view(b),
    decreases s.len(),
{
    if s.len() == 0 {
        assert(s.push(b).drop_first() =~= Seq::<Bytes>::empty());
        assert(concat_bytes(Seq::<Bytes>::empty()) == Seq::<u8>::empty());
        assert(concat_bytes(s.push(b)) == bytes_view(b) + concat_bytes(Seq::<Bytes>::empty()));
        assert(concat_bytes(s.push(b)) =~= bytes_view(b));
    } else {
        assert(s.push(b).drop_first() =~= s.drop_first().push(b));
        lemma_concat_bytes_push(s.drop_first(), b);
        assert(concat_bytes(s.push(b)) =~= concat_bytes(s) + bytes_view(b));
    }
}

/// A buffer that each of a run of frames was appended to, in turn, ends up
/// holding what it started with followed by all the frames in order.
pub proof fn lemma_appended_run(buffers: Seq<Seq<u8>>, frames: Seq<Bytes>)
    requires
        buffers.len() == frames.len() + 1,
        forall|i: int|
            0 <= i < frames.len() ==> #[trigger] buffers[i + 1] == buffers[i] + bytes_view(
                frames[i],
            ),
    ensures
        buffers.last() == buffers[0] + concat_bytes(frames),
    decreases frames.len(),
{
    if frames.len() == 0 {
        assert(buffers[0] + concat_bytes(frames) =~= buffers[0]);
    } else {
        let n = frames.len() - 1;
        let fs = frames.drop_last();
        let bs = buffers.drop_last();
        assert forall|i: int| 0 <= i < fs.len() implies #[trigger] bs[i + 1] == bs[i] + bytes_view(
            fs[i],
        ) by {
            assert(buffers[i + 1] == buffers[i] + bytes_view(frames[i]));
        }
        lemma_appended_run(bs, fs);
        lemma_concat_bytes_push(fs, frames[n]);
        assert(fs.push(frames[n]) =~= frames);
        assert(buffers[n + 1] == buffers[n] + bytes_view(frames[n]));
        assert(buffers.last() =~= buffers[0] + concat_bytes(frames));
    }
}

/// The bytes of each buffer of a sequence.
pub open spec fn bytes_views(s: Seq<Bytes>) -> Seq<Seq<u8>> {
    s.map_values(|b: Bytes| bytes_view(b))
}

/// The length of the first frame of `n` bytes when a frame holds at most
/// `max` bytes.
pub open spec fn first_frame_len(n: nat, max: nat) -> nat {
    if n < max {
        n
    } else {
        max
    }
}

/// The frames that `data` is read in when each frame holds at most `max`
/// bytes and takes as many as it may.
pub open spec fn frames_of(data: Seq<u8>, max: nat) -> Seq<Seq<u8>>
    decreases data.len(),
{
    if data.len() == 0 || max == 0 {
        Seq::empty()
    } else {
        let n = first_frame_len(data.len(), max);
        seq![data.take(n as int)] + frames_of(data.skip(n as int), max)
    }
}

/// The number of frames of at most `max` bytes that `len` bytes fill.
pub open spec fn frame_count(len: nat, max: nat) -> nat {
    if max == 0 {
        0
    } else {
        ((len + max - 1) / max as int) as nat
    }
}

/// Reading `data` in frames of at most `max` bytes gives back `data`: the
/// frames put together are the data, none is empty or longer than `max`,
/// and there are as many as `max`-byte pieces are needed to hold the data.
pub proof fn lemma_frames_of(data: Seq<u8>, max: nat)
    requires
        max > 0,
    ensures
        frames_of(data, max).flatten() == data,
        forall|i: int|
            0 <= i < frames_of(data, max).len() ==> 0 < #[trigger] frames_of(data, max)[i].len()
                <= max,
        frames_of(data, max).len() == frame_count(data.len(), max),
    decreases data.len(),
{
    let frames = frames_of(data, max);
    if data.len() == 0 {
        assert(frames =~= Seq::<Seq<u8>>::empty());
        assert((max - 1) / max as int == 0) by (nonlinear_arith)
            requires
                max > 0,
        ;
    } else {
        let n = first_frame_len(data.len(), max);
        let rest = data.skip(n as int);
        lemma_frames_of(rest, max);
        assert(frames[0] == data.take(n as int));
        assert(frames.drop_first() =~= frames_of(rest, max));
        assert(frames.first() + frames.drop_first().flatten() =~= data);
        assert forall|i: int| 0 <= i < frames.len() implies 0 < #[trigger] frames[i].len() <= max by {
            if i > 0 {
                assert(frames[i] == frames_of(rest, max)[i - 1]);
            }
        }
        let len = data.len() as int;
        let m = max as int;
        if len < m {
            assert(rest.len() == 0);
            assert((len + m - 1) / m == 1) by (nonlinear_arith)
                requires
                    0 < len < m,
            ;
        } else {
            assert(rest.len() == len - m);
            assert((len - m + m - 1) / m + 1 == (len + m - 1) / m) by (nonlinear_arith)
                requires
                    len >= m > 0,
            ;
        }
    }
}

} // verus!
