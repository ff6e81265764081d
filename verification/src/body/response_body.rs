//! A response body held in memory as a list of chunks that are read one per
//! frame.

use bytes::Bytes;
use vstd::prelude::*;
use vstd::slice::slice_subrange;

use crate::bindings::byte_buf::{bytes_as_slice, bytes_clone, bytes_copy_from_slice, bytes_len, bytes_view};
use crate::bindings::collections::vec_capacity;
use super::frames::{bytes_views, first_frame_len, frames_of, lemma_frames_of};
use http_body::SizeHint;
use crate::bindings::body_hint::{size_hint_bounds, size_hint_new, size_hint_with_exact};

verus! {

/// The maximum amount of data that one chunk of a response body holds.
pub const MAX_CHUNK_LEN: usize = 8192;

/// A buffered body that is read one chunk per frame; bodies made from bytes
/// are cut into chunks of at most `MAX_CHUNK_LEN` bytes.
#[derive(Debug)]
pub struct ResponseBody {
    offset: usize,
    chunks: Vec<Bytes>,
}

/// The total number of bytes in a list of chunks.
pub open spec fn total_len(s: Seq<Seq<u8>>) -> nat
    decreases s.len(),
{
    if s.len() == 0 {
        0
    } else {
        total_len(s.drop_last()) + s.last().len()
    }
}

/// The total number of bytes of the chunks is the length of their
/// concatenation.
pub proof fn lemma_total_len_flatten(s: Seq<Seq<u8>>)
    ensures
        total_len(s) == s.flatten().len(),
    decreases s.len(),
{
    s.lemma_flatten_and_flatten_alt_are_equivalent();
    if s.len() > 0 {
        lemma_total_len_flatten(s.drop_last());
        s.drop_last().lemma_flatten_and_flatten_alt_are_equivalent();
    }
}

impl ResponseBody {
    /// The index of the next chunk to read.
    pub closed spec fn spec_offset(&self) -> nat {
        self.offset as nat
    }

    /// The bytes of each chunk, those already read included.
    pub closed spec fn spec_chunks(&self) -> Seq<Seq<u8>> {
        bytes_views(self.chunks@)
    }

    /// A body that reads the given chunks in order.
    pub fn new(chunks: Vec<Bytes>) -> (r: ResponseBody)
        ensures
            r.spec_offset() == 0,
            r.spec_chunks() == bytes_views(chunks@),
    {
        ResponseBody { offset: 0, chunks }
    }

    /// A body holding a copy of the given bytes, cut into chunks of at most
    /// `MAX_CHUNK_LEN` bytes.
    pub fn from_slice(slice: &[u8]) -> (r: ResponseBody)
        ensures
            r.spec_offset() == 0,
            r.spec_chunks() == frames_of(slice@, MAX_CHUNK_LEN as nat),
    {
        let len = slice.len();
        let count = len / MAX_CHUNK_LEN + if len % MAX_CHUNK_LEN == 0 {
            0
        } else {
            1
        };
        let mut chunks: Vec<Bytes> = Vec::with_capacity(count);
        let mut start: usize = 0;
        let ghost max = MAX_CHUNK_LEN as nat;
        assert(slice@.skip(0) =~= slice@);
        assert(bytes_views(chunks@) =~= Seq::<Seq<u8>>::empty());
        assert(bytes_views(chunks@) + frames_of(slice@, max) =~= frames_of(slice@, max));
        while start < len
            invariant
                start <= len == slice@.len(),
                max == MAX_CHUNK_LEN,
                bytes_views(chunks@) + frames_of(slice@.skip(start as int), max) == frames_of(
                    slice@,
                    max,
                ),
            decreases len - start,
        {
            let end = if len - start < MAX_CHUNK_LEN {
                len
            } else {
                start + MAX_CHUNK_LEN
            };
            let ghost rest = slice@.skip(start as int);
            let ghost n = first_frame_len(rest.len(), max);
            assert(end - start == n);
            let part = slice_subrange(slice, start, end);
            assert(part@ =~= rest.take(n as int));
            assert(rest.skip(n as int) =~= slice@.skip(end as int));
            let ghost before = chunks@;
            chunks.push(bytes_copy_from_slice(part));
            assert(bytes_views(chunks@) =~= bytes_views(before).push(part@));
            assert(frames_of(rest, max) == seq![part@] + frames_of(slice@.skip(end as int), max));
            assert(bytes_views(chunks@) + frames_of(slice@.skip(end as int), max) =~= bytes_views(
                before,
            ) + frames_of(rest, max));
            start = end;
        }
        assert(frames_of(slice@.skip(len as int), max) =~= Seq::<Seq<u8>>::empty());
        assert(bytes_views(chunks@) + Seq::<Seq<u8>>::empty() =~= bytes_views(chunks@));
        ResponseBody { offset: 0, chunks }
    }

    /// A body holding a copy of the bytes of the buffer.
    pub fn from_bytes(data: Bytes) -> (r: ResponseBody)
        ensures
            r.spec_offset() == 0,
            r.spec_chunks() == frames_of(bytes_view(data), MAX_CHUNK_LEN as nat),
    {
        ResponseBody::from_slice(bytes_as_slice(&data))
    }

    /// A body holding a copy of the given bytes.
    pub fn from_vec(data: Vec<u8>) -> (r: ResponseBody)
        ensures
            r.spec_offset() == 0,
            r.spec_chunks() == frames_of(data@, MAX_CHUNK_LEN as nat),
    {
        ResponseBody::from_slice(data.as_slice())
    }

    /// A body holding the UTF-8 encoding of the given text.
    pub fn from_str(data: &str) -> (r: ResponseBody)
        ensures
            r.spec_offset() == 0,
            r.spec_chunks() == frames_of(vstd::utf8::encode_utf8(data@), MAX_CHUNK_LEN as nat),
    {
        ResponseBody::from_slice(data.as_bytes())
    }

    /// A body holding the UTF-8 encoding of the given text.
    pub fn from_string(data: String) -> (r: ResponseBody)
        ensures
            r.spec_offset() == 0,
            r.spec_chunks() == frames_of(vstd::utf8::encode_utf8(data@), MAX_CHUNK_LEN as nat),
    {
        ResponseBody::from_str(data.as_str())
    }

    /// Reads the next chunk: `None` once every chunk was read.
    pub fn poll_frame(&mut self) -> (r: Option<Bytes>)
        ensures
            final(self).spec_chunks() == old(self).spec_chunks(),
            old(self).spec_offset() < old(self).spec_chunks().len() ==> (r matches Some(frame)
                && bytes_view(frame) == old(self).spec_chunks()[old(self).spec_offset() as int]
                && final(self).spec_offset() == old(self).spec_offset() + 1),
            old(self).spec_offset() >= old(self).spec_chunks().len() ==> (r is None
                && final(self).spec_offset() == old(self).spec_offset()),
    {
        if self.offset < self.chunks.len() {
            let data = bytes_clone(&self.chunks[self.offset]);
            self.offset = self.offset + 1;
            Some(data)
        } else {
            None
        }
    }

    /// True once every chunk was read.
    pub fn is_end_stream(&self) -> (r: bool)
        ensures
            r == (self.spec_offset() >= self.spec_chunks().len()),
    {
        self.offset >= self.chunks.len()
    }

    /// The exact total length of all chunks, those already read included;
    /// no bounds when that total does not fit in a `u64`.
    pub fn size_hint(&self) -> (r: SizeHint)
        ensures
            total_len(self.spec_chunks()) <= u64::MAX ==> size_hint_bounds(r) == (
                total_len(self.spec_chunks()) as u64,
                Some(total_len(self.spec_chunks()) as u64),
            ),
            total_len(self.spec_chunks()) > u64::MAX ==> size_hint_bounds(r) == (0u64, None::<u64>),
    {
        let ghost chunks = self.spec_chunks();
        let mut total: u64 = 0;
        let mut i: usize = 0;
        while i < self.chunks.len()
            invariant
                i <= self.chunks@.len(),
                chunks == bytes_views(self.chunks@),
                total == total_len(chunks.take(i as int)),
            decreases self.chunks@.len() - i,
        {
            let n = bytes_len(&self.chunks[i]) as u64;
            assert(chunks.take(i + 1).drop_last() =~= chunks.take(i as int));
            assert(total_len(chunks.take(i + 1)) == total + n);
            match total.checked_add(n) {
                Some(sum) => {
                    total = sum;
                },
                None => {
                    proof {
                        lemma_total_len_monotone(chunks, (i + 1) as nat);
                    }
                    return size_hint_new();
                },
            }
            i += 1;
        }
        assert(chunks.take(i as int) =~= chunks);
        size_hint_with_exact(total)
    }

    /// The number of chunks, those already read included.
    pub fn chunk_count(&self) -> (r: usize)
        ensures
            r == self.spec_chunks().len(),
    {
        self.chunks.len()
    }

    /// How many chunks the list of chunks holds without reallocating.
    pub fn chunk_capacity(&self) -> (r: usize)
        ensures
            r >= self.spec_chunks().len(),
    {
        vec_capacity(&self.chunks)
    }
}

/// The total length of a prefix of the chunks is at most that of all of them.
pub proof fn lemma_total_len_monotone(s: Seq<Seq<u8>>, k: nat)
    requires
        k <= s.len(),
    ensures
        total_len(s.take(k as int)) <= total_len(s),
    decreases s.len(),
{
    if k < s.len() {
        assert(s.drop_last().take(k as int) =~= s.take(k as int));
        lemma_total_len_monotone(s.drop_last(), k);
    } else {
        assert(s.take(k as int) =~= s);
    }
}

impl Default for ResponseBody {
    /// A body with no chunks.
    fn default() -> (r: ResponseBody)
        ensures
            r.spec_offset() == 0,
            r.spec_chunks().len() == 0,
    {
        ResponseBody { offset: 0, chunks: Vec::new() }
    }
}

/// Reading a body made from bytes chunk by chunk gives back the bytes: the
/// chunks put together are the bytes, no chunk is empty or longer than
/// `MAX_CHUNK_LEN`, there are as many as `MAX_CHUNK_LEN`-byte pieces are
/// needed, and the size hint of the body is the number of bytes.
pub proof fn lemma_response_body_chunks(data: Seq<u8>)
    ensures
        frames_of(data, MAX_CHUNK_LEN as nat).flatten() == data,
        total_len(frames_of(data, MAX_CHUNK_LEN as nat)) == data.len(),
        forall|i: int|
            0 <= i < frames_of(data, MAX_CHUNK_LEN as nat).len() ==> 0
                < #[trigger] frames_of(data, MAX_CHUNK_LEN as nat)[i].len() <= MAX_CHUNK_LEN,
        frames_of(data, MAX_CHUNK_LEN as nat).len() == (data.len() + MAX_CHUNK_LEN - 1)
            / MAX_CHUNK_LEN as int,
{
    lemma_frames_of(data, MAX_CHUNK_LEN as nat);
    lemma_total_len_flatten(frames_of(data, MAX_CHUNK_LEN as nat));
}

} // verus!
