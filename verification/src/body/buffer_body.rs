//! A body whose data is fully buffered in memory and read in bounded frames.

use bytes::Bytes;
use vstd::prelude::*;

use crate::bindings::byte_buf::{bytes_view, bytes_new, bytes_from_vec, bytes_copy_from_slice, bytes_len, bytes_split_to};
use super::frames::{first_frame_len, frames_of};
use http_body::SizeHint;
use crate::bindings::body_hint::{size_hint_bounds, size_hint_with_exact};

verus! {

/// The maximum amount of data that can be read from a buffered body per frame.
pub const MAX_FRAME_LEN: usize = 8192;

/// A buffered body that is read in frames of at most `MAX_FRAME_LEN` bytes.
#[derive(Debug)]
pub struct BufferBody {
    data: Bytes,
}

impl View for BufferBody {
    type V = Seq<u8>;

    /// The bytes that remain to be read.
    closed spec fn view(&self) -> Seq<u8> {
        bytes_view(self.data)
    }
}

impl BufferBody {
    /// An empty body.
    pub fn new() -> (r: BufferBody)
        ensures
            r@ == Seq::<u8>::empty(),
    {
        BufferBody { data: bytes_new() }
    }

    /// A body holding the given buffer.
    pub fn from_bytes(data: Bytes) -> (r: BufferBody)
        ensures
            r@ == bytes_view(data),
    {
        BufferBody { data }
    }

    /// A body holding the given bytes.
    pub fn from_vec(data: Vec<u8>) -> (r: BufferBody)
        ensures
            r@ == data@,
    {
        BufferBody { data: bytes_from_vec(data) }
    }

    /// A body holding a copy of the given bytes.
    pub fn from_slice(data: &[u8]) -> (r: BufferBody)
        ensures
            r@ == data@,
    {
        BufferBody { data: bytes_copy_from_slice(data) }
    }

    /// A body holding the UTF-8 encoding of the given text.
    pub fn from_str(data: &str) -> (r: BufferBody)
        ensures
            r@ == vstd::utf8::encode_utf8(data@),
    {
        BufferBody { data: bytes_copy_from_slice(data.as_bytes()) }
    }

    /// Reads the next frame: `None` once no data remains, otherwise the next
    /// `min(remaining, MAX_FRAME_LEN)` bytes, which are removed from the body.
    pub fn poll_frame(&mut self) -> (r: Option<Bytes>)
        ensures
            old(self)@.len() == 0 ==> r is None && final(self)@ == old(self)@,
            old(self)@.len() > 0 ==> (r matches Some(frame) && {
                let n = first_frame_len(old(self)@.len(), MAX_FRAME_LEN as nat);
                &&& bytes_view(frame) == old(self)@.take(n as int)
                &&& final(self)@ == old(self)@.skip(n as int)
                &&& frames_of(old(self)@, MAX_FRAME_LEN as nat) == seq![bytes_view(frame)]
                    + frames_of(final(self)@, MAX_FRAME_LEN as nat)
            }),
    {
        let remaining = bytes_len(&self.data);
        if remaining == 0 {
            None
        } else {
            let n = if remaining < MAX_FRAME_LEN { remaining } else { MAX_FRAME_LEN };
            Some(bytes_split_to(&mut self.data, n))
        }
    }

    /// True when no data remains.
    pub fn is_end_stream(&self) -> (r: bool)
        ensures
            r == (self@.len() == 0),
    {
        bytes_len(&self.data) == 0
    }

    /// The exact number of bytes that remain.
    pub fn size_hint(&self) -> (r: SizeHint)
        ensures
            size_hint_bounds(r) == (self@.len() as u64, Some(self@.len() as u64)),
    {
        size_hint_with_exact(bytes_len(&self.data) as u64)
    }
}

impl Default for BufferBody {
    /// An empty body.
    fn default() -> (r: BufferBody)
        ensures
            r@ == Seq::<u8>::empty(),
    {
        BufferBody::new()
    }
}

} // verus!
