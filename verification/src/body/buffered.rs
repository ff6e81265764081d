//! Bodies whose data is already in memory, read in frames of at most 16KB.

use bytes::{Bytes, BytesMut};
use vstd::prelude::*;

use crate::bindings::byte_buf::{
    bytes_as_slice, bytes_copy_from_slice, bytes_mut_freeze, bytes_mut_from_bytes, bytes_mut_len,
    bytes_mut_split_to, bytes_mut_view, bytes_view,
};
use super::frames::{first_frame_len, frames_of};
use http_body::SizeHint;
use crate::bindings::body_hint::{size_hint_bounds, size_hint_with_exact};

verus! {

/// The maximum amount of data that is read from a buffered body per frame.
pub const MAX_BUFFERED_FRAME_LEN: usize = 16384;

/// A body used when the entire body is already in memory.
#[derive(Debug)]
pub struct BufferedBody {
    buf: BytesMut,
}

/// A buffered response body, used when the entire body is in memory.
#[derive(Debug)]
pub struct Buffered {
    buffer: BytesMut,
}

/// What reading one frame from a buffer of `old` bytes gives: `None` when
/// it is empty, otherwise its first `min(len, MAX_BUFFERED_FRAME_LEN)`
/// bytes, the buffer keeping the rest.
pub open spec fn read_frame(old: Seq<u8>, frame: Option<Seq<u8>>, new: Seq<u8>) -> bool {
    if old.len() == 0 {
        frame is None && new == old
    } else {
        let n = first_frame_len(old.len(), MAX_BUFFERED_FRAME_LEN as nat);
        &&& frame == Some(old.take(n as int))
        &&& new == old.skip(n as int)
        &&& frames_of(old, MAX_BUFFERED_FRAME_LEN as nat) == seq![old.take(n as int)] + frames_of(
            new,
            MAX_BUFFERED_FRAME_LEN as nat,
        )
    }
}

/// The view of an optional frame.
pub open spec fn frame_view(f: Option<Bytes>) -> Option<Seq<u8>> {
    match f {
        Some(b) => Some(bytes_view(b)),
        None => None,
    }
}

/// The size hint of a buffer of `len` bytes: exact when the length fits in
/// a `u64`, which it always does.
pub open spec fn exact_hint(len: nat) -> (u64, Option<u64>) {
    (len as u64, Some(len as u64))
}

/// Takes the next frame of at most `MAX_BUFFERED_FRAME_LEN` bytes off the
/// front of a buffer.
fn take_frame(buf: &mut BytesMut) -> (r: Option<Bytes>)
    ensures
        read_frame(bytes_mut_view(*old(buf)), frame_view(r), bytes_mut_view(*final(buf))),
{
    let len = bytes_mut_len(buf);
    let frame_len = if len < MAX_BUFFERED_FRAME_LEN {
        len
    } else {
        MAX_BUFFERED_FRAME_LEN
    };
    if frame_len == 0 {
        return None;
    }
    let data = bytes_mut_freeze(bytes_mut_split_to(buf, frame_len));
    Some(data)
}

impl BufferedBody {
    /// The bytes that remain to be read.
    pub closed spec fn spec_data(&self) -> Seq<u8> {
        bytes_mut_view(self.buf)
    }

    /// A body holding a copy of the given bytes.
    pub fn new(data: &[u8]) -> (r: BufferedBody)
        ensures
            r.spec_data() == data@,
    {
        let unique = bytes_copy_from_slice(data);
        BufferedBody { buf: bytes_mut_from_bytes(unique) }
    }

    /// A body holding a copy of the bytes of the buffer.
    pub fn from_bytes(data: Bytes) -> (r: BufferedBody)
        ensures
            r.spec_data() == bytes_view(data),
    {
        BufferedBody::new(bytes_as_slice(&data))
    }

    /// A body holding a copy of the given bytes.
    pub fn from_vec(data: Vec<u8>) -> (r: BufferedBody)
        ensures
            r.spec_data() == data@,
    {
        BufferedBody::new(data.as_slice())
    }

    /// A body holding the UTF-8 encoding of the given text.
    pub fn from_str(data: &str) -> (r: BufferedBody)
        ensures
            r.spec_data() == vstd::utf8::encode_utf8(data@),
    {
        BufferedBody::new(data.as_bytes())
    }

    /// True when no data remains.
    pub fn is_empty(&self) -> (r: bool)
        ensures
            r == (self.spec_data().len() == 0),
    {
        bytes_mut_len(&self.buf) == 0
    }

    /// The number of bytes that remain.
    pub fn len(&self) -> (r: usize)
        ensures
            r == self.spec_data().len(),
    {
        bytes_mut_len(&self.buf)
    }

    /// Reads the next frame: `None` once no data remains, otherwise the next
    /// `min(remaining, MAX_BUFFERED_FRAME_LEN)` bytes.
    pub fn poll_frame(&mut self) -> (r: Option<Bytes>)
        ensures
            read_frame(old(self).spec_data(), frame_view(r), final(self).spec_data()),
    {
        take_frame(&mut self.buf)
    }

    /// True when no data remains.
    pub fn is_end_stream(&self) -> (r: bool)
        ensures
            r == (self.spec_data().len() == 0),
    {
        self.is_empty()
    }

    /// The exact number of bytes that remain.
    pub fn size_hint(&self) -> (r: SizeHint)
        ensures
            size_hint_bounds(r) == exact_hint(self.spec_data().len()),
    {
        size_hint_with_exact(self.len() as u64)
    }
}

impl Default for BufferedBody {
    /// An empty body.
    fn default() -> (r: BufferedBody)
        ensures
            r.spec_data().len() == 0,
    {
        let empty: [u8; 0] = [];
        BufferedBody::new(&empty)
    }
}

impl Buffered {
    /// The bytes that remain to be read.
    pub closed spec fn spec_data(&self) -> Seq<u8> {
        bytes_mut_view(self.buffer)
    }

    /// A body reading the given buffer.
    pub fn new(buffer: BytesMut) -> (r: Buffered)
        ensures
            r.spec_data() == bytes_mut_view(buffer),
    {
        Buffered { buffer }
    }

    /// True when no data remains.
    pub fn is_empty(&self) -> (r: bool)
        ensures
            r == (self.spec_data().len() == 0),
    {
        bytes_mut_len(&self.buffer) == 0
    }

    /// The number of bytes that remain.
    pub fn len(&self) -> (r: usize)
        ensures
            r == self.spec_data().len(),
    {
        bytes_mut_len(&self.buffer)
    }

    /// Reads the next frame: `None` once no data remains, otherwise the next
    /// `min(remaining, MAX_BUFFERED_FRAME_LEN)` bytes.
    pub fn poll_frame(&mut self) -> (r: Option<Bytes>)
        ensures
            read_frame(old(self).spec_data(), frame_view(r), final(self).spec_data()),
    {
        take_frame(&mut self.buffer)
    }

    /// True when no data remains.
    pub fn is_end_stream(&self) -> (r: bool)
        ensures
            r == (self.spec_data().len() == 0),
    {
        self.is_empty()
    }

    /// The exact number of bytes that remain.
    pub fn size_hint(&self) -> (r: SizeHint)
        ensures
            size_hint_bounds(r) == exact_hint(self.spec_data().len()),
    {
        size_hint_with_exact(self.len() as u64)
    }
}

} // verus!
