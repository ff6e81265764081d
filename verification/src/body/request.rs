//! The body of a request read into one buffer preallocated from its
//! declared length, and into text.

use bytes::{Bytes, BytesMut};
use vstd::prelude::*;

use crate::bindings::byte_buf::{
    bytes_as_slice, bytes_into_vec, bytes_mut_capacity, bytes_mut_clear, bytes_mut_copy_to_bytes,
    bytes_mut_extend_from_slice, bytes_mut_len, bytes_mut_new, bytes_mut_reserve, bytes_mut_view,
    bytes_mut_with_capacity, bytes_new, bytes_view, bytes_mut_zero,
};
use crate::bindings::text::string_from_utf8;
use crate::error::Error;
use super::frames::{concat_bytes, lemma_appended_run};
use super::aggregate::{
    read_text_error_view, reserve_decision, reserve_error_view, reserve_outcome,
    ReserveOutcome, StreamEvent,
};

verus! {

/// The most that is preallocated for a body from its declared length.
pub const MAX_PREALLOC_SIZE: usize = 104857600;

/// The body of a request, with its declared length when there is one.
#[derive(Debug)]
pub struct RequestBody<B> {
    body: B,
    len: Option<usize>,
}

/// Reads a stream of data frames into one buffer. The caller polls the
/// stream and hands each outcome to `on_event`.
pub struct ReadIntoBytes<S> {
    buffer: BytesMut,
    stream: S,
}

/// Reads a stream of data frames into a UTF-8 text.
pub struct ReadIntoString<S> {
    future: ReadIntoBytes<S>,
}

/// How much to preallocate for a body of the declared length: nothing
/// without one, else the length but at most `MAX_PREALLOC_SIZE`.
pub open spec fn prealloc_size(len: Option<usize>) -> Option<usize> {
    match len {
        None => None,
        Some(v) => Some(if v < MAX_PREALLOC_SIZE { v } else { MAX_PREALLOC_SIZE }),
    }
}

/// A declared length is preallocated as it is up to `MAX_PREALLOC_SIZE`
/// bytes and capped there beyond; without a declared length nothing is.
pub proof fn lemma_preallocation_is_capped(len: Option<usize>)
    ensures
        len is None ==> prealloc_size(len) is None,
        len matches Some(v) ==> (prealloc_size(len) matches Some(x) && x <= v && x
            <= 104857600 && (v <= 104857600 ==> x == v) && (v >= 104857600 ==> x == 104857600)),
{
}

/// An empty buffer, with room reserved for a body of the declared length.
pub fn bytes_mut_with_capacity_for(capacity: Option<usize>) -> (r: BytesMut)
    ensures
        bytes_mut_view(r).len() == 0,
{
    match capacity {
        None => bytes_mut_new(),
        Some(value) => {
            let size = if value < MAX_PREALLOC_SIZE {
                value
            } else {
                MAX_PREALLOC_SIZE
            };
            bytes_mut_with_capacity(size)
        },
    }
}

/// The room to preallocate for a body of the declared length.
pub fn preallocation(capacity: Option<usize>) -> (r: Option<usize>)
    ensures
        r == prealloc_size(capacity),
{
    match capacity {
        None => None,
        Some(value) => Some(if value < MAX_PREALLOC_SIZE {
            value
        } else {
            MAX_PREALLOC_SIZE
        }),
    }
}

/// Reserves room for `additional` more bytes when the capacity is below
/// it, and fails when the capacity and the request together would exceed
/// `isize::MAX`. The contents are kept either way.
pub fn try_reserve(bytes: &mut BytesMut, additional: usize) -> (r: Result<(), Error>)
    ensures
        bytes_mut_view(*final(bytes)) == bytes_mut_view(*old(bytes)),
        exists|capacity: usize|
            capacity >= bytes_mut_view(*old(bytes)).len() && (r is Ok <==> #[trigger] reserve_outcome(
                capacity,
                additional,
            ) != ReserveOutcome::Refuse),
        r matches Err(e) ==> e.view() == reserve_error_view(),
        2 * additional <= isize::MAX ==> r is Ok,
{
    let capacity = bytes_mut_capacity(bytes);
    match reserve_decision(capacity, additional) {
        ReserveOutcome::Enough => Ok(()),
        ReserveOutcome::Grow => {
            bytes_mut_reserve(bytes, additional);
            Ok(())
        },
        ReserveOutcome::Refuse => Err(
            Error::internal_server_error(
                "failed to reserve enough capacity for the next frame.".to_string(),
            ),
        ),
    }
}

impl<B> RequestBody<B> {
    /// The wrapped body.
    pub closed spec fn spec_body(&self) -> B {
        self.body
    }

    /// The declared length, if any.
    pub closed spec fn spec_len(&self) -> Option<usize> {
        self.len
    }

    /// A body without a declared length.
    pub fn new(body: B) -> (r: RequestBody<B>)
        ensures
            r.spec_body() == body,
            r.spec_len() is None,
    {
        RequestBody { body, len: None }
    }

    /// A body with a declared length.
    pub fn with_len(body: B, len: usize) -> (r: RequestBody<B>)
        ensures
            r.spec_body() == body,
            r.spec_len() == Some(len),
    {
        RequestBody { body, len: Some(len) }
    }

    /// The wrapped body, as the stream its frames are read from.
    pub fn into_stream(self) -> (r: B)
        ensures
            r == self.spec_body(),
    {
        self.body
    }

    /// A reader of the body into one buffer, preallocated from the declared
    /// length.
    pub fn read_into_bytes(self) -> (r: ReadIntoBytes<B>)
        ensures
            r.spec_buffer().len() == 0,
            r.spec_stream() == self.spec_body(),
    {
        let buffer = bytes_mut_with_capacity_for(self.len);
        ReadIntoBytes::new(buffer, self.body)
    }

    /// A reader of the body into text.
    pub fn read_into_string(self) -> (r: ReadIntoString<B>)
        ensures
            r.spec_buffer().len() == 0,
            r.spec_stream() == self.spec_body(),
    {
        ReadIntoString::new(self.read_into_bytes())
    }
}

impl<S> ReadIntoBytes<S> {
    /// The bytes read so far.
    pub closed spec fn spec_buffer(&self) -> Seq<u8> {
        bytes_mut_view(self.buffer)
    }

    /// The stream being read.
    pub closed spec fn spec_stream(&self) -> S {
        self.stream
    }

    /// A reader that appends the frames of `stream` to `buffer`.
    pub fn new(buffer: BytesMut, stream: S) -> (r: ReadIntoBytes<S>)
        ensures
            r.spec_buffer() == bytes_mut_view(buffer),
            r.spec_stream() == stream,
    {
        ReadIntoBytes { buffer, stream }
    }

    /// The stream, to be polled for its next frame.
    pub fn stream_mut(&mut self) -> (r: &mut S)
        ensures
            *r == old(self).spec_stream(),
            final(self).spec_stream() == *final(r),
            final(self).spec_buffer() == old(self).spec_buffer(),
    {
        &mut self.stream
    }

    /// Zeroes the buffer and then empties it, so that no byte of a failed
    /// read stays behind.
    fn wipe(&mut self)
        ensures
            final(self).spec_buffer().len() == 0,
            final(self).spec_stream() == old(self).spec_stream(),
    {
        bytes_mut_zero(&mut self.buffer);
        bytes_mut_clear(&mut self.buffer);
    }

    /// Takes in what the stream yielded. `None` means that the stream must
    /// be polled again. A frame is appended to the buffer when room can be
    /// made for it; otherwise the buffer is wiped and the read fails. An
    /// error of the stream wipes the buffer and fails the read; the end of
    /// the stream ends it with the bytes read, leaving the buffer empty.
    pub fn on_event(&mut self, event: StreamEvent) -> (r: Option<Result<Bytes, Error>>)
        ensures
            final(self).spec_stream() == old(self).spec_stream(),
            match event {
                StreamEvent::Frame(frame) => {
                    ||| r is None && final(self).spec_buffer() == old(self).spec_buffer()
                        + bytes_view(frame)
                    ||| r matches Some(Err(e)) && e.view() == reserve_error_view()
                        && final(self).spec_buffer().len() == 0 && 2 * bytes_view(frame).len()
                        > isize::MAX
                },
                StreamEvent::Failed(e) => r matches Some(Err(x)) && x.view() == e.view()
                    && final(self).spec_buffer().len() == 0,
                StreamEvent::End => r matches Some(Ok(bytes)) && bytes_view(bytes)
                    == old(self).spec_buffer() && final(self).spec_buffer().len() == 0,
            },
    {
        match event {
            StreamEvent::Frame(frame) => {
                let data = bytes_as_slice(&frame);
                match try_reserve(&mut self.buffer, data.len()) {
                    Err(error) => {
                        self.wipe();
                        Some(Err(error))
                    },
                    Ok(()) => {
                        bytes_mut_extend_from_slice(&mut self.buffer, data);
                        None
                    },
                }
            },
            StreamEvent::Failed(error) => {
                self.wipe();
                Some(Err(error))
            },
            StreamEvent::End => {
                let len = bytes_mut_len(&self.buffer);
                if len == 0 {
                    return Some(Ok(bytes_new()));
                }
                let bytes = bytes_mut_copy_to_bytes(&mut self.buffer, len);
                Some(Ok(bytes))
            },
        }
    }
}

/// Reading a stream into bytes collects every frame: over a run of
/// readers, each the one before after a frame that `on_event` appended,
/// the last holds what the first held followed by all the frames in
/// order, and that is what the end of the stream yields.
pub proof fn lemma_read_into_bytes_collects_frames<S>(
    readers: Seq<ReadIntoBytes<S>>,
    frames: Seq<Bytes>,
)
    requires
        readers.len() == frames.len() + 1,
        forall|i: int|
            0 <= i < frames.len() ==> #[trigger] readers[i + 1].spec_buffer() == readers[i].spec_buffer()
                + bytes_view(frames[i]),
    ensures
        readers.last().spec_buffer() == readers[0].spec_buffer() + concat_bytes(frames),
{
    let buffers = readers.map_values(|r: ReadIntoBytes<S>| r.spec_buffer());
    assert forall|i: int| 0 <= i < frames.len() implies #[trigger] buffers[i + 1] == buffers[i]
        + bytes_view(frames[i]) by {
        assert(readers[i + 1].spec_buffer() == readers[i].spec_buffer() + bytes_view(frames[i]));
    }
    lemma_appended_run(buffers, frames);
}

impl<S> ReadIntoString<S> {
    /// The bytes read so far.
    pub closed spec fn spec_buffer(&self) -> Seq<u8> {
        self.future.spec_buffer()
    }

    /// The stream being read.
    pub closed spec fn spec_stream(&self) -> S {
        self.future.spec_stream()
    }

    /// A reader into text on top of a reader into bytes.
    pub fn new(future: ReadIntoBytes<S>) -> (r: ReadIntoString<S>)
        ensures
            r.spec_buffer() == future.spec_buffer(),
            r.spec_stream() == future.spec_stream(),
    {
        ReadIntoString { future }
    }

    /// The stream, to be polled for its next frame.
    pub fn stream_mut(&mut self) -> (r: &mut S)
        ensures
            *r == old(self).spec_stream(),
            final(self).spec_stream() == *final(r),
            final(self).spec_buffer() == old(self).spec_buffer(),
    {
        self.future.stream_mut()
    }

    /// Takes in what the stream yielded, as `ReadIntoBytes::on_event` does,
    /// and decodes the bytes read as UTF-8 once the stream ended; bytes that
    /// are not valid UTF-8 fail with `500 Internal Server Error`.
    pub fn on_event(&mut self, event: StreamEvent) -> (r: Option<Result<String, Error>>)
        ensures
            final(self).spec_stream() == old(self).spec_stream(),
            match event {
                StreamEvent::Frame(frame) => {
                    ||| r is None && final(self).spec_buffer() == old(self).spec_buffer()
                        + bytes_view(frame)
                    ||| r matches Some(Err(e)) && e.view() == reserve_error_view()
                        && final(self).spec_buffer().len() == 0 && 2 * bytes_view(frame).len()
                        > isize::MAX
                },
                StreamEvent::Failed(e) => r matches Some(Err(x)) && x.view() == e.view()
                    && final(self).spec_buffer().len() == 0,
                StreamEvent::End => final(self).spec_buffer().len() == 0 && if vstd::utf8::valid_utf8(
                    old(self).spec_buffer(),
                ) {
                    r matches Some(Ok(s)) && s@ == vstd::utf8::decode_utf8(old(self).spec_buffer())
                } else {
                    r matches Some(Err(x)) && x.view() == read_text_error_view(
                        old(self).spec_buffer(),
                    )
                },
            },
    {
        match self.future.on_event(event) {
            None => None,
            Some(Err(error)) => Some(Err(error)),
            Some(Ok(bytes)) => {
                let utf8 = bytes_into_vec(bytes);
                match string_from_utf8(utf8) {
                    Ok(text) => Some(Ok(text)),
                    Err(error) => Some(Err(Error::internal_server_error(error))),
                }
            },
        }
    }
}

} // verus!
