//! Reading a stream of data frames into one buffer, and into text.

use bytes::Bytes;
use vstd::prelude::*;

use crate::bindings::byte_buf::{bytes_as_slice, bytes_view};
use crate::bindings::collections::vec_capacity;
use crate::bindings::text::{string_from_utf8, utf8_error_text_of};
use crate::error::{Error, ErrorView};
use super::frames::{concat_bytes, lemma_appended_run};

verus! {

/// What reserving room for more bytes does, given the buffer's capacity.
#[derive(Clone, Copy, Debug, PartialEq, Eq, Structural)]
pub enum ReserveOutcome {
    /// The capacity already covers the request.
    Enough,
    /// The buffer grows by the request.
    Grow,
    /// The capacity and the request together would exceed `isize::MAX`.
    Refuse,
}

/// What reserving `additional` bytes in a buffer of the given capacity does.
pub open spec fn reserve_outcome(capacity: usize, additional: usize) -> ReserveOutcome {
    if capacity >= additional {
        ReserveOutcome::Enough
    } else if capacity + additional <= isize::MAX {
        ReserveOutcome::Grow
    } else {
        ReserveOutcome::Refuse
    }
}

/// Room is made only when it is missing: a capacity that covers the
/// request is enough; below it the buffer grows whenever capacity and
/// request together stay within `isize::MAX`, and the request is refused
/// only when they do not.
pub proof fn lemma_reserve_outcomes(capacity: usize, additional: usize)
    ensures
        additional <= capacity ==> reserve_outcome(capacity, additional) == ReserveOutcome::Enough,
        additional > capacity && capacity + additional <= isize::MAX ==> reserve_outcome(
            capacity,
            additional,
        ) == ReserveOutcome::Grow,
        reserve_outcome(capacity, additional) == ReserveOutcome::Refuse ==> (additional > capacity
            && capacity + additional > isize::MAX),
{
}

/// The text of the error for a frame that the buffer cannot make room for.
pub open spec fn reserve_error_text() -> Seq<char> {
    "failed to reserve enough capacity for the next frame."@
}

/// The error for a frame that the buffer cannot make room for.
pub open spec fn reserve_error_view() -> ErrorView {
    ErrorView { as_json: false, status: 500, error: reserve_error_text(), message: None }
}

/// The largest number of bytes that one allocation may hold.
pub fn max_alloc_size() -> (r: usize)
    ensures
        r == isize::MAX,
{
    isize::MAX as usize
}

/// Decides how to make room for `additional` more bytes in a buffer whose
/// capacity is `capacity`.
pub fn reserve_decision(capacity: usize, additional: usize) -> (r: ReserveOutcome)
    ensures
        r == reserve_outcome(capacity, additional),
{
    if capacity >= additional {
        return ReserveOutcome::Enough;
    }
    match capacity.checked_add(additional) {
        Some(total) => {
            if total <= max_alloc_size() {
                ReserveOutcome::Grow
            } else {
                ReserveOutcome::Refuse
            }
        },
        None => ReserveOutcome::Refuse,
    }
}

/// Reserves room for `additional` more bytes when the capacity is below
/// it, and fails when the capacity and the request together would exceed
/// `isize::MAX`. The contents are kept either way; a request of at most
/// half of `isize::MAX` always succeeds.
pub fn try_reserve(bytes: &mut Vec<u8>, additional: usize) -> (r: Result<(), Error>)
    ensures
        final(bytes)@ == old(bytes)@,
        exists|capacity: usize|
            capacity >= old(bytes)@.len() && (r is Ok <==> #[trigger] reserve_outcome(
                capacity,
                additional,
            ) != ReserveOutcome::Refuse),
        r matches Err(e) ==> e.view() == reserve_error_view(),
        2 * additional <= isize::MAX ==> r is Ok,
{
    let capacity = vec_capacity(bytes);
    match reserve_decision(capacity, additional) {
        ReserveOutcome::Enough => Ok(()),
        ReserveOutcome::Grow => {
            bytes.reserve(additional);
            Ok(())
        },
        ReserveOutcome::Refuse => Err(
            Error::internal_server_error(
                "failed to reserve enough capacity for the next frame.".to_string(),
            ),
        ),
    }
}

/// What a stream of data frames yielded when it was polled.
#[derive(Debug)]
pub enum StreamEvent {
    /// A data frame.
    Frame(Bytes),
    /// The stream failed.
    Failed(Error),
    /// The stream ended.
    End,
}

/// Reads a stream of data frames into one buffer. The caller polls the
/// stream and hands each outcome to `on_event`.
pub struct ReadIntoBytes<S> {
    buffer: Vec<u8>,
    stream: S,
}

/// Reads a stream of data frames into a UTF-8 text.
pub struct ReadIntoString<S> {
    future: ReadIntoBytes<S>,
}

/// The error for bytes that are not valid UTF-8 when read into text:
/// `500 Internal Server Error` with the text of the decoding error.
pub open spec fn read_text_error_view(bytes: Seq<u8>) -> ErrorView {
    ErrorView { as_json: false, status: 500, error: utf8_error_text_of(bytes), message: None }
}

impl<S> ReadIntoBytes<S> {
    /// The bytes read so far.
    pub closed spec fn spec_buffer(&self) -> Seq<u8> {
        self.buffer@
    }

    /// The stream being read.
    pub closed spec fn spec_stream(&self) -> S {
        self.stream
    }

    /// A reader that appends the frames of `stream` to `buffer`.
    pub fn new(buffer: Vec<u8>, stream: S) -> (r: ReadIntoBytes<S>)
        ensures
            r.spec_buffer() == buffer@,
            r.spec_stream() == stream,
    {
        ReadIntoBytes { buffer, stream }
    }

    /// The stream, to be polled for its next frame.
    pub fn stream_mut(&mut self) -> (r: &mut S)
        ensures
            *r == old(self).spec_stream(),
            final(self).spec_stream() == *final(r),
            final(self).spec_buffer() == old(self).spec_buffer(),
    {
        &mut self.stream
    }

    /// Takes in what the stream yielded. `None` means that the stream must
    /// be polled again. A frame is appended to the buffer when room can be
    /// made for it; otherwise the buffer is cleared and the read fails. An
    /// error of the stream clears the buffer and fails the read; the end of
    /// the stream ends it with the bytes read, leaving the buffer empty.
    pub fn on_event(&mut self, event: StreamEvent) -> (r: Option<Result<Vec<u8>, Error>>)
        ensures
            final(self).spec_stream() == old(self).spec_stream(),
            match event {
                StreamEvent::Frame(frame) => {
                    ||| r is None && final(self).spec_buffer() == old(self).spec_buffer()
                        + bytes_view(frame)
                    ||| r matches Some(Err(e)) && e.view() == reserve_error_view()
                        && final(self).spec_buffer().len() == 0 && 2 * bytes_view(frame).len()
                        > isize::MAX
                },
                StreamEvent::Failed(e) => r matches Some(Err(x)) && x.view() == e.view()
                    && final(self).spec_buffer().len() == 0,
                StreamEvent::End => r matches Some(Ok(bytes)) && bytes@ == old(self).spec_buffer()
                    && final(self).spec_buffer().len() == 0,
            },
    {
        match event {
            StreamEvent::Frame(frame) => {
                let data = bytes_as_slice(&frame);
                let len = data.len();
                match try_reserve(&mut self.buffer, len) {
                    Err(error) => {
                        self.buffer.clear();
                        Some(Err(error))
                    },
                    Ok(()) => {
                        let ghost before = self.buffer@;
                        let mut i: usize = 0;
                        while i < len
                            invariant
                                i <= len == data@.len(),
                                self.buffer@ == before + data@.take(i as int),
                                self.stream == old(self).stream,
                            decreases len - i,
                        {
                            self.buffer.push(data[i]);
                            i += 1;
                            assert(self.buffer@ =~= before + data@.take(i as int));
                        }
                        assert(data@.take(len as int) =~= data@);
                        None
                    },
                }
            },
            StreamEvent::Failed(error) => {
                self.buffer.clear();
                Some(Err(error))
            },
            StreamEvent::End => {
                let bytes = self.buffer.split_off(0);
                Some(Ok(bytes))
            },
        }
    }
}

/// Reading a stream into bytes collects every frame: over a run of
/// readers, each the one before after a frame that `on_event` appended,
/// the last holds what the first held followed by all the frames in
/// order, and that is what the end of the stream yields.
pub proof fn lemma_read_into_bytes_collects_frames<S>(
    readers: Seq<ReadIntoBytes<S>>,
    frames: Seq<Bytes>,
)
    requires
        readers.len() == frames.len() + 1,
        forall|i: int|
            0 <= i < frames.len() ==> #[trigger] readers[i + 1].spec_buffer() == readers[i].spec_buffer()
                + bytes_view(frames[i]),
    ensures
        readers.last().spec_buffer() == readers[0].spec_buffer() + concat_bytes(frames),
{
    let buffers = readers.map_values(|r: ReadIntoBytes<S>| r.spec_buffer());
    assert forall|i: int| 0 <= i < frames.len() implies #[trigger] buffers[i + 1] == buffers[i]
        + bytes_view(frames[i]) by {
        assert(readers[i + 1].spec_buffer() == readers[i].spec_buffer() + bytes_view(frames[i]));
    }
    lemma_appended_run(buffers, frames);
}

/// The outcome of reading into text from the outcome of reading bytes: an
/// error passes through; bytes are decoded as UTF-8, and bytes that are
/// not valid UTF-8 fail with `500 Internal Server Error`.
pub fn bytes_into_text(result: Result<Vec<u8>, Error>) -> (r: Result<String, Error>)
    ensures
        match result {
            Err(e) => r matches Err(x) && x.view() == e.view(),
            Ok(bytes) => if vstd::utf8::valid_utf8(bytes@) {
                r matches Ok(s) && s@ == vstd::utf8::decode_utf8(bytes@)
            } else {
                r matches Err(x) && x.view() == read_text_error_view(bytes@)
            },
        },
{
    match result {
        Err(e) => Err(e),
        Ok(bytes) => match string_from_utf8(bytes) {
            Ok(text) => Ok(text),
            Err(error) => Err(Error::internal_server_error(error)),
        },
    }
}

impl<S> ReadIntoString<S> {
    /// The bytes read so far.
    pub closed spec fn spec_buffer(&self) -> Seq<u8> {
        self.future.spec_buffer()
    }

    /// The stream being read.
    pub closed spec fn spec_stream(&self) -> S {
        self.future.spec_stream()
    }

    /// A reader into text on top of a reader into bytes.
    pub fn new(future: ReadIntoBytes<S>) -> (r: ReadIntoString<S>)
        ensures
            r.spec_buffer() == future.spec_buffer(),
            r.spec_stream() == future.spec_stream(),
    {
        ReadIntoString { future }
    }

    /// The stream, to be polled for its next frame.
    pub fn stream_mut(&mut self) -> (r: &mut S)
        ensures
            *r == old(self).spec_stream(),
            final(self).spec_stream() == *final(r),
            final(self).spec_buffer() == old(self).spec_buffer(),
    {
        self.future.stream_mut()
    }

    /// Takes in what the stream yielded, as `ReadIntoBytes::on_event` does,
    /// and decodes the bytes read as UTF-8 once the stream ended.
    pub fn on_event(&mut self, event: StreamEvent) -> (r: Option<Result<String, Error>>)
        ensures
            final(self).spec_stream() == old(self).spec_stream(),
            match event {
                StreamEvent::Frame(frame) => {
                    ||| r is None && final(self).spec_buffer() == old(self).spec_buffer()
                        + bytes_view(frame)
                    ||| r matches Some(Err(e)) && e.view() == reserve_error_view()
                        && final(self).spec_buffer().len() == 0 && 2 * bytes_view(frame).len()
                        > isize::MAX
                },
                StreamEvent::Failed(e) => r matches Some(Err(x)) && x.view() == e.view()
                    && final(self).spec_buffer().len() == 0,
                StreamEvent::End => final(self).spec_buffer().len() == 0 && if vstd::utf8::valid_utf8(
                    old(self).spec_buffer(),
                ) {
                    r matches Some(Ok(s)) && s@ == vstd::utf8::decode_utf8(old(self).spec_buffer())
                } else {
                    r matches Some(Err(x)) && x.view() == read_text_error_view(
                        old(self).spec_buffer(),
                    )
                },
            },
    {
        match self.future.on_event(event) {
            None => None,
            Some(result) => Some(bytes_into_text(result)),
        }
    }
}

} // verus!
