//! A stream of the data frames of a body, other frames passed over.

use bytes::Bytes;
use vstd::prelude::*;

use crate::bindings::byte_buf::bytes_view;
use crate::error::Error;

verus! {

/// What the wrapped stream of frames yielded when it was polled.
#[derive(Debug)]
pub enum FrameEvent {
    /// A data frame.
    Data(Bytes),
    /// A frame of another kind.
    NotData,
    /// The stream failed.
    Failed(Error),
    /// The stream ended.
    End,
}

/// Yields the data of the frames of a stream, passing other frames over.
/// The caller polls the wrapped stream and hands each outcome to
/// `on_frame`.
#[derive(Debug)]
pub struct BodyDataStream<S> {
    stream: S,
}

impl<S> BodyDataStream<S> {
    /// The stream of frames.
    pub closed spec fn spec_stream(&self) -> S {
        self.stream
    }

    /// A stream of the data of the frames of `stream`.
    pub fn new(stream: S) -> (r: BodyDataStream<S>)
        ensures
            r.spec_stream() == stream,
    {
        BodyDataStream { stream }
    }

    /// The stream of frames, to be polled.
    pub fn stream_mut(&mut self) -> (r: &mut S)
        ensures
            *r == old(self).spec_stream(),
            final(self).spec_stream() == *final(r),
    {
        &mut self.stream
    }

    /// The item to yield for what the stream of frames yielded: `None`
    /// means that it must be polled again (a frame that is not data);
    /// otherwise the data, the error, or the end.
    pub fn on_frame(&self, event: FrameEvent) -> (r: Option<Option<Result<Bytes, Error>>>)
        ensures
            match event {
                FrameEvent::Data(b) => r matches Some(Some(Ok(x))) && bytes_view(x) == bytes_view(b),
                FrameEvent::NotData => r is None,
                FrameEvent::Failed(e) => r matches Some(Some(Err(x))) && x.view() == e.view(),
                FrameEvent::End => r matches Some(None),
            },
    {
        match event {
            FrameEvent::Data(data) => Some(Some(Ok(data))),
            FrameEvent::NotData => None,
            FrameEvent::Failed(error) => Some(Some(Err(error))),
            FrameEvent::End => Some(None),
        }
    }
}

} // verus!
