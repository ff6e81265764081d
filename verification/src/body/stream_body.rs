//! A body whose data frames come from a stream.

use http_body::SizeHint;
use vstd::prelude::*;

use crate::bindings::body_hint::{size_hint_bounds, size_hint_new, size_hint_set_lower, size_hint_set_upper};
use super::size_hint::body_bounds_of;

verus! {

/// Turns a stream of data into a body: each item of the stream becomes a
/// data frame.
#[derive(Debug)]
pub struct StreamBody<T> {
    stream: T,
}

impl<T> StreamBody<T> {
    /// The stream the frames come from.
    pub closed spec fn spec_stream(&self) -> T {
        self.stream
    }

    /// A body reading the given stream.
    pub fn new(stream: T) -> (r: StreamBody<T>)
        ensures
            r.spec_stream() == stream,
    {
        StreamBody { stream }
    }

    /// The stream, to read its size hint.
    pub fn stream(&self) -> (r: &T)
        ensures
            *r == self.spec_stream(),
    {
        &self.stream
    }

    /// The stream, to be polled for the next frame.
    pub fn stream_mut(&mut self) -> (r: &mut T)
        ensures
            *r == old(self).spec_stream(),
            final(self).spec_stream() == *final(r),
    {
        &mut self.stream
    }

    /// A stream body never knows ahead that it has ended.
    pub fn is_end_stream(&self) -> (r: bool)
        ensures
            r == false,
    {
        false
    }

    /// The size hint of the body from the `(lower, upper)` hint of its
    /// stream. A stream hint whose upper bound is below its lower bound is
    /// refused by the body hint, so it is left out by `requires`.
    pub fn size_hint(&self, bounds: (usize, Option<usize>)) -> (r: SizeHint)
        requires
            bounds.1 matches Some(u) ==> bounds.0 <= u,
        ensures
            size_hint_bounds(r) == body_bounds_of(bounds),
    {
        let mut hint = size_hint_new();
        let lower: u64 = bounds.0 as u64;
        match bounds.1 {
            None => size_hint_set_lower(&mut hint, lower),
            Some(upper) => {
                size_hint_set_lower(&mut hint, lower);
                size_hint_set_upper(&mut hint, upper as u64);
            },
        }
        hint
    }
}

} // verus!
