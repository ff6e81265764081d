//! Conversions between the size hint of a body and that of a stream.

use http_body::SizeHint;
use vstd::prelude::*;

use crate::bindings::body_hint::{
    size_hint_bounds, size_hint_lower, size_hint_new, size_hint_set_lower, size_hint_set_upper,
    size_hint_upper,
};

verus! {

/// The stream form of a body hint: a lower bound that does not fit in
/// `usize` becomes `0`, and an upper bound that does not fit becomes unknown.
pub open spec fn stream_bounds_of(h: (u64, Option<u64>)) -> (usize, Option<usize>) {
    (
        if h.0 <= usize::MAX { h.0 as usize } else { 0usize },
        match h.1 {
            Some(u) => if u <= usize::MAX { Some(u as usize) } else { None },
            None => None,
        },
    )
}

/// The body form of a stream hint: both bounds carried over as `u64`.
pub open spec fn body_bounds_of(bounds: (usize, Option<usize>)) -> (u64, Option<u64>) {
    (
        bounds.0 as u64,
        match bounds.1 {
            Some(u) => Some(u as u64),
            None => None,
        },
    )
}

/// Converts the size hint of a body into the `(lower, upper)` pair used by
/// streams. Bounds that do not fit in `usize` are dropped: the lower one
/// becomes `0` and the upper one `None`.
pub fn from_body_for_stream(hint: &SizeHint) -> (r: (usize, Option<usize>))
    ensures
        r == stream_bounds_of(size_hint_bounds(*hint)),
{
    let low = size_hint_lower(hint);
    let lower: usize = if low <= usize::MAX as u64 {
        low as usize
    } else {
        0
    };
    let upper: Option<usize> = match size_hint_upper(hint) {
        Some(value) => if value <= usize::MAX as u64 {
            Some(value as usize)
        } else {
            None
        },
        None => None,
    };
    (lower, upper)
}

/// Converts the `(lower, upper)` pair of a stream into a body size hint. An
/// upper bound below the lower bound is refused by the hint, so it is left
/// out by `requires`.
pub fn from_stream_for_body(bounds: (usize, Option<usize>)) -> (r: SizeHint)
    requires
        bounds.1 matches Some(u) ==> bounds.0 <= u,
    ensures
        size_hint_bounds(r) == body_bounds_of(bounds),
{
    let (lower, upper) = bounds;
    let mut hint = size_hint_new();
    size_hint_set_lower(&mut hint, lower as u64);
    if let Some(value) = upper {
        size_hint_set_upper(&mut hint, value as u64);
    }
    hint
}

/// The `(lower, upper)` pair of a body stream from the size hint of its
/// body: both bounds as they are. A bound that does not fit in `usize`
/// makes the conversion panic, so it is left out by `requires`.
pub fn body_stream_size_hint(hint: &SizeHint) -> (r: (usize, Option<usize>))
    requires
        size_hint_bounds(*hint).0 <= usize::MAX,
        size_hint_bounds(*hint).1 matches Some(u) ==> u <= usize::MAX,
    ensures
        r == stream_bounds_of(size_hint_bounds(*hint)),
{
    let lower = size_hint_lower(hint) as usize;
    let upper = match size_hint_upper(hint) {
        Some(value) => Some(value as usize),
        None => None,
    };
    (lower, upper)
}

/// Converting the hint of a stream into that of a body and back gives the
/// same bounds: every `usize` fits in a `u64`.
pub proof fn lemma_stream_hint_round_trip(bounds: (usize, Option<usize>))
    ensures
        stream_bounds_of(body_bounds_of(bounds)) == bounds,
{
}

} // verus!
