use http_body::SizeHint;
use vstd::prelude::*;

verus! {

/// `http_body::SizeHint`, the number of bytes a body will yield: a lower
/// bound and an optional upper bound.
#[verifier::external_type_specification]
#[verifier::external_body]
pub struct ExSizeHint(SizeHint);

/// The lower and upper bound that a size hint holds.
pub uninterp spec fn size_hint_bounds(h: SizeHint) -> (u64, Option<u64>);

/// Calls `SizeHint::new`: lower bound `0`, no upper bound.
#[verifier::external_body]
pub fn size_hint_new() -> (r: SizeHint)
    ensures
        size_hint_bounds(r) == (0u64, None::<u64>),
{
    SizeHint::new()
}

/// Calls `SizeHint::with_exact`: both bounds are `value`.
#[verifier::external_body]
pub fn size_hint_with_exact(value: u64) -> (r: SizeHint)
    ensures
        size_hint_bounds(r) == (value, Some(value)),
{
    SizeHint::with_exact(value)
}

/// Calls `SizeHint::lower`.
#[verifier::external_body]
pub fn size_hint_lower(h: &SizeHint) -> (r: u64)
    ensures
        r == size_hint_bounds(*h).0,
{
    h.lower()
}

/// Calls `SizeHint::upper`.
#[verifier::external_body]
pub fn size_hint_upper(h: &SizeHint) -> (r: Option<u64>)
    ensures
        r == size_hint_bounds(*h).1,
{
    h.upper()
}

/// Calls `SizeHint::set_lower`, which asserts that the value does not
/// exceed the upper bound; `requires` rules that out.
#[verifier::external_body]
pub fn size_hint_set_lower(h: &mut SizeHint, value: u64)
    requires
        size_hint_bounds(*old(h)).1 matches Some(u) ==> value <= u,
    ensures
        size_hint_bounds(*final(h)) == (value, size_hint_bounds(*old(h)).1),
{
    h.set_lower(value)
}

/// Calls `SizeHint::set_upper`, which asserts that the value is not below
/// the lower bound; `requires` rules that out.
#[verifier::external_body]
pub fn size_hint_set_upper(h: &mut SizeHint, value: u64)
    requires
        value >= size_hint_bounds(*old(h)).0,
    ensures
        size_hint_bounds(*final(h)) == (size_hint_bounds(*old(h)).0, Some(value)),
{
    h.set_upper(value)
}

} // verus!
