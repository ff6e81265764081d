use std::sync::Arc;
use vstd::prelude::*;

verus! {

/// Calls `Vec::capacity`, the number of elements the vector can hold
/// without reallocating. The allocator decides it; the documentation
/// promises only that it is never below the length.
#[verifier::external_body]
pub fn vec_capacity<T>(v: &Vec<T>) -> (r: usize)
    ensures
        r >= v@.len(),
{
    v.capacity()
}

/// Calls `Arc::clone`: another pointer to the same value.
#[verifier::external_body]
pub fn arc_clone<T>(a: &Arc<T>) -> (r: Arc<T>)
    ensures
        *r == **a,
{
    Arc::clone(a)
}

} // verus!
