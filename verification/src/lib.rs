//! A web framework toolkit whose request and response plumbing is driven by
//! small, verified decision functions.

pub mod bindings;
pub mod body;
pub mod builtin;
pub mod cookies;
pub mod error;
pub mod status;
pub mod util;
