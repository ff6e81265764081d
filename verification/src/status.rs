//! HTTP status codes, as the `http` crate gives them.

use http::StatusCode;
use vstd::prelude::*;

use crate::bindings::http_types::{status_code_ok, status_from_u16, status_number};

verus! {

/// The status code with a number known to be in `100..=999`.
pub fn known(code: u16) -> (r: StatusCode)
    requires
        status_code_ok(code),
    ensures
        status_number(r) == code,
{
    match status_from_u16(code) {
        Ok(status) => status,
        Err(_) => {
            proof {
                assert(false);
            }
            vstd::pervasive::unreached()
        },
    }
}

} // verus!
