use tokio_websockets::CloseCode;
use vstd::prelude::*;

verus! {

/// `tokio_websockets::CloseCode`, the status code of a close frame.
#[verifier::external_type_specification]
#[verifier::external_body]
pub struct ExCloseCode(CloseCode);

/// The number that a close code stands for.
pub uninterp spec fn close_code_number(c: CloseCode) -> u16;

/// A close code that `tokio_websockets` accepts: `1000..=1015` or
/// `3000..=4999`.
pub open spec fn close_code_ok(code: u16) -> bool {
    (1000 <= code && code <= 1015) || (3000 <= code && code <= 4999)
}

/// Calls `CloseCode::try_from(u16)`, which accepts exactly the codes in
/// `1000..=1015` and `3000..=4999`; the error is dropped.
#[verifier::external_body]
pub fn close_code_try_from(code: u16) -> (r: Option<CloseCode>)
    ensures
        r is Some <==> close_code_ok(code),
        r matches Some(c) ==> close_code_number(c) == code,
{
    CloseCode::try_from(code).ok()
}

/// The kind of a message read from a web socket, as far as the library
/// tells them apart: ping, pong and continuation frames never reach it.
#[derive(Clone, Copy, PartialEq, Eq, Debug, Structural)]
pub enum WsKind {
    Binary,
    Text,
    Close,
}

} // verus!
