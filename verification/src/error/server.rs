//! Errors of the server itself, outside any request.

use vstd::prelude::*;

verus! {

/// An error of the server: one of the HTTP connection, or another one, each
/// carried as its text.
#[derive(Debug)]
pub enum ServerError {
    /// An error of the HTTP protocol layer.
    Http(String),
    /// Any other error.
    Other(String),
}

/// The text of the error for a TLS handshake that took too long.
pub open spec fn handshake_timeout_text() -> Seq<char> {
    "tls negotiation did not finish within the configured timeout\n"@
}

impl ServerError {
    /// The error for a TLS handshake that did not finish in time.
    pub fn handshake_timeout() -> (r: ServerError)
        ensures
            r matches ServerError::Other(t) && t@ == handshake_timeout_text(),
    {
        ServerError::Other("tls negotiation did not finish within the configured timeout\n".to_string())
    }

    /// The text of the error, as `Display` gives it.
    pub fn to_string(&self) -> (r: String)
        ensures
            match self {
                ServerError::Http(t) => r@ == t@,
                ServerError::Other(t) => r@ == t@,
            },
    {
        match self {
            ServerError::Http(t) => t.clone(),
            ServerError::Other(t) => t.clone(),
        }
    }
}

} // verus!
