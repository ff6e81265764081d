//! The limit on the length of request bodies, and the errors of reading a
//! body.

use vstd::prelude::*;

use crate::error::{Error, ErrorView};

verus! {

/// A request body was longer than its limit.
#[derive(Clone, Copy, Debug)]
pub struct LimitError;

/// An error met while reading a body: the length limit, or an error of the
/// connection with its text.
#[derive(Debug)]
pub enum BodyError {
    Limit(LimitError),
    Other(String),
}

/// The text of a `LimitError`.
pub open spec fn limit_error_text() -> Seq<char> {
    "maximum request body size exceeded"@
}

impl LimitError {
    /// The text of the error.
    pub fn to_string(&self) -> (r: String)
        ensures
            r@ == limit_error_text(),
    {
        "maximum request body size exceeded".to_string()
    }
}

/// The error that a response reports for an error met while reading a body.
pub open spec fn body_error_view(error: BodyError) -> ErrorView {
    match error {
        BodyError::Limit(_) => ErrorView {
            as_json: false,
            status: 413,
            error: limit_error_text(),
            message: None,
        },
        BodyError::Other(text) => ErrorView {
            as_json: false,
            status: 400,
            error: text@,
            message: None,
        },
    }
}

/// Turns an error met while reading a body into an error response: `413
/// Payload Too Large` for the length limit, `400 Bad Request` otherwise.
pub fn error_from_boxed(error: BodyError) -> (r: Error)
    ensures
        r.view() == body_error_view(error),
{
    match error {
        BodyError::Limit(limit) => Error::payload_too_large(limit.to_string()),
        BodyError::Other(text) => Error::bad_request(text),
    }
}

/// Turns an error of a length-limited body into an error response: `413
/// Payload Too Large` when the error is the limit's own error, `400 Bad
/// Request` otherwise, with the error's text either way.
pub fn map_err(is_length_limit: bool, text: String) -> (r: Error)
    ensures
        r.view() == (ErrorView {
            as_json: false,
            status: if is_length_limit { 413 } else { 400 },
            error: text@,
            message: None,
        }),
{
    if is_length_limit {
        Error::payload_too_large(text)
    } else {
        Error::bad_request(text)
    }
}

/// A request body read within a limit on its length: the wrapped body is
/// polled by the caller, and each data frame is checked here before it is
/// passed on.
pub struct RequestBody<B> {
    remaining: usize,
    body: B,
    limit: Ghost<nat>,
    admitted: Ghost<nat>,
}

impl<B> RequestBody<B> {
    /// The number of bytes that may still be read.
    pub closed spec fn spec_remaining(&self) -> nat {
        self.remaining as nat
    }

    /// The limit the body was made with.
    pub closed spec fn spec_limit(&self) -> nat {
        self.limit@
    }

    /// The number of data bytes passed on so far.
    pub closed spec fn spec_admitted(&self) -> nat {
        self.admitted@
    }

    /// The wrapped body.
    pub closed spec fn spec_body(&self) -> B {
        self.body
    }

    /// What was passed on and what may still be read make up the limit.
    pub closed spec fn wf(&self) -> bool {
        self.admitted@ + self.remaining == self.limit@
    }

    /// A body that passes on at most `remaining` bytes of data.
    pub fn new(remaining: usize, body: B) -> (r: RequestBody<B>)
        ensures
            r.wf(),
            r.spec_limit() == remaining,
            r.spec_remaining() == remaining,
            r.spec_admitted() == 0,
            r.spec_body() == body,
    {
        RequestBody { remaining, body, limit: Ghost(remaining as nat), admitted: Ghost(0) }
    }

    /// The wrapped body, to read its state.
    pub fn body(&self) -> (r: &B)
        ensures
            *r == self.spec_body(),
    {
        &self.body
    }

    /// The wrapped body, to be polled for its next frame.
    pub fn body_mut(&mut self) -> (r: &mut B)
        ensures
            *r == old(self).spec_body(),
            final(self).spec_body() == *final(r),
            final(self).spec_remaining() == old(self).spec_remaining(),
            final(self).spec_limit() == old(self).spec_limit(),
            final(self).spec_admitted() == old(self).spec_admitted(),
            old(self).wf() ==> final(self).wf(),
    {
        &mut self.body
    }

    /// Checks a frame of the wrapped body: a data frame of `len` bytes is
    /// passed on when that many bytes may still be read, and fails with a
    /// `LimitError` otherwise; other frames (`None`) pass unchecked.
    pub fn check_frame(&mut self, data_len: Option<usize>) -> (r: Result<(), LimitError>)
        requires
            old(self).wf(),
        ensures
            final(self).wf(),
            final(self).spec_limit() == old(self).spec_limit(),
            final(self).spec_body() == old(self).spec_body(),
            match data_len {
                None => r is Ok && final(self).spec_remaining() == old(self).spec_remaining()
                    && final(self).spec_admitted() == old(self).spec_admitted(),
                Some(len) => if len <= old(self).spec_remaining() {
                    &&& r is Ok
                    &&& final(self).spec_remaining() == old(self).spec_remaining() - len
                    &&& final(self).spec_admitted() == old(self).spec_admitted() + len
                } else {
                    &&& r is Err
                    &&& final(self).spec_remaining() == old(self).spec_remaining()
                    &&& final(self).spec_admitted() == old(self).spec_admitted()
                },
            },
    {
        match data_len {
            None => Ok(()),
            Some(len) => {
                if self.remaining < len {
                    return Err(LimitError);
                }
                self.remaining = self.remaining - len;
                proof {
                    self.admitted@ = (self.admitted@ + len) as nat;
                }
                Ok(())
            },
        }
    }

    /// The wrapped body.
    pub fn into_inner(self) -> (r: B)
        ensures
            r == self.spec_body(),
    {
        self.body
    }
}

/// A request body never passes on more data than its limit: whatever frames
/// were checked, the bytes passed on stay within the limit it was made with.
pub proof fn lemma_request_body_within_limit<B>(body: RequestBody<B>)
    requires
        body.wf(),
    ensures
        body.spec_admitted() <= body.spec_limit(),
        body.spec_admitted() + body.spec_remaining() == body.spec_limit(),
{
}

} // verus!
