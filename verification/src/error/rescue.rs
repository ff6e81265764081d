//! Recovering from the errors of the rest of the chain by customizing the
//! response that an error becomes.

use std::sync::Arc;
use vstd::prelude::*;
use vstd::string::StringExecFns;

use crate::bindings::collections::arc_clone;
use crate::bindings::http_types::{canonical_reason_of, status_canonical_reason, status_number};
use http::StatusCode;
use super::chained::{errors_doc, kind_messages, kind_text, Error, Errors, KindView};
use super::{ErrorBody, ErrorResponse};
use crate::builtin::rescue::Rescued;

verus! {

/// Recovers from the errors of the rest of the chain: each error is handed
/// to the closure through a `Sanitizer`, which then makes the response.
#[derive(Debug)]
pub struct Rescue<F> {
    recover: Arc<F>,
}

/// Customizes how an error becomes a response: its status code, its
/// message, and whether the body is JSON.
#[derive(Debug)]
pub struct Sanitizer<'a> {
    json: bool,
    error: &'a Error,
    status: Option<StatusCode>,
    message: Option<String>,
}

/// The response that a sanitizer makes from an error, given whether the
/// body is JSON and the status code and message set, if any: the status
/// code set or else the error's; as JSON, the message set or the error's
/// messages under that code; as text, the message set or else the error's
/// text.
pub open spec fn sanitized(
    e: Error,
    json: bool,
    status: Option<u16>,
    message: Option<Seq<char>>,
    r: ErrorResponse,
) -> bool {
    let code = match status {
        Some(s) => s,
        None => e.spec_status(),
    };
    &&& status_number(r.status) == code
    &&& json ==> (r.body matches ErrorBody::Json(j) && j@ == errors_doc(
        code,
        match message {
            Some(m) => seq![m],
            None => kind_messages(e.spec_kind()),
        },
    ))
    &&& !json ==> (r.body matches ErrorBody::Text(t) && t@ == match message {
        Some(m) => m,
        None => kind_text(e.spec_kind()),
    })
}

impl<F> Rescue<F> {
    /// The closure that errors are handed to.
    pub closed spec fn spec_recover(&self) -> F {
        *self.recover
    }

    /// Recovers from errors with the given closure.
    pub fn with(recover: F) -> (r: Rescue<F>)
        ensures
            r.spec_recover() == recover,
    {
        Rescue { recover: Arc::new(recover) }
    }

    /// A shared handle on the closure, for a response that is still to come.
    pub fn recover(&self) -> (r: Arc<F>)
        ensures
            *r == self.spec_recover(),
    {
        arc_clone(&self.recover)
    }
}

impl<F: Fn(&mut Sanitizer)> Rescue<F> {
    /// The answer to the outcome of the rest of the chain: a response is
    /// passed on; an error is handed to the closure through a sanitizer,
    /// whose settings then make the response. No error gets through.
    pub fn rescue<R>(&self, outcome: Result<R, Error>) -> (r: Rescued<R>)
        requires
            outcome matches Err(e) ==> e.wf(),
            forall|s: &mut Sanitizer| self.spec_recover().requires((s,)),
        ensures
            match outcome {
                Ok(response) => r == Rescued::Response(response),
                Err(e) => r matches Rescued::Recovered(x) && exists|m: &mut Sanitizer|
                    {
                        &&& #[trigger] self.spec_recover().ensures((m,), ())
                        &&& (*m).spec_error() == e
                        &&& !(*m).spec_json()
                        &&& (*m).spec_status_override() is None
                        &&& (*m).spec_message() is None
                        &&& sanitized(
                            e,
                            final(m).spec_json(),
                            final(m).spec_status_override(),
                            final(m).spec_message(),
                            x,
                        )
                    },
            },
    {
        match outcome {
            Ok(response) => Rescued::Response(response),
            Err(error) => {
                let mut sanitizer = Sanitizer::new(&error);
                let recover: &F = &self.recover;
                assert(*recover == self.spec_recover());
                recover(&mut sanitizer);
                let settled = Sanitizer {
                    json: sanitizer.json,
                    error: &error,
                    status: sanitizer.status,
                    message: sanitizer.message,
                };
                Rescued::Recovered(settled.finalize())
            },
        }
    }
}

impl<'a> Sanitizer<'a> {
    /// The error being turned into a response.
    pub closed spec fn spec_error(&self) -> Error {
        *self.error
    }

    /// Whether the body will be JSON.
    pub closed spec fn spec_json(&self) -> bool {
        self.json
    }

    /// The status code set in place of the error's, if any.
    pub closed spec fn spec_status_override(&self) -> Option<u16> {
        match self.status {
            Some(s) => Some(status_number(s)),
            None => None,
        }
    }

    /// The message set in place of the error's, if any.
    pub closed spec fn spec_message(&self) -> Option<Seq<char>> {
        match self.message {
            Some(m) => Some(m@),
            None => None,
        }
    }

    /// The status code of the response: the one set, or else the error's.
    pub open spec fn spec_status(&self) -> u16 {
        match self.spec_status_override() {
            Some(s) => s,
            None => self.spec_error().spec_status(),
        }
    }

    /// A sanitizer that leaves the error as it is: its own status code and
    /// text, as plain text.
    pub fn new(error: &'a Error) -> (r: Sanitizer<'a>)
        ensures
            r.spec_error() == *error,
            !r.spec_json(),
            r.spec_status_override() is None,
            r.spec_message() is None,
    {
        Sanitizer { json: false, error, status: None, message: None }
    }

    /// The text of the error's source, if it has one.
    pub fn source(&self) -> (r: Option<&str>)
        requires
            self.spec_error().wf(),
        ensures
            match self.spec_error().spec_kind() {
                KindView::Message(_) => r is None,
                KindView::Other(chain) => r matches Some(s) && s@ == chain[0],
            },
    {
        self.error.source()
    }

    /// Uses the given message in the response.
    pub fn set_message(&mut self, message: String)
        ensures
            final(self).spec_message() == Some(message@),
            final(self).spec_error() == old(self).spec_error(),
            final(self).spec_json() == old(self).spec_json(),
            final(self).spec_status_override() == old(self).spec_status_override(),
    {
        self.message = Some(message);
    }

    /// Uses the given status code in the response.
    pub fn set_status(&mut self, status: StatusCode)
        ensures
            final(self).spec_status_override() == Some(status_number(status)),
            final(self).spec_error() == old(self).spec_error(),
            final(self).spec_json() == old(self).spec_json(),
            final(self).spec_message() == old(self).spec_message(),
    {
        self.status = Some(status);
    }

    /// Uses the canonical reason of the status code as the message; a code
    /// without one leaves no message set.
    pub fn use_canonical_reason(&mut self)
        ensures
            final(self).spec_message() == canonical_reason_of(old(self).spec_status()),
            final(self).spec_error() == old(self).spec_error(),
            final(self).spec_json() == old(self).spec_json(),
            final(self).spec_status_override() == old(self).spec_status_override(),
    {
        let status = self.status();
        self.message = match status_canonical_reason(&status) {
            Some(reason) => Some(String::from_str(reason)),
            None => None,
        };
    }

    /// Makes the body JSON.
    pub fn use_json(&mut self)
        ensures
            final(self).spec_json(),
            final(self).spec_error() == old(self).spec_error(),
            final(self).spec_message() == old(self).spec_message(),
            final(self).spec_status_override() == old(self).spec_status_override(),
    {
        self.json = true;
    }

    /// The status code of the response.
    pub fn status(&self) -> (r: StatusCode)
        ensures
            status_number(r) == self.spec_status(),
    {
        match self.status {
            Some(s) => s,
            None => self.error.status(),
        }
    }

    /// The messages reported in JSON: the message set, or else those of
    /// the error.
    fn repr_json(self, status: StatusCode) -> (r: Errors)
        ensures
            r.spec_status() == status_number(status),
            r.spec_messages() == match self.spec_message() {
                Some(m) => seq![m],
                None => kind_messages(self.spec_error().spec_kind()),
            },
    {
        match self.message {
            Some(message) => {
                let mut errors = Errors::new(status);
                errors.push(message);
                errors
            },
            None => self.error.repr_json(status),
        }
    }

    /// The response: its status code; as JSON, the message set or the
    /// error's messages under that code; as text, the message set or else
    /// the error's text.
    pub fn finalize(self) -> (r: ErrorResponse)
        requires
            self.spec_error().wf(),
        ensures
            sanitized(
                self.spec_error(),
                self.spec_json(),
                self.spec_status_override(),
                self.spec_message(),
                r,
            ),
    {
        let status = self.status();
        if self.json {
            let errors = self.repr_json(status);
            ErrorResponse { status, body: ErrorBody::Json(errors.to_json()) }
        } else {
            match self.message {
                Some(message) => ErrorResponse { status, body: ErrorBody::Text(message) },
                None => ErrorResponse { status, body: ErrorBody::Text(self.error.to_string()) },
            }
        }
    }

    /// The text of the error, as `Display` gives it.
    pub fn to_string(&self) -> (r: String)
        requires
            self.spec_error().wf(),
        ensures
            r@ == kind_text(self.spec_error().spec_kind()),
    {
        self.error.to_string()
    }
}

} // verus!
