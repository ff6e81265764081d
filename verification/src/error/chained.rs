//! Errors that carry a status code and either a message or the chain of
//! errors that caused them, reported as plain text or as a JSON list.

use vstd::prelude::*;
use vstd::string::StringExecFns;

use crate::bindings::io::{io_error_kind, io_error_text, IoErrorKind};
use crate::bindings::json::{json_string, json_string_of};
use http::StatusCode;

use crate::bindings::http_types::{status_as_u16, status_number};
use crate::util::{decimal_text, push_decimal};
use super::{io_kind_status, ErrorBody, ErrorResponse};

verus! {

/// An error with the status code of its response, and either a message or
/// the texts of the chain of errors that caused it, outermost first.
#[derive(Debug)]
pub struct Error {
    status: StatusCode,
    kind: ErrorKind,
}

/// What an error carries.
#[derive(Debug)]
pub enum ErrorKind {
    /// A message.
    Message(String),
    /// The texts of the errors that caused it, outermost first.
    Other(Vec<String>),
}

/// The abstract value of what an error carries.
pub enum KindView {
    Message(Seq<char>),
    Other(Seq<Seq<char>>),
}

/// A list of error messages under a status code, reported as JSON.
#[derive(Debug)]
pub struct Errors {
    status: StatusCode,
    errors: Vec<String>,
}

/// The texts of a list of strings.
pub open spec fn texts(v: Seq<String>) -> Seq<Seq<char>> {
    v.map_values(|s: String| s@)
}

/// The JSON objects `{"message":..}` of a list of messages, separated by
/// commas.
pub open spec fn messages_json(m: Seq<Seq<char>>) -> Seq<char>
    decreases m.len(),
{
    if m.len() == 0 {
        Seq::empty()
    } else if m.len() == 1 {
        "{\"message\":"@ + json_string_of(m[0]) + "}"@
    } else {
        messages_json(m.drop_last()) + ","@ + "{\"message\":"@ + json_string_of(m.last()) + "}"@
    }
}

/// The JSON document of a list of messages under a status code.
pub open spec fn errors_doc(status: u16, m: Seq<Seq<char>>) -> Seq<char> {
    "{\"status\":"@ + decimal_text(status as nat) + ",\"errors\":["@ + messages_json(m) + "]}"@
}

/// The messages that an error reports in JSON: its message, or else the
/// texts of its chain, innermost first.
pub open spec fn kind_messages(k: KindView) -> Seq<Seq<char>> {
    match k {
        KindView::Message(m) => seq![m],
        KindView::Other(chain) => chain.reverse(),
    }
}

/// The text of an error, as `Display` gives it: its message, or else the
/// text of the outermost error of its chain.
pub open spec fn kind_text(k: KindView) -> Seq<char> {
    match k {
        KindView::Message(m) => m,
        KindView::Other(chain) => chain[0],
    }
}

impl Error {
    /// The status code of the error's response.
    pub closed spec fn spec_status(&self) -> u16 {
        status_number(self.status)
    }

    /// What the error carries.
    pub closed spec fn spec_kind(&self) -> KindView {
        match self.kind {
            ErrorKind::Message(m) => KindView::Message(m@),
            ErrorKind::Other(chain) => KindView::Other(texts(chain@)),
        }
    }

    /// A chain of causes is never empty.
    pub closed spec fn wf(&self) -> bool {
        self.kind matches ErrorKind::Other(chain) ==> chain@.len() > 0
    }

    /// An error with the given status code and message.
    pub fn new(status: StatusCode, message: String) -> (r: Error)
        ensures
            r.wf(),
            r.spec_status() == status_number(status),
            r.spec_kind() == KindView::Message(message@),
    {
        Error { status, kind: ErrorKind::Message(message) }
    }

    /// An error with the given status code, caused by the given chain of
    /// errors, outermost first.
    pub fn from_source(status: StatusCode, chain: Vec<String>) -> (r: Error)
        requires
            chain@.len() > 0,
        ensures
            r.wf(),
            r.spec_status() == status_number(status),
            r.spec_kind() == KindView::Other(texts(chain@)),
    {
        Error { status, kind: ErrorKind::Other(chain) }
    }

    /// An error caused by an I/O error of the given kind and text; its
    /// status code follows the kind.
    pub fn from_io_kind(kind: IoErrorKind, text: String) -> (r: Error)
        ensures
            r.wf(),
            r.spec_status() == io_kind_status(kind),
            r.spec_kind() == KindView::Other(seq![text@]),
    {
        let mut chain: Vec<String> = Vec::new();
        chain.push(text);
        let r = Error::from_source(super::Error::status_for_io_kind(kind), chain);
        assert(texts(chain@) =~= seq![chain@[0]@]);
        r
    }

    /// An error caused by an I/O error; its status code follows the kind of
    /// the I/O error, and its chain is the I/O error's text.
    pub fn from_io_error(error: std::io::Error) -> (r: Error)
        ensures
            r.wf(),
            exists|kind: IoErrorKind, text: String|
                r.spec_status() == io_kind_status(kind) && r.spec_kind() == KindView::Other(
                    seq![text@],
                ),
    {
        let kind = io_error_kind(&error);
        let text = io_error_text(&error);
        Error::from_io_kind(kind, text)
    }

    /// The text of the error's source: the outermost error of its chain;
    /// none for an error made from a message.
    pub fn source(&self) -> (r: Option<&str>)
        requires
            self.wf(),
        ensures
            match self.spec_kind() {
                KindView::Message(_) => r is None,
                KindView::Other(chain) => r matches Some(s) && s@ == chain[0],
            },
    {
        match &self.kind {
            ErrorKind::Message(_) => None,
            ErrorKind::Other(chain) => Some(chain[0].as_str()),
        }
    }

    /// The status code of the error's response.
    pub fn status(&self) -> (r: StatusCode)
        ensures
            status_number(r) == self.spec_status(),
    {
        self.status
    }

    /// The text of the error, as `Display` gives it.
    pub fn to_string(&self) -> (r: String)
        requires
            self.wf(),
        ensures
            r@ == kind_text(self.spec_kind()),
    {
        match &self.kind {
            ErrorKind::Message(m) => m.clone(),
            ErrorKind::Other(chain) => chain[0].clone(),
        }
    }

    /// The messages of the error under the given status code: its message,
    /// or else the texts of its chain, innermost first.
    pub fn repr_json(&self, status: StatusCode) -> (r: Errors)
        ensures
            r.spec_status() == status_number(status),
            r.spec_messages() == kind_messages(self.spec_kind()),
    {
        let mut errors: Vec<String> = Vec::new();
        match &self.kind {
            ErrorKind::Message(m) => {
                errors.push(m.clone());
                assert(texts(errors@) =~= seq![m@]);
            },
            ErrorKind::Other(chain) => {
                let ghost c = texts(chain@);
                let mut i: usize = chain.len();
                while i > 0
                    invariant
                        i <= chain@.len(),
                        c == texts(chain@),
                        texts(errors@) == c.reverse().take(chain@.len() - i),
                    decreases i,
                {
                    i -= 1;
                    let ghost before = errors@;
                    errors.push(chain[i].clone());
                    assert(texts(errors@) =~= texts(before).push(c[i as int]));
                    assert(c.reverse().take(chain@.len() - i) =~= c.reverse().take(
                        chain@.len() - i - 1,
                    ).push(c[i as int]));
                }
                assert(c.reverse().take(chain@.len() as int) =~= c.reverse());
            },
        }
        Errors { status, errors }
    }

    /// The response for the error: its status code and its text.
    pub fn into_response(self) -> (r: ErrorResponse)
        requires
            self.wf(),
        ensures
            status_number(r.status) == self.spec_status(),
            r.body matches ErrorBody::Text(t) && t@ == kind_text(self.spec_kind()),
    {
        let text = self.to_string();
        ErrorResponse { status: self.status, body: ErrorBody::Text(text) }
    }
}

impl Errors {
    /// The status code reported.
    pub closed spec fn spec_status(&self) -> u16 {
        status_number(self.status)
    }

    /// The messages reported, in order.
    pub closed spec fn spec_messages(&self) -> Seq<Seq<char>> {
        texts(self.errors@)
    }

    /// No messages under a status code.
    pub fn new(status: StatusCode) -> (r: Errors)
        ensures
            r.spec_status() == status_number(status),
            r.spec_messages().len() == 0,
    {
        Errors { status, errors: Vec::new() }
    }

    /// Adds a message at the end.
    pub fn push(&mut self, message: String)
        ensures
            final(self).spec_status() == old(self).spec_status(),
            final(self).spec_messages() == old(self).spec_messages().push(message@),
    {
        let ghost before = self.errors@;
        self.errors.push(message);
        assert(texts(self.errors@) =~= texts(before).push(message@));
    }

    /// The JSON document: `{"status":..,"errors":[{"message":..},..]}`.
    pub fn to_json(&self) -> (r: String)
        ensures
            r@ == errors_doc(self.spec_status(), self.spec_messages()),
    {
        let ghost m = self.spec_messages();
        let mut out = String::from_str("{\"status\":");
        push_decimal(&mut out, status_as_u16(&self.status));
        out.append(",\"errors\":[");
        let ghost head = out@;
        let mut i: usize = 0;
        while i < self.errors.len()
            invariant
                i <= self.errors@.len(),
                m == texts(self.errors@),
                out@ == head + messages_json(m.take(i as int)),
            decreases self.errors@.len() - i,
        {
            let ghost before = out@;
            assert(m.take(i + 1).drop_last() =~= m.take(i as int));
            if i > 0 {
                out.append(",");
            }
            out.append("{\"message\":");
            let quoted = json_string(self.errors[i].as_str());
            out.append(quoted.as_str());
            out.append("}");
            i += 1;
            assert(out@ =~= head + messages_json(m.take(i as int)));
        }
        assert(m.take(i as int) =~= m);
        out.append("]}");
        out
    }
}

/// A well-formed error that carries a chain of causes has at least one.
pub proof fn lemma_chained_error_has_a_cause(e: Error)
    requires
        e.wf(),
    ensures
        e.spec_kind() matches KindView::Other(chain) ==> chain.len() > 0,
{
}

} // verus!
