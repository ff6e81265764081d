//! A web socket middleware that checks the protocol version strictly, and
//! whose sessions report connection errors instead of handing them to the
//! handler.

use std::sync::Arc;
use vstd::prelude::*;
use vstd::string::StringExecFns;

use crate::error::{Error, ErrorView};
use crate::util::text_eq;
use super::handshake::{accept_key, accept_key_of, key_len_ok, is_first_param, PathParam, QueryParam, RequestContext};
use super::session::{Incoming, SendOutcome, SessionAction, SessionEvent};

verus! {

/// The web socket middleware: the settings of the connection and the
/// function that runs once it is upgraded.
pub struct Upgrade<F> {
    max_payload_size: Option<usize>,
    flush_threshold: usize,
    frame_size: usize,
    on_upgrade: F,
}

/// The request that a web socket was opened with.
pub struct Context<S> {
    inner: RequestContext<S>,
}

/// What the middleware does with a request.
pub enum UpgradeOutcome {
    /// The request asks for no web socket: it goes to the next middleware.
    Next,
    /// The request is refused with this error.
    Reject(Error),
    /// The connection is upgraded; the response carries this accept key.
    Accept(String),
}

/// The error for a missing key.
pub open spec fn missing_key_view() -> ErrorView {
    ErrorView {
        as_json: false,
        status: 400,
        error: "missing required header: \"Sec-Websocket-Key\""@,
        message: None,
    }
}

/// The error for a missing or unsupported version.
pub open spec fn unsupported_version_view() -> ErrorView {
    ErrorView { as_json: false, status: 400, error: "unsupported websocket version"@, message: None }
}

/// Checks the `Sec-WebSocket-Version` header: only version 13 is accepted,
/// and the header must be there.
pub fn validate_websocket_version(version: Option<&str>) -> (r: Result<(), Error>)
    ensures
        match version {
            Some(v) if v@ == "13"@ => r is Ok,
            _ => r matches Err(e) && e.view() == unsupported_version_view(),
        },
{
    match version {
        Some(v) => if text_eq(v, "13") {
            Ok(())
        } else {
            Err(Error::bad_request(String::from_str("unsupported websocket version")))
        },
        None => Err(Error::bad_request(String::from_str("unsupported websocket version"))),
    }
}

/// Computes the accept key from the `Sec-WebSocket-Key` header, which must
/// be present.
pub fn validate_accept_key(key: Option<&str>) -> (r: Result<String, Error>)
    requires
        key matches Some(k) ==> key_len_ok(k),
    ensures
        match key {
            None => r matches Err(e) && e.view() == missing_key_view(),
            Some(k) => r matches Ok(a) && a@ == accept_key_of(k@),
        },
{
    match key {
        None => Err(
            Error::bad_request(String::from_str("missing required header: \"Sec-Websocket-Key\"")),
        ),
        Some(k) => Ok(accept_key(k)),
    }
}

/// Decides the upgrade from the `Upgrade`, `Sec-WebSocket-Version` and
/// `Sec-WebSocket-Key` headers of a request, each looked up as text. A
/// request whose `Upgrade` header is not `websocket` goes on to the next
/// middleware; otherwise the version is checked and the accept key
/// computed, and the first failure is the answer.
pub fn upgrade_outcome(
    upgrade: Result<Option<&str>, Error>,
    version: Result<Option<&str>, Error>,
    key: Result<Option<&str>, Error>,
) -> (r: UpgradeOutcome)
    requires
        key matches Ok(Some(k)) ==> key_len_ok(k),
    ensures
        match upgrade {
            Err(e) => r matches UpgradeOutcome::Reject(x) && x.view() == e.view(),
            Ok(None) => r is Next,
            Ok(Some(u)) => if u@ != "websocket"@ {
                r is Next
            } else {
                match version {
                    Err(e) => r matches UpgradeOutcome::Reject(x) && x.view() == e.view(),
                    Ok(Some(v)) if v@ == "13"@ => match key {
                        Err(e) => r matches UpgradeOutcome::Reject(x) && x.view() == e.view(),
                        Ok(None) => r matches UpgradeOutcome::Reject(x) && x.view()
                            == missing_key_view(),
                        Ok(Some(k)) => r matches UpgradeOutcome::Accept(a) && a@ == accept_key_of(
                            k@,
                        ),
                    },
                    Ok(_) => r matches UpgradeOutcome::Reject(x) && x.view()
                        == unsupported_version_view(),
                }
            },
        },
{
    match upgrade {
        Err(e) => return UpgradeOutcome::Reject(e),
        Ok(None) => return UpgradeOutcome::Next,
        Ok(Some(u)) => if !text_eq(u, "websocket") {
            return UpgradeOutcome::Next;
        },
    }
    match version {
        Err(e) => return UpgradeOutcome::Reject(e),
        Ok(v) => match validate_websocket_version(v) {
            Err(e) => return UpgradeOutcome::Reject(e),
            Ok(()) => {},
        },
    }
    match key {
        Err(e) => UpgradeOutcome::Reject(e),
        Ok(k) => match validate_accept_key(k) {
            Err(e) => UpgradeOutcome::Reject(e),
            Ok(a) => UpgradeOutcome::Accept(a),
        },
    }
}

/// What a session of this middleware does after an event: write errors,
/// connection errors and messages that do not decode are reported and the
/// session goes on; decoded messages go to the handler, whether or not it
/// still listens; the handler finishing ends the session, and its failing
/// starts it again.
pub open spec fn upgrade_session_action(event: SessionEvent) -> SessionAction {
    match event {
        SessionEvent::Wrote(SendOutcome::Sent) => SessionAction::Continue,
        SessionEvent::Wrote(_) => SessionAction::Report,
        SessionEvent::Received(Incoming::Ping) => SessionAction::Continue,
        SessionEvent::Received(Incoming::Pong) => SessionAction::Continue,
        SessionEvent::Received(Incoming::Message) => SessionAction::Deliver,
        SessionEvent::Received(_) => SessionAction::Report,
        SessionEvent::Delivered(_) => SessionAction::Continue,
        SessionEvent::HandlerDone(true) => SessionAction::End,
        SessionEvent::HandlerDone(false) => SessionAction::Restart,
    }
}

/// A session of this middleware ends only when the handler finishes
/// successfully: a closed connection is reported, not an end.
pub proof fn lemma_upgrade_session_ends(event: SessionEvent)
    ensures
        (upgrade_session_action(event) == SessionAction::End) <==> (event
            == SessionEvent::HandlerDone(true)),
{
}

/// In a session of this middleware only decoded messages reach the
/// handler; any failed write, a closed connection and any error of the
/// connection are reported and the session goes on; a written message,
/// pings, pongs and any hand-over let it go on quietly.
pub proof fn lemma_upgrade_session_delivers(event: SessionEvent)
    ensures
        (upgrade_session_action(event) == SessionAction::Deliver) <==> (event
            == SessionEvent::Received(Incoming::Message)),
        (upgrade_session_action(event) == SessionAction::Report) <==> (event == SessionEvent::Wrote(
            SendOutcome::AlreadyClosed,
        ) || event == SessionEvent::Wrote(SendOutcome::Failed) || event == SessionEvent::Received(
            Incoming::AlreadyClosed,
        ) || event == SessionEvent::Received(Incoming::Failed)),
        (upgrade_session_action(event) == SessionAction::Continue) <==> (event
            == SessionEvent::Wrote(SendOutcome::Sent) || event == SessionEvent::Received(
            Incoming::Ping,
        ) || event == SessionEvent::Received(Incoming::Pong) || event is Delivered),
{
}

/// Decides what a session of this middleware does after an event.
pub fn upgrade_next_action(event: SessionEvent) -> (r: SessionAction)
    ensures
        r == upgrade_session_action(event),
{
    match event {
        SessionEvent::Wrote(outcome) => match outcome {
            SendOutcome::Sent => SessionAction::Continue,
            _ => SessionAction::Report,
        },
        SessionEvent::Received(incoming) => match incoming {
            Incoming::Ping | Incoming::Pong => SessionAction::Continue,
            Incoming::Message => SessionAction::Deliver,
            _ => SessionAction::Report,
        },
        SessionEvent::Delivered(_) => SessionAction::Continue,
        SessionEvent::HandlerDone(ok) => if ok {
            SessionAction::End
        } else {
            SessionAction::Restart
        },
    }
}

/// The settings of an upgrade: the maximum payload size, the flush
/// threshold and the frame size.
pub closed spec fn upgrade_settings<F>(u: Upgrade<F>) -> (Option<usize>, usize, usize) {
    (u.max_payload_size, u.flush_threshold, u.frame_size)
}

/// The function that an upgrade runs on upgraded connections.
pub closed spec fn upgrade_handler<F>(u: Upgrade<F>) -> F {
    u.on_upgrade
}

impl<F> Upgrade<F> {
    /// An upgrade with the given settings and function.
    pub fn new(max_payload_size: Option<usize>, flush_threshold: usize, frame_size: usize, on_upgrade: F) -> (r: Upgrade<F>)
        ensures
            upgrade_settings(r) == (max_payload_size, flush_threshold, frame_size),
            upgrade_handler(r) == on_upgrade,
    {
        Upgrade { max_payload_size, flush_threshold, frame_size, on_upgrade }
    }

    /// Sets the threshold at which queued bytes are flushed.
    pub fn flush_threshold(self, flush_threshold: usize) -> (r: Upgrade<F>)
        ensures
            upgrade_settings(r) == (upgrade_settings(self).0, flush_threshold, upgrade_settings(self).2),
            upgrade_handler(r) == upgrade_handler(self),
    {
        Upgrade { flush_threshold, ..self }
    }

    /// Sets the frame size.
    pub fn frame_size(self, frame_size: usize) -> (r: Upgrade<F>)
        ensures
            upgrade_settings(r) == (upgrade_settings(self).0, upgrade_settings(self).1, frame_size),
            upgrade_handler(r) == upgrade_handler(self),
    {
        Upgrade { frame_size, ..self }
    }

    /// Sets the maximum payload size, or removes the limit.
    pub fn max_payload_size(self, max_payload_size: Option<usize>) -> (r: Upgrade<F>)
        ensures
            upgrade_settings(r) == (max_payload_size, upgrade_settings(self).1, upgrade_settings(self).2),
            upgrade_handler(r) == upgrade_handler(self),
    {
        Upgrade { max_payload_size, ..self }
    }

    /// The settings: maximum payload size, flush threshold, frame size.
    pub fn settings(&self) -> (r: (Option<usize>, usize, usize))
        ensures
            r == upgrade_settings(*self),
    {
        (self.max_payload_size, self.flush_threshold, self.frame_size)
    }

    /// The function that runs on upgraded connections.
    pub fn on_upgrade(&self) -> (r: &F)
        ensures
            *r == upgrade_handler(*self),
    {
        &self.on_upgrade
    }
}

impl<S> Context<S> {
    /// The path of the request.
    pub closed spec fn spec_path(&self) -> Seq<char> {
        self.inner.spec_path()
    }

    /// The parameters matched in the path, as names and values, in order.
    pub closed spec fn spec_params(&self) -> Seq<(Seq<char>, Seq<char>)> {
        self.inner.spec_params()
    }

    /// The query of the request.
    pub closed spec fn spec_query(&self) -> Seq<char> {
        self.inner.spec_query()
    }

    /// The state of the application.
    pub closed spec fn spec_state(&self) -> S {
        *self.inner.spec_state()
    }

    /// A context for the given path, path parameters, query and state.
    pub fn new(path: String, params: Vec<(String, String)>, query: String, state: Arc<S>) -> (r: Context<S>)
        ensures
            r.spec_path() == path@,
            r.spec_params() == super::handshake::pairs_text(params@),
            r.spec_query() == query@,
            r.spec_state() == *state,
    {
        Context { inner: RequestContext::new(path, params, query, state) }
    }

    /// The path of the request.
    pub fn path(&self) -> (r: &str)
        ensures
            r@ == self.spec_path(),
    {
        self.inner.path()
    }

    /// The state of the application.
    pub fn state(&self) -> (r: &S)
        ensures
            *r == self.spec_state(),
    {
        &**self.inner.state()
    }

    /// The path parameter with the given name: the value of the first
    /// parameter so named, or none.
    pub fn param<'b>(&self, name: &'b str) -> (r: PathParam<'_, 'b>)
        ensures
            r.name@ == name@,
            (r.value is None) <==> forall|j: int|
                0 <= j < self.spec_params().len() ==> (#[trigger] self.spec_params()[j]).0 != name@,
            r.value matches Some(v) ==> exists|i: int|
                is_first_param(self.spec_params(), name@, i) && v@ == (#[trigger] self.spec_params()[i]).1,
    {
        let r = self.inner.param(name);
        let ghost params = self.inner.spec_params();
        assert(self.spec_params() == params);
        proof {
            if let Some(v) = r.value {
                let i = choose|i: int| is_first_param(params, name@, i) && v@ == (#[trigger] params[i]).1;
                assert(is_first_param(self.spec_params(), name@, i) && v@ == self.spec_params()[i].1);
            }
        }
        r
    }

    /// The query parameter with the given name, read from the query of the
    /// request.
    pub fn query<'b>(&self, name: &'b str) -> (r: QueryParam<'_, 'b>)
        ensures
            r.name@ == name@,
            r.query@ == self.spec_query(),
    {
        self.inner.query(name)
    }
}

} // verus!
