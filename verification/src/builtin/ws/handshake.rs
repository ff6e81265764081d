//! The opening handshake of a web socket, and the settings of the
//! connection that follows it.

use std::sync::Arc;
use vstd::prelude::*;

use crate::bindings::crypto::{base64_char, base64_encode, base64_of, sha1, sha1_of};
use crate::error::{Error, ErrorView};
use crate::util::{concat3, concat_slices, text_eq};

verus! {

/// The GUID that the handshake appends to the key of the client, the ASCII
/// bytes of `258EAFA5-E914-47DA-95CA-C5AB0DC85B11`.
pub open spec fn websocket_guid() -> Seq<u8> {
    seq![50, 53, 56, 69, 65, 70, 65, 53, 45, 69, 57, 49, 52, 45, 52, 55, 68, 65, 45, 57, 53, 67, 65, 45, 67, 53, 65, 66, 48, 68, 67, 56, 53, 66, 49, 49]
}

/// The value of the `Sec-WebSocket-Accept` header for a key: the base64
/// encoding of the SHA-1 digest of the key followed by the GUID.
pub open spec fn accept_key_of(key: Seq<char>) -> Seq<char> {
    base64_of(sha1_of(vstd::utf8::encode_utf8(key) + websocket_guid()))
}

/// Keys short enough to be hashed.
pub open spec fn key_len_ok(key: &str) -> bool {
    key.spec_bytes_len() < 0x1000_0000_0000_0000
}

/// The number of UTF-8 bytes of a text.
pub trait SpecBytesLen {
    spec fn spec_bytes_len(&self) -> nat;
}

impl SpecBytesLen for str {
    open spec fn spec_bytes_len(&self) -> nat {
        vstd::utf8::encode_utf8(self@).len()
    }
}

/// The `Sec-WebSocket-Accept` value for the given `Sec-WebSocket-Key`.
pub fn accept_key(key: &str) -> (r: String)
    requires
        key_len_ok(key),
    ensures
        r@ == accept_key_of(key@),
        r@.len() == 28,
        forall|i: int| 0 <= i < r@.len() ==> base64_char(#[trigger] r@[i]),
{
    let guid: [u8; 36] = [50, 53, 56, 69, 65, 70, 65, 53, 45, 69, 57, 49, 52, 45, 52, 55, 68, 65, 45, 57, 53, 67, 65, 45, 67, 53, 65, 66, 48, 68, 67, 56, 53, 66, 49, 49];
    assert(guid@ =~= websocket_guid());
    let input = concat_slices(key.as_bytes(), guid.as_slice());
    let digest = sha1(input.as_slice());
    base64_encode(digest.as_slice())
}

/// The error for a missing key.
pub open spec fn missing_key_error() -> ErrorView {
    ErrorView {
        as_json: false,
        status: 400,
        error: "Missing required header: \"Sec-Websocket-Key\"."@,
        message: None,
    }
}

/// The error for an unsupported version.
pub open spec fn bad_version_error(version: Seq<char>) -> ErrorView {
    ErrorView {
        as_json: false,
        status: 400,
        error: "Unsupported websocket version: \""@ + version + "\"."@,
        message: None,
    }
}

/// Checks the `Sec-WebSocket-Version` header: version 13, or no header, is
/// accepted.
pub fn validate_websocket_version(version: Option<&str>) -> (r: Result<(), Error>)
    ensures
        match version {
            None => r is Ok,
            Some(v) => if v@ == "13"@ {
                r is Ok
            } else {
                r matches Err(e) && e.view() == bad_version_error(v@)
            },
        },
{
    match version {
        None => Ok(()),
        Some(v) => if text_eq(v, "13") {
            Ok(())
        } else {
            Err(Error::bad_request(concat3("Unsupported websocket version: \"", v, "\".")))
        },
    }
}

/// Computes the accept key from the `Sec-WebSocket-Key` header, which must
/// be present.
pub fn validate_accept_key(key: Option<&str>) -> (r: Result<String, Error>)
    requires
        key matches Some(k) ==> key_len_ok(k),
    ensures
        match key {
            None => r matches Err(e) && e.view() == missing_key_error(),
            Some(k) => r matches Ok(a) && a@ == accept_key_of(k@),
        },
{
    match key {
        None => Err(
            Error::bad_request(String::from_str("Missing required header: \"Sec-Websocket-Key\".")),
        ),
        Some(k) => Ok(accept_key(k)),
    }
}

/// What the handshake middleware does with a request.
pub enum HandshakeOutcome {
    /// The request asks for no web socket: it goes to the next middleware.
    Next,
    /// The request is refused with this error.
    Reject(Error),
    /// The connection is upgraded; the response carries this accept key.
    Accept(String),
}

/// Decides the handshake from the `Upgrade`, `Sec-WebSocket-Version` and
/// `Sec-WebSocket-Key` headers of a request, each looked up as text (the
/// lookup fails when a header is not valid text). A request whose `Upgrade`
/// header is not `websocket` goes on to the next middleware; otherwise the
/// version is checked and the accept key computed, and the first failure is
/// the answer.
pub fn handshake_outcome(
    upgrade: Result<Option<&str>, Error>,
    version: Result<Option<&str>, Error>,
    key: Result<Option<&str>, Error>,
) -> (r: HandshakeOutcome)
    requires
        key matches Ok(Some(k)) ==> key_len_ok(k),
    ensures
        match upgrade {
            Err(e) => r matches HandshakeOutcome::Reject(x) && x.view() == e.view(),
            Ok(None) => r is Next,
            Ok(Some(u)) => if u@ != "websocket"@ {
                r is Next
            } else {
                match version {
                    Err(e) => r matches HandshakeOutcome::Reject(x) && x.view() == e.view(),
                    Ok(Some(v)) if v@ != "13"@ => r matches HandshakeOutcome::Reject(x)
                        && x.view() == bad_version_error(v@),
                    _ => match key {
                        Err(e) => r matches HandshakeOutcome::Reject(x) && x.view() == e.view(),
                        Ok(None) => r matches HandshakeOutcome::Reject(x) && x.view()
                            == missing_key_error(),
                        Ok(Some(k)) => r matches HandshakeOutcome::Accept(a) && a@
                            == accept_key_of(k@),
                    },
                }
            },
        },
{
    match upgrade {
        Err(e) => return HandshakeOutcome::Reject(e),
        Ok(None) => return HandshakeOutcome::Next,
        Ok(Some(u)) => if !text_eq(u, "websocket") {
            return HandshakeOutcome::Next;
        },
    }
    match version {
        Err(e) => return HandshakeOutcome::Reject(e),
        Ok(v) => match validate_websocket_version(v) {
            Err(e) => return HandshakeOutcome::Reject(e),
            Ok(()) => {},
        },
    }
    match key {
        Err(e) => HandshakeOutcome::Reject(e),
        Ok(k) => match validate_accept_key(k) {
            Err(e) => HandshakeOutcome::Reject(e),
            Ok(a) => HandshakeOutcome::Accept(a),
        },
    }
}

/// The web socket middleware: the settings of the connection and the
/// function that runs once it is upgraded.
pub struct Handshake<F> {
    max_payload_len: Option<usize>,
    flush_threshold: usize,
    frame_size: usize,
    on_upgrade: F,
}

/// The settings of a handshake: the maximum payload length, the flush
/// threshold and the frame size.
pub closed spec fn handshake_settings<F>(h: Handshake<F>) -> (Option<usize>, usize, usize) {
    (h.max_payload_len, h.flush_threshold, h.frame_size)
}

/// The function that a handshake runs on upgraded connections.
pub closed spec fn upgrade_fn<F>(h: Handshake<F>) -> F {
    h.on_upgrade
}

/// Upgrades connections to web sockets and runs `upgraded` on each: frames
/// of 4 KB, a flush threshold of twice that, and no limit on payloads.
pub fn ws<F>(upgraded: F) -> (r: Handshake<F>)
    ensures
        handshake_settings(r) == (None::<usize>, 8192usize, 4096usize),
        upgrade_fn(r) == upgraded,
{
    let frame_size: usize = 4 * 1024;
    let flush_threshold: usize = frame_size * 2;
    Handshake { flush_threshold, frame_size, max_payload_len: None, on_upgrade: upgraded }
}

impl<F> Handshake<F> {
    /// Sets the threshold at which queued bytes are flushed.
    pub fn flush_threshold(self, flush_threshold: usize) -> (r: Handshake<F>)
        ensures
            handshake_settings(r) == (handshake_settings(self).0, flush_threshold, handshake_settings(self).2),
            upgrade_fn(r) == upgrade_fn(self),
    {
        Handshake { flush_threshold, ..self }
    }

    /// Sets the frame size used for messages, in bytes.
    pub fn frame_size(self, frame_size: usize) -> (r: Handshake<F>)
        ensures
            handshake_settings(r) == (handshake_settings(self).0, handshake_settings(self).1, frame_size),
            upgrade_fn(r) == upgrade_fn(self),
    {
        Handshake { frame_size, ..self }
    }

    /// Sets the maximum payload length, or removes the limit.
    pub fn max_payload_len(self, max_payload_len: Option<usize>) -> (r: Handshake<F>)
        ensures
            handshake_settings(r) == (max_payload_len, handshake_settings(self).1, handshake_settings(self).2),
            upgrade_fn(r) == upgrade_fn(self),
    {
        Handshake { max_payload_len, ..self }
    }

    /// The settings: maximum payload length, flush threshold, frame size.
    pub fn settings(&self) -> (r: (Option<usize>, usize, usize))
        ensures
            r == handshake_settings(*self),
    {
        (self.max_payload_len, self.flush_threshold, self.frame_size)
    }

    /// The function that runs on upgraded connections.
    pub fn on_upgrade(&self) -> (r: &F)
        ensures
            *r == upgrade_fn(*self),
    {
        &self.on_upgrade
    }
}

/// The request that a web socket was opened with: its path, the
/// parameters matched in the path, its query and the state of the
/// application.
pub struct RequestContext<T> {
    path: String,
    params: Vec<(String, String)>,
    query: String,
    state: Arc<T>,
}

/// A parameter of the path looked up by name: the value, when the route
/// matched a parameter of that name.
#[derive(Debug)]
pub struct PathParam<'a, 'b> {
    pub name: &'b str,
    pub value: Option<&'a str>,
}

/// A parameter of the query looked up by name, with the query it is read
/// from.
#[derive(Debug)]
pub struct QueryParam<'a, 'b> {
    pub name: &'b str,
    pub query: &'a str,
}

/// The views of a list of named values.
pub open spec fn pairs_text(v: Seq<(String, String)>) -> Seq<(Seq<char>, Seq<char>)> {
    v.map_values(|p: (String, String)| (p.0@, p.1@))
}

/// The index of the first parameter with the given name.
pub open spec fn is_first_param(params: Seq<(Seq<char>, Seq<char>)>, name: Seq<char>, i: int) -> bool {
    &&& 0 <= i < params.len()
    &&& params[i].0 == name
    &&& forall|j: int| 0 <= j < i ==> (#[trigger] params[j]).0 != name
}

impl<T> RequestContext<T> {
    /// The path of the request.
    pub closed spec fn spec_path(&self) -> Seq<char> {
        self.path@
    }

    /// The parameters matched in the path, as names and values, in order.
    pub closed spec fn spec_params(&self) -> Seq<(Seq<char>, Seq<char>)> {
        pairs_text(self.params@)
    }

    /// The query of the request.
    pub closed spec fn spec_query(&self) -> Seq<char> {
        self.query@
    }

    /// The state of the application.
    pub closed spec fn spec_state(&self) -> Arc<T> {
        self.state
    }

    /// A context for the given path, path parameters, query and state.
    pub fn new(path: String, params: Vec<(String, String)>, query: String, state: Arc<T>) -> (r: RequestContext<T>)
        ensures
            r.spec_path() == path@,
            r.spec_params() == pairs_text(params@),
            r.spec_query() == query@,
            r.spec_state() == state,
    {
        RequestContext { path, params, query, state }
    }

    /// The path of the request.
    pub fn path(&self) -> (r: &str)
        ensures
            r@ == self.spec_path(),
    {
        self.path.as_str()
    }

    /// The state of the application.
    pub fn state(&self) -> (r: &Arc<T>)
        ensures
            *r == self.spec_state(),
    {
        &self.state
    }

    /// The path parameter with the given name: the value of the first
    /// parameter so named, or none.
    pub fn param<'b>(&self, name: &'b str) -> (r: PathParam<'_, 'b>)
        ensures
            r.name@ == name@,
            (r.value is None) <==> forall|j: int|
                0 <= j < self.spec_params().len() ==> (#[trigger] self.spec_params()[j]).0 != name@,
            r.value matches Some(v) ==> exists|i: int|
                is_first_param(self.spec_params(), name@, i) && v@ == (#[trigger] self.spec_params()[i]).1,
    {
        let ghost params = self.spec_params();
        let mut i: usize = 0;
        while i < self.params.len()
            invariant
                i <= self.params@.len(),
                params == pairs_text(self.params@),
                forall|j: int| 0 <= j < i ==> (#[trigger] params[j]).0 != name@,
            decreases self.params@.len() - i,
        {
            let (key, value) = &self.params[i];
            assert(params[i as int] == (key@, value@));
            if text_eq(key.as_str(), name) {
                assert(is_first_param(params, name@, i as int));
                assert(self.spec_params()[i as int].0 == name@);
                return PathParam { name, value: Some(value.as_str()) };
            }
            i += 1;
        }
        PathParam { name, value: None }
    }

    /// The query parameter with the given name, read from the query of the
    /// request.
    pub fn query<'b>(&self, name: &'b str) -> (r: QueryParam<'_, 'b>)
        ensures
            r.name@ == name@,
            r.query@ == self.spec_query(),
    {
        QueryParam { name, query: self.query.as_str() }
    }
}

} // verus!
