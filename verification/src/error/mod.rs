//! Errors that are turned into responses.

pub mod chained;
pub mod rescue;
pub mod server;

use vstd::prelude::*;
use vstd::string::StringExecFns;

use crate::bindings::http_types::{canonical_reason_of, status_canonical_reason, status_number};
use crate::bindings::io::{IoErrorKind, io_error_kind, io_error_text};
use crate::bindings::json::{json_string, json_string_of};
use crate::status::known;
use http::StatusCode;

verus! {

/// An error that can be turned into a response. It holds the status code
/// of the response, the text of the error that caused it, an optional
/// message that replaces that text in the body, and whether the body is
/// JSON.
#[derive(Debug)]
pub struct Error {
    as_json: bool,
    status: StatusCode,
    error: String,
    fmt: Option<String>,
}

/// The message of an error made from a status code and a text.
#[derive(Debug)]
pub struct Message {
    message: String,
}

/// The body of a response made from an error.
#[derive(Debug, PartialEq, Eq)]
pub enum ErrorBody {
    /// A JSON document, `application/json`.
    Json(String),
    /// Plain text.
    Text(String),
}

/// A response made from an error: its status code and body.
#[derive(Debug)]
pub struct ErrorResponse {
    pub status: StatusCode,
    pub body: ErrorBody,
}

/// The abstract value of an error: whether it responds with JSON, the
/// status code, the source text and the replacement message.
pub struct ErrorView {
    pub as_json: bool,
    pub status: u16,
    pub error: Seq<char>,
    pub message: Option<Seq<char>>,
}

impl Message {
    /// A message with the given text.
    pub fn new(message: String) -> (r: Message)
        ensures
            r.text() == message@,
    {
        Message { message }
    }

    /// The text of the message.
    pub closed spec fn text(&self) -> Seq<char> {
        self.message@
    }

    /// The text of the message, as its `Display` gives it.
    pub fn to_string(&self) -> (r: String)
        ensures
            r@ == self.text(),
    {
        self.message.clone()
    }
}

/// The status code of a response to an I/O error of the given kind.
pub open spec fn io_kind_status(kind: IoErrorKind) -> u16 {
    match kind {
        IoErrorKind::AlreadyExists => 409,
        IoErrorKind::BrokenPipe | IoErrorKind::ConnectionReset | IoErrorKind::ConnectionAborted => 502,
        IoErrorKind::ConnectionRefused => 503,
        IoErrorKind::InvalidData | IoErrorKind::InvalidInput => 400,
        IoErrorKind::IsADirectory | IoErrorKind::NotADirectory | IoErrorKind::PermissionDenied => 403,
        IoErrorKind::NotFound => 404,
        IoErrorKind::TimedOut => 504,
        IoErrorKind::Other => 500,
    }
}

/// The status codes that have a named error constructor.
pub open spec fn is_error_code(code: u16) -> bool {
    code == 400 || code == 401 || code == 402 || code == 403 || code == 404 || code == 405 || code == 406 || code == 407 || code == 408 || code == 409 || code == 410 || code == 411 || code == 412 || code == 413 || code == 414 || code == 415 || code == 416 || code == 417 || code == 418 || code == 421 || code == 422 || code == 423 || code == 424 || code == 426 || code == 428 || code == 429 || code == 431 || code == 451 || code == 500 || code == 501 || code == 502 || code == 503 || code == 504 || code == 505 || code == 506 || code == 507 || code == 508 || code == 510 || code == 511
}

/// The message of an error made from a bare status code.
pub open spec fn default_message(code: u16) -> Option<Seq<char>> {
    match code {
        400 => Some("Bad request."@),
        401 => Some("Unauthorized."@),
        402 => Some("Payment required."@),
        403 => Some("Forbidden."@),
        404 => Some("Not found."@),
        405 => Some("Method not allowed."@),
        406 => Some("Not acceptable."@),
        407 => Some("Proxy authentication required."@),
        408 => Some("Request timeout."@),
        409 => Some("Conflict."@),
        410 => Some("Gone."@),
        411 => Some("Length required."@),
        412 => Some("Precondition failed."@),
        413 => Some("Payload too large."@),
        414 => Some("URI too long."@),
        415 => Some("Unsupported media type."@),
        416 => Some("Range not satisfiable."@),
        417 => Some("Expectation failed."@),
        418 => Some("I'm a teapot."@),
        421 => Some("Misdirected request."@),
        422 => Some("Unprocessable entity."@),
        423 => Some("Locked."@),
        424 => Some("Failed dependency."@),
        426 => Some("Upgrade required."@),
        428 => Some("Precondition required."@),
        429 => Some("Too many requests."@),
        431 => Some("Request header fields too large."@),
        451 => Some("Unavailable for legal reasons."@),
        500 => Some("Internal server error."@),
        501 => Some("Not implemented."@),
        502 => Some("Bad gateway."@),
        503 => Some("Service unavailable."@),
        504 => Some("Gateway timeout."@),
        505 => Some("HTTP version not supported."@),
        506 => Some("Variant also negotiates."@),
        507 => Some("Insufficient storage."@),
        508 => Some("Loop detected."@),
        510 => Some("Not extended."@),
        511 => Some("Network authentication required."@),
        _ => None,
    }
}

/// The JSON document of an error response: one error with a message.
pub open spec fn errors_json(message: Seq<char>) -> Seq<char> {
    "{\"errors\":[{\"message\":"@ + json_string_of(message) + "}]}"@
}

/// The response that an error becomes: its status code, and either its
/// JSON document or its message as plain text.
pub open spec fn responds_with(v: ErrorView, r: ErrorResponse) -> bool {
    &&& status_number(r.status) == v.status
    &&& v.as_json ==> (r.body matches ErrorBody::Json(j) && j@ == errors_json(Error::spec_message(v)))
    &&& !v.as_json ==> (r.body matches ErrorBody::Text(t) && t@ == Error::spec_message(v))
}

impl Error {
    /// The abstract value of the error.
    pub closed spec fn view(&self) -> ErrorView {
        ErrorView {
            as_json: self.as_json,
            status: status_number(self.status),
            error: self.error@,
            message: match self.fmt {
                Some(m) => Some(m@),
                None => None,
            },
        }
    }

    /// An error with the given status code and source text that responds
    /// with plain text.
    pub open spec fn spec_new(status: u16, error: String) -> ErrorView {
        ErrorView { as_json: false, status, error: error@, message: None }
    }

    /// The message that the response carries: the replacement message, or
    /// else the text of the source.
    pub open spec fn spec_message(v: ErrorView) -> Seq<char> {
        match v.message {
            Some(m) => m,
            None => v.error,
        }
    }

    /// Creates an error from the provided status code and source text.
    pub fn new(status: StatusCode, error: String) -> (r: Error)
        ensures
            r.view() == Error::spec_new(status_number(status), error),
    {
        Error { as_json: false, status, error, fmt: None }
    }

    /// The status code of an I/O error of the given kind.
    pub fn status_for_io_kind(kind: IoErrorKind) -> (r: StatusCode)
        ensures
            status_number(r) == io_kind_status(kind),
    {
        let code: u16 = match kind {
            IoErrorKind::AlreadyExists => 409,
            IoErrorKind::BrokenPipe | IoErrorKind::ConnectionReset | IoErrorKind::ConnectionAborted => 502,
            IoErrorKind::ConnectionRefused => 503,
            IoErrorKind::InvalidData | IoErrorKind::InvalidInput => 400,
            IoErrorKind::IsADirectory | IoErrorKind::NotADirectory | IoErrorKind::PermissionDenied => 403,
            IoErrorKind::NotFound => 404,
            IoErrorKind::TimedOut => 504,
            IoErrorKind::Other => 500,
        };
        known(code)
    }

    /// An error for an I/O error of the given kind and text.
    pub fn from_io_kind(kind: IoErrorKind, text: String) -> (r: Error)
        ensures
            r.view() == Error::spec_new(io_kind_status(kind), text),
    {
        Error::new(Error::status_for_io_kind(kind), text)
    }

    /// Creates an error from an I/O error; its status code follows the kind
    /// of the I/O error.
    pub fn from_io(error: std::io::Error) -> (r: Error)
        ensures
            exists|kind: IoErrorKind, text: String| r.view() == Error::spec_new(
                io_kind_status(kind), text),
    {
        let kind = io_error_kind(&error);
        let text = io_error_text(&error);
        Error::from_io_kind(kind, text)
    }

    /// The error, responding with JSON.
    pub fn as_json(self) -> (r: Error)
        ensures
            r.view() == (ErrorView { as_json: true, ..self.view() }),
    {
        Error { as_json: true, ..self }
    }

    /// The error with a message that replaces the text of the source in
    /// its response.
    pub fn with_message(self, message: String) -> (r: Error)
        ensures
            r.view() == (ErrorView { message: Some(message@), ..self.view() }),
    {
        Error { fmt: Some(message), ..self }
    }

    /// The error with another status code.
    pub fn with_status(self, status: StatusCode) -> (r: Error)
        ensures
            r.view() == (ErrorView { status: status_number(status), ..self.view() }),
    {
        Error { status, ..self }
    }

    /// The error with the canonical reason of its status code as its message,
    /// or `An error occurred` when the code has none.
    pub fn use_canonical_reason(self) -> (r: Error)
        ensures
            r.view() == (ErrorView {
                message: Some(match canonical_reason_of(self.view().status) {
                    Some(reason) => reason,
                    None => "An error occurred"@,
                }),
                ..self.view()
            }),
    {
        match status_canonical_reason(&self.status) {
            Some(reason) => self.with_message(String::from_str(reason)),
            None => self.with_message(String::from_str("An error occurred")),
        }
    }

    /// The error with its message passed through `f`: `f` gets the current
    /// message (the replacement message, or else the text of the source) and
    /// returns a new message, or `None` to keep the current one.
    pub fn redact<F: FnOnce(&str) -> Option<String>>(self, f: F) -> (r: Error)
        requires
            forall|s: &str| f.requires((s,)),
        ensures
            exists|s: &str, out: Option<String>|
                {
                    &&& s@ == Error::spec_message(self.view())
                    &&& f.ensures((s,), out)
                    &&& r.view() == match out {
                        Some(m) => ErrorView { message: Some(m@), ..self.view() },
                        None => ErrorView {
                            message: Some(Error::spec_message(self.view())),
                            ..self.view()
                        },
                    }
                },
    {
        match &self.fmt {
            Some(message) => {
                let out = f(message.as_str());
                match out {
                    Some(redacted) => self.with_message(redacted),
                    None => self,
                }
            },
            None => {
                let message = self.error.clone();
                let out = f(message.as_str());
                match out {
                    Some(redacted) => self.with_message(redacted),
                    None => self.with_message(message),
                }
            },
        }
    }

    /// The status code of the error.
    pub fn status(&self) -> (r: StatusCode)
        ensures
            status_number(r) == self.view().status,
    {
        self.status
    }

    /// The text of the error's source.
    pub fn source(&self) -> (r: &str)
        ensures
            r@ == self.view().error,
    {
        self.error.as_str()
    }

    /// The text of the error, as its `Display` gives it: the text of the
    /// source.
    pub fn to_string(&self) -> (r: String)
        ensures
            r@ == self.view().error,
    {
        self.error.clone()
    }

    /// The JSON document of the error: `{"errors":[{"message":..}]}` with
    /// the replacement message, or else the text of the source.
    pub fn to_json(&self) -> (r: String)
        ensures
            r@ == errors_json(Error::spec_message(self.view())),
    {
        let message = match &self.fmt {
            Some(m) => json_string(m.as_str()),
            None => json_string(self.error.as_str()),
        };
        let mut out = String::from_str("{\"errors\":[{\"message\":");
        out.append(message.as_str());
        out.append("}]}");
        out
    }

    /// The response for the error: its status code, and either its JSON
    /// document or its message as plain text. The message is the replacement
    /// message where one is set, so that the text of the source stays out of
    /// the body once `with_message` or `use_canonical_reason` was called.
    pub fn into_response(self) -> (r: ErrorResponse)
        ensures
            responds_with(self.view(), r),
    {
        if self.as_json {
            let json = self.to_json();
            ErrorResponse { status: self.status, body: ErrorBody::Json(json) }
        } else {
            let text = match self.fmt {
                Some(message) => message,
                None => self.error,
            };
            ErrorResponse { status: self.status, body: ErrorBody::Text(text) }
        }
    }

    /// An error caused by another error, given by its text: it responds
    /// with `500 Internal Server Error`, as any error does that reaches a
    /// handler's caller without a status code of its own.
    pub fn from_source(error: String) -> (r: Error)
        ensures
            r.view() == Error::spec_new(500, error),
    {
        Error::new(known(500), error)
    }

    /// The error for a status code and message, for the status codes that
    /// have a named constructor; `None` for any other code.
    pub fn from_code(code: u16, message: String) -> (r: Option<Error>)
        ensures
            r is Some <==> is_error_code(code),
            r matches Some(e) ==> e.view() == Error::spec_new(code, message),
    {
        if code == 400 || code == 401 || code == 402 || code == 403 || code == 404 || code == 405 || code == 406 || code == 407 || code == 408 || code == 409 || code == 410 || code == 411 || code == 412 || code == 413 || code == 414 || code == 415 || code == 416 || code == 417 || code == 418 || code == 421 || code == 422 || code == 423 || code == 424 || code == 426 || code == 428 || code == 429 || code == 431 || code == 451 || code == 500 || code == 501 || code == 502 || code == 503 || code == 504 || code == 505 || code == 506 || code == 507 || code == 508 || code == 510 || code == 511 {
            Some(Error::new(known(code), message))
        } else {
            None
        }
    }

    /// The error for a bare status code, with the default message of the
    /// code; `None` for a code without a named constructor.
    pub fn from_code_default(code: u16) -> (r: Option<Error>)
        ensures
            r is Some <==> default_message(code) is Some,
            r matches Some(e) ==> e.view().status == code && e.view().error == default_message(
                code,
            ).unwrap() && !e.view().as_json && e.view().message is None,
    {
        let message: Option<&str> = match code {
            400 => Some("Bad request."),
            401 => Some("Unauthorized."),
            402 => Some("Payment required."),
            403 => Some("Forbidden."),
            404 => Some("Not found."),
            405 => Some("Method not allowed."),
            406 => Some("Not acceptable."),
            407 => Some("Proxy authentication required."),
            408 => Some("Request timeout."),
            409 => Some("Conflict."),
            410 => Some("Gone."),
            411 => Some("Length required."),
            412 => Some("Precondition failed."),
            413 => Some("Payload too large."),
            414 => Some("URI too long."),
            415 => Some("Unsupported media type."),
            416 => Some("Range not satisfiable."),
            417 => Some("Expectation failed."),
            418 => Some("I'm a teapot."),
            421 => Some("Misdirected request."),
            422 => Some("Unprocessable entity."),
            423 => Some("Locked."),
            424 => Some("Failed dependency."),
            426 => Some("Upgrade required."),
            428 => Some("Precondition required."),
            429 => Some("Too many requests."),
            431 => Some("Request header fields too large."),
            451 => Some("Unavailable for legal reasons."),
            500 => Some("Internal server error."),
            501 => Some("Not implemented."),
            502 => Some("Bad gateway."),
            503 => Some("Service unavailable."),
            504 => Some("Gateway timeout."),
            505 => Some("HTTP version not supported."),
            506 => Some("Variant also negotiates."),
            507 => Some("Insufficient storage."),
            508 => Some("Loop detected."),
            510 => Some("Not extended."),
            511 => Some("Network authentication required."),
            _ => None,
        };
        match message {
            Some(m) => {
                assert(is_error_code(code));
                Error::from_code(code, String::from_str(m))
            },
            None => None,
        }
    }

    /// An error from the given source that becomes a `400 Bad Request` response.
    pub fn bad_request(source: String) -> (r: Error)
        ensures
            r.view() == Error::spec_new(400, source),
    {
        Error::new(known(400), source)
    }

    /// An error from the given source that becomes a `401 Unauthorized` response.
    pub fn unauthorized(source: String) -> (r: Error)
        ensures
            r.view() == Error::spec_new(401, source),
    {
        Error::new(known(401), source)
    }

    /// An error from the given source that becomes a `402 Payment Required` response.
    pub fn payment_required(source: String) -> (r: Error)
        ensures
            r.view() == Error::spec_new(402, source),
    {
        Error::new(known(402), source)
    }

    /// An error from the given source that becomes a `403 Forbidden` response.
    pub fn forbidden(source: String) -> (r: Error)
        ensures
            r.view() == Error::spec_new(403, source),
    {
        Error::new(known(403), source)
    }

    /// An error from the given source that becomes a `404 Not Found` response.
    pub fn not_found(source: String) -> (r: Error)
        ensures
            r.view() == Error::spec_new(404, source),
    {
        Error::new(known(404), source)
    }

    /// An error from the given source that becomes a `405 Method Not Allowed` response.
    pub fn method_not_allowed(source: String) -> (r: Error)
        ensures
            r.view() == Error::spec_new(405, source),
    {
        Error::new(known(405), source)
    }

    /// An error from the given source that becomes a `406 Not Acceptable` response.
    pub fn not_acceptable(source: String) -> (r: Error)
        ensures
            r.view() == Error::spec_new(406, source),
    {
        Error::new(known(406), source)
    }

    /// An error from the given source that becomes a `407 Proxy Authentication Required` response.
    pub fn proxy_authentication_required(source: String) -> (r: Error)
        ensures
            r.view() == Error::spec_new(407, source),
    {
        Error::new(known(407), source)
    }

    /// An error from the given source that becomes a `408 Request Timeout` response.
    pub fn request_timeout(source: String) -> (r: Error)
        ensures
            r.view() == Error::spec_new(408, source),
    {
        Error::new(known(408), source)
    }

    /// An error from the given source that becomes a `409 Conflict` response.
    pub fn conflict(source: String) -> (r: Error)
        ensures
            r.view() == Error::spec_new(409, source),
    {
        Error::new(known(409), source)
    }

    /// An error from the given source that becomes a `410 Gone` response.
    pub fn gone(source: String) -> (r: Error)
        ensures
            r.view() == Error::spec_new(410, source),
    {
        Error::new(known(410), source)
    }

    /// An error from the given source that becomes a `411 Length Required` response.
    pub fn length_required(source: String) -> (r: Error)
        ensures
            r.view() == Error::spec_new(411, source),
    {
        Error::new(known(411), source)
    }

    /// An error from the given source that becomes a `412 Precondition Failed` response.
    pub fn precondition_failed(source: String) -> (r: Error)
        ensures
            r.view() == Error::spec_new(412, source),
    {
        Error::new(known(412), source)
    }

    /// An error from the given source that becomes a `413 Payload Too Large` response.
    pub fn payload_too_large(source: String) -> (r: Error)
        ensures
            r.view() == Error::spec_new(413, source),
    {
        Error::new(known(413), source)
    }

    /// An error from the given source that becomes a `414 URI Too Long` response.
    pub fn uri_too_long(source: String) -> (r: Error)
        ensures
            r.view() == Error::spec_new(414, source),
    {
        Error::new(known(414), source)
    }

    /// An error from the given source that becomes a `415 Unsupported Media Type` response.
    pub fn unsupported_media_type(source: String) -> (r: Error)
        ensures
            r.view() == Error::spec_new(415, source),
    {
        Error::new(known(415), source)
    }

    /// An error from the given source that becomes a `416 Range Not Satisfiable` response.
    pub fn range_not_satisfiable(source: String) -> (r: Error)
        ensures
            r.view() == Error::spec_new(416, source),
    {
        Error::new(known(416), source)
    }

    /// An error from the given source that becomes a `417 Expectation Failed` response.
    pub fn expectation_failed(source: String) -> (r: Error)
        ensures
            r.view() == Error::spec_new(417, source),
    {
        Error::new(known(417), source)
    }

    /// An error from the given source that becomes a `418 I'm a teapot` response.
    pub fn im_a_teapot(source: String) -> (r: Error)
        ensures
            r.view() == Error::spec_new(418, source),
    {
        Error::new(known(418), source)
    }

    /// An error from the given source that becomes a `421 Misdirected Request` response.
    pub fn misdirected_request(source: String) -> (r: Error)
        ensures
            r.view() == Error::spec_new(421, source),
    {
        Error::new(known(421), source)
    }

    /// An error from the given source that becomes a `422 Unprocessable Entity` response.
    pub fn unprocessable_entity(source: String) -> (r: Error)
        ensures
            r.view() == Error::spec_new(422, source),
    {
        Error::new(known(422), source)
    }

    /// An error from the given source that becomes a `423 Locked` response.
    pub fn locked(source: String) -> (r: Error)
        ensures
            r.view() == Error::spec_new(423, source),
    {
        Error::new(known(423), source)
    }

    /// An error from the given source that becomes a `424 Failed Dependency` response.
    pub fn failed_dependency(source: String) -> (r: Error)
        ensures
            r.view() == Error::spec_new(424, source),
    {
        Error::new(known(424), source)
    }

    /// An error from the given source that becomes a `426 Upgrade Required` response.
    pub fn upgrade_required(source: String) -> (r: Error)
        ensures
            r.view() == Error::spec_new(426, source),
    {
        Error::new(known(426), source)
    }

    /// An error from the given source that becomes a `428 Precondition Required` response.
    pub fn precondition_required(source: String) -> (r: Error)
        ensures
            r.view() == Error::spec_new(428, source),
    {
        Error::new(known(428), source)
    }

    /// An error from the given source that becomes a `429 Too Many Requests` response.
    pub fn too_many_requests(source: String) -> (r: Error)
        ensures
            r.view() == Error::spec_new(429, source),
    {
        Error::new(known(429), source)
    }

    /// An error from the given source that becomes a `431 Request Header Fields Too Large` response.
    pub fn request_header_fields_too_large(source: String) -> (r: Error)
        ensures
            r.view() == Error::spec_new(431, source),
    {
        Error::new(known(431), source)
    }

    /// An error from the given source that becomes a `451 Unavailable For Legal Reasons` response.
    pub fn unavailable_for_legal_reasons(source: String) -> (r: Error)
        ensures
            r.view() == Error::spec_new(451, source),
    {
        Error::new(known(451), source)
    }

    /// An error from the given source that becomes a `500 Internal Server Error` response.
    pub fn internal_server_error(source: String) -> (r: Error)
        ensures
            r.view() == Error::spec_new(500, source),
    {
        Error::new(known(500), source)
    }

    /// An error from the given source that becomes a `501 Not Implemented` response.
    pub fn not_implemented(source: String) -> (r: Error)
        ensures
            r.view() == Error::spec_new(501, source),
    {
        Error::new(known(501), source)
    }

    /// An error from the given source that becomes a `502 Bad Gateway` response.
    pub fn bad_gateway(source: String) -> (r: Error)
        ensures
            r.view() == Error::spec_new(502, source),
    {
        Error::new(known(502), source)
    }

    /// An error from the given source that becomes a `503 Service Unavailable` response.
    pub fn service_unavailable(source: String) -> (r: Error)
        ensures
            r.view() == Error::spec_new(503, source),
    {
        Error::new(known(503), source)
    }

    /// An error from the given source that becomes a `504 Gateway Timeout` response.
    pub fn gateway_timeout(source: String) -> (r: Error)
        ensures
            r.view() == Error::spec_new(504, source),
    {
        Error::new(known(504), source)
    }

    /// An error from the given source that becomes a `505 HTTP Version Not Supported` response.
    pub fn http_version_not_supported(source: String) -> (r: Error)
        ensures
            r.view() == Error::spec_new(505, source),
    {
        Error::new(known(505), source)
    }

    /// An error from the given source that becomes a `506 Variant Also Negotiates` response.
    pub fn variant_also_negotiates(source: String) -> (r: Error)
        ensures
            r.view() == Error::spec_new(506, source),
    {
        Error::new(known(506), source)
    }

    /// An error from the given source that becomes a `507 Insufficient Storage` response.
    pub fn insufficient_storage(source: String) -> (r: Error)
        ensures
            r.view() == Error::spec_new(507, source),
    {
        Error::new(known(507), source)
    }

    /// An error from the given source that becomes a `508 Loop Detected` response.
    pub fn loop_detected(source: String) -> (r: Error)
        ensures
            r.view() == Error::spec_new(508, source),
    {
        Error::new(known(508), source)
    }

    /// An error from the given source that becomes a `510 Not Extended` response.
    pub fn not_extended(source: String) -> (r: Error)
        ensures
            r.view() == Error::spec_new(510, source),
    {
        Error::new(known(510), source)
    }

    /// An error from the given source that becomes a `511 Network Authentication Required` response.
    pub fn network_authentication_required(source: String) -> (r: Error)
        ensures
            r.view() == Error::spec_new(511, source),
    {
        Error::new(known(511), source)
    }
}

/// The status of the response to an I/O error follows what the kind says
/// about whose fault it is: malformed data or input is a bad request (400);
/// a path that is a directory or not one, or a denied permission, is
/// forbidden (403); a missing file is not found (404); something that
/// already exists is a conflict (409); a broken, reset or aborted
/// connection is a bad gateway (502); a refused one means the service is
/// unavailable (503); a timeout is a gateway timeout (504); anything else
/// is an internal server error (500). Each status comes from exactly these
/// kinds.
pub proof fn lemma_io_error_statuses(kind: IoErrorKind)
    ensures
        (io_kind_status(kind) == 400) <==> (kind is InvalidData || kind is InvalidInput),
        (io_kind_status(kind) == 403) <==> (kind is IsADirectory || kind is NotADirectory
            || kind is PermissionDenied),
        (io_kind_status(kind) == 404) <==> kind is NotFound,
        (io_kind_status(kind) == 409) <==> kind is AlreadyExists,
        (io_kind_status(kind) == 500) <==> kind is Other,
        (io_kind_status(kind) == 502) <==> (kind is BrokenPipe || kind is ConnectionReset
            || kind is ConnectionAborted),
        (io_kind_status(kind) == 503) <==> kind is ConnectionRefused,
        (io_kind_status(kind) == 504) <==> kind is TimedOut,
{
}

/// An error can be raised from a status code exactly when the code is a
/// client error from 400 to 418, 421 to 424, 426, 428, 429, 431 or 451, or
/// a server error from 500 to 508, 510 or 511; such an error carries that
/// code and the given text, and the same codes are the ones with a default
/// message.
pub proof fn lemma_raisable_codes(code: u16, message: String)
    ensures
        is_error_code(code) <==> (400 <= code <= 418 || 421 <= code <= 424 || code == 426
            || code == 428 || code == 429 || code == 431 || code == 451 || 500 <= code <= 508
            || code == 510 || code == 511),
        default_message(code) is Some <==> is_error_code(code),
        Error::spec_new(code, message).status == code,
        Error::spec_new(code, message).error == message@,
{
}

} // verus!
