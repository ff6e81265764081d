use via::bindings::io::IoErrorKind;
use via::error::chained::{Error as ChainedError, Errors};
use via::builtin::rescue::{inspect, Rescued};
use via::error::rescue::{Rescue, Sanitizer};
use via::error::server::ServerError;
use via::error::{Error, ErrorBody, Message};
use http::StatusCode;

fn status(code: u16) -> StatusCode {
    StatusCode::from_u16(code).unwrap()
}

#[test]
fn error_constructors_set_the_status() {
    assert_eq!(Error::bad_request("x".to_string()).status().as_u16(), 400);
    assert_eq!(Error::not_found("x".to_string()).status().as_u16(), 404);
    assert_eq!(Error::im_a_teapot("x".to_string()).status().as_u16(), 418);
    assert_eq!(Error::gateway_timeout("x".to_string()).status().as_u16(), 504);
    assert_eq!(
        Error::network_authentication_required("x".to_string()).status().as_u16(),
        511
    );
}

#[test]
fn error_text_response_carries_the_source() {
    let response = Error::conflict("already there".to_string()).into_response();
    assert_eq!(response.status.as_u16(), 409);
    assert_eq!(response.body, ErrorBody::Text("already there".to_string()));
}

#[test]
fn error_text_response_keeps_the_source_out() {
    let response = Error::new(status(404), "secret".to_string())
        .use_canonical_reason()
        .into_response();
    assert_eq!(response.status.as_u16(), 404);
    assert_eq!(response.body, ErrorBody::Text("Not Found".to_string()));
    let response = Error::bad_request("row 7 is locked".to_string())
        .with_message("Try again later.".to_string())
        .into_response();
    assert_eq!(response.body, ErrorBody::Text("Try again later.".to_string()));
}

#[test]
fn error_from_source_is_internal() {
    let error = Error::from_source("disk full".to_string());
    assert_eq!(error.status().as_u16(), 500);
    assert_eq!(error.to_string(), "disk full");
}

#[test]
fn error_json_response_uses_the_message() {
    let error = Error::forbidden("secret detail".to_string())
        .with_message("Access denied \"here\"".to_string())
        .as_json();
    assert_eq!(
        error.to_json(),
        "{\"errors\":[{\"message\":\"Access denied \\\"here\\\"\"}]}"
    );
    let response = error.into_response();
    assert_eq!(response.status.as_u16(), 403);
    assert!(matches!(response.body, ErrorBody::Json(_)));
}

#[test]
fn error_with_status_keeps_the_rest() {
    let error = Error::bad_request("bad".to_string()).with_status(status(422));
    assert_eq!(error.status().as_u16(), 422);
    assert_eq!(error.to_string(), "bad");
}

#[test]
fn error_use_canonical_reason() {
    let error = Error::not_found("missing row 42".to_string()).use_canonical_reason().as_json();
    assert_eq!(error.to_json(), "{\"errors\":[{\"message\":\"Not Found\"}]}");
    let odd = Error::new(status(599), "x".to_string()).use_canonical_reason().as_json();
    assert_eq!(odd.to_json(), "{\"errors\":[{\"message\":\"An error occurred\"}]}");
}

#[test]
fn error_redact_replaces_the_message() {
    let error = Error::internal_server_error("password=hunter2".to_string())
        .redact(|message| {
            if message.contains("password") {
                Some("redacted".to_string())
            } else {
                None
            }
        })
        .as_json();
    assert_eq!(error.to_json(), "{\"errors\":[{\"message\":\"redacted\"}]}");
    assert_eq!(error.source(), "password=hunter2");
}

#[test]
fn error_from_io_kind_maps_the_status() {
    let cases = [
        (IoErrorKind::AlreadyExists, 409),
        (IoErrorKind::BrokenPipe, 502),
        (IoErrorKind::ConnectionRefused, 503),
        (IoErrorKind::InvalidData, 400),
        (IoErrorKind::PermissionDenied, 403),
        (IoErrorKind::NotFound, 404),
        (IoErrorKind::TimedOut, 504),
        (IoErrorKind::Other, 500),
    ];
    for (kind, code) in cases {
        assert_eq!(Error::from_io_kind(kind, "io".to_string()).status().as_u16(), code);
    }
    let error = Error::from_io(std::io::Error::new(std::io::ErrorKind::NotFound, "gone"));
    assert_eq!(error.status().as_u16(), 404);
    assert_eq!(error.to_string(), "gone");
}

#[test]
fn error_from_code_and_default_messages() {
    let error = Error::from_code(429, "slow down".to_string()).unwrap();
    assert_eq!(error.status().as_u16(), 429);
    assert!(Error::from_code(200, "ok".to_string()).is_none());
    let error = Error::from_code_default(504).unwrap();
    assert_eq!(error.to_string(), "Gateway timeout.");
    assert!(Error::from_code_default(299).is_none());
}

#[test]
fn message_text() {
    assert_eq!(Message::new("hi".to_string()).to_string(), "hi");
}

#[test]
fn status_code_range() {
    assert!(StatusCode::from_u16(99).is_err());
    assert!(StatusCode::from_u16(1000).is_err());
    assert_eq!(StatusCode::from_u16(200).unwrap().canonical_reason(), Some("OK"));
}

#[test]
fn chained_error_reports_causes_innermost_first() {
    let error = ChainedError::from_source(
        status(502),
        vec!["upstream failed".to_string(), "connection reset".to_string()],
    );
    assert_eq!(error.to_string(), "upstream failed");
    assert_eq!(error.source(), Some("upstream failed"));
    let errors = error.repr_json(status(502));
    assert_eq!(
        errors.to_json(),
        "{\"status\":502,\"errors\":[{\"message\":\"connection reset\"},{\"message\":\"upstream failed\"}]}"
    );
}

#[test]
fn chained_error_message_and_io() {
    let error = ChainedError::new(status(404), "no such user".to_string());
    assert_eq!(error.source(), None);
    assert_eq!(
        error.repr_json(status(404)).to_json(),
        "{\"status\":404,\"errors\":[{\"message\":\"no such user\"}]}"
    );
    let io = ChainedError::from_io_kind(IoErrorKind::ConnectionAborted, "aborted".to_string());
    assert_eq!(io.status().as_u16(), 502);
    let response = io.into_response();
    assert_eq!(response.body, ErrorBody::Text("aborted".to_string()));
    let mut errors = Errors::new(status(400));
    errors.push("a".to_string());
    assert_eq!(errors.to_json(), "{\"status\":400,\"errors\":[{\"message\":\"a\"}]}");
}

#[test]
fn sanitizer_customizes_the_response() {
    let error = ChainedError::new(status(500), "db down".to_string());
    let plain = Sanitizer::new(&error).finalize();
    assert_eq!(plain.status.as_u16(), 500);
    assert_eq!(plain.body, ErrorBody::Text("db down".to_string()));

    let mut sanitizer = Sanitizer::new(&error);
    sanitizer.set_status(status(503));
    sanitizer.use_canonical_reason();
    sanitizer.use_json();
    let response = sanitizer.finalize();
    assert_eq!(response.status.as_u16(), 503);
    assert_eq!(
        response.body,
        ErrorBody::Json(
            "{\"status\":503,\"errors\":[{\"message\":\"Service Unavailable\"}]}".to_string()
        )
    );

    let mut sanitizer = Sanitizer::new(&error);
    sanitizer.set_message("try later".to_string());
    assert_eq!(sanitizer.finalize().body, ErrorBody::Text("try later".to_string()));
}

#[test]
fn rescue_keeps_the_closure() {
    let rescue = Rescue::with(|sanitizer: &mut Sanitizer| sanitizer.use_json());
    let recover = rescue.recover();
    let error = ChainedError::new(status(400), "bad".to_string());
    let mut sanitizer = Sanitizer::new(&error);
    recover(&mut sanitizer);
    assert!(matches!(sanitizer.finalize().body, ErrorBody::Json(_)));
}

#[test]
fn rescue_answers_every_error_with_a_response() {
    let rescue = Rescue::with(|sanitizer: &mut Sanitizer| {
        sanitizer.set_status(status(503));
        sanitizer.use_canonical_reason();
    });
    match rescue.rescue::<u8>(Ok(7)) {
        Rescued::Response(value) => assert_eq!(value, 7),
        Rescued::Recovered(_) => panic!("a response was replaced"),
    }
    let error = ChainedError::new(status(500), "db down".to_string());
    match rescue.rescue::<u8>(Err(error)) {
        Rescued::Recovered(response) => {
            assert_eq!(response.status.as_u16(), 503);
            assert_eq!(response.body, ErrorBody::Text("Service Unavailable".to_string()));
        }
        Rescued::Response(_) => panic!("an error got through"),
    }
}

#[test]
fn inspect_and_map_answer_errors_with_responses() {
    let seen = std::cell::Cell::new(0u16);
    let inspector = inspect(|error: &Error| seen.set(error.status().as_u16()));
    match inspector.rescue::<&str>(Err(Error::not_found("gone".to_string()))) {
        Rescued::Recovered(response) => {
            assert_eq!(response.status.as_u16(), 404);
            assert_eq!(response.body, ErrorBody::Text("gone".to_string()));
        }
        Rescued::Response(_) => panic!("an error got through"),
    }
    assert_eq!(seen.get(), 404);
    assert!(matches!(inspector.rescue(Ok("fine")), Rescued::Response("fine")));

    let mapper = via::builtin::rescue::map(|error: Error| error.use_canonical_reason().as_json());
    match mapper.rescue::<()>(Err(Error::forbidden("token 1234 expired".to_string()))) {
        Rescued::Recovered(response) => {
            assert_eq!(response.status.as_u16(), 403);
            assert_eq!(
                response.body,
                ErrorBody::Json("{\"errors\":[{\"message\":\"Forbidden\"}]}".to_string())
            );
        }
        Rescued::Response(_) => panic!("an error got through"),
    }
    assert!(matches!(mapper.rescue(Ok(5u8)), Rescued::Response(5)));
}

#[test]
fn server_error_handshake_timeout() {
    let error = ServerError::handshake_timeout();
    assert_eq!(
        error.to_string(),
        "tls negotiation did not finish within the configured timeout\n"
    );
}
