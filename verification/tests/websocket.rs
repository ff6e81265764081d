use bytes::Bytes;
use std::sync::Arc;
use via::bindings::websocket::WsKind;
use via::builtin::ws::handshake::{
    accept_key, handshake_outcome, validate_accept_key, validate_websocket_version, ws,
    HandshakeOutcome, RequestContext,
};
use via::builtin::ws::message::{Message, ProtocolError};
use via::builtin::ws::session::{
    next_action, receive, Incoming, ReceiveError, SendOutcome, SessionAction, SessionEvent,
};
use via::builtin::ws::upgrade::{self, upgrade_next_action, upgrade_outcome, Context, Upgrade, UpgradeOutcome};
use via::error::Error;

#[test]
fn accept_key_of_the_rfc_example() {
    assert_eq!(accept_key("dGhlIHNhbXBsZSBub25jZQ=="), "s3pPLMBiTxaQ9kYGzzhZRbK+xOo=");
}

#[test]
fn handshake_checks_version_and_key() {
    assert!(validate_websocket_version(None).is_ok());
    assert!(validate_websocket_version(Some("13")).is_ok());
    let error = validate_websocket_version(Some("8")).unwrap_err();
    assert_eq!(error.to_string(), "Unsupported websocket version: \"8\".");
    let error = validate_accept_key(None).unwrap_err();
    assert_eq!(error.to_string(), "Missing required header: \"Sec-Websocket-Key\".");
    assert_eq!(error.status().as_u16(), 400);
}

#[test]
fn handshake_outcomes() {
    assert!(matches!(handshake_outcome(Ok(None), Ok(None), Ok(None)), HandshakeOutcome::Next));
    assert!(matches!(
        handshake_outcome(Ok(Some("h2c")), Ok(None), Ok(None)),
        HandshakeOutcome::Next
    ));
    match handshake_outcome(Ok(Some("websocket")), Ok(Some("13")), Ok(Some("dGhlIHNhbXBsZSBub25jZQ=="))) {
        HandshakeOutcome::Accept(key) => assert_eq!(key, "s3pPLMBiTxaQ9kYGzzhZRbK+xOo="),
        _ => panic!("expected an upgrade"),
    }
    match handshake_outcome(Ok(Some("websocket")), Ok(Some("7")), Ok(Some("k"))) {
        HandshakeOutcome::Reject(error) => assert_eq!(error.status().as_u16(), 400),
        _ => panic!("expected a rejection"),
    }
    match handshake_outcome(Err(Error::bad_request("not text".to_string())), Ok(None), Ok(None)) {
        HandshakeOutcome::Reject(error) => assert_eq!(error.to_string(), "not text"),
        _ => panic!("expected a rejection"),
    }
}

#[test]
fn handshake_settings() {
    let handshake = ws(());
    assert_eq!(handshake.settings(), (None, 8192, 4096));
    let handshake = handshake.frame_size(1024).max_payload_len(Some(10));
    assert_eq!(handshake.settings(), (Some(10), 8192, 1024));
    let handshake = handshake.flush_threshold(2048);
    assert_eq!(handshake.settings(), (Some(10), 2048, 1024));
}

#[test]
fn request_context_lookups() {
    let context = RequestContext::new(
        "/chat/42".to_string(),
        vec![("room".to_string(), "42".to_string()), ("room".to_string(), "7".to_string())],
        "lang=en".to_string(),
        Arc::new(5u8),
    );
    assert_eq!(context.path(), "/chat/42");
    assert_eq!(**context.state(), 5);
    assert_eq!(context.param("room").value, Some("42"));
    assert_eq!(context.param("user").value, None);
    let query = context.query("lang");
    assert_eq!((query.name, query.query), ("lang", "lang=en"));
}

#[test]
fn message_decoding() {
    match Message::decode(WsKind::Text, Bytes::from_static(b"hi")).unwrap() {
        Message::Text(t) => assert_eq!(t, "hi"),
        _ => panic!("expected text"),
    }
    assert_eq!(
        Message::decode(WsKind::Text, Bytes::from_static(&[0xff])).unwrap_err(),
        ProtocolError::InvalidUtf8
    );
    assert!(matches!(
        Message::decode(WsKind::Close, Bytes::new()).unwrap(),
        Message::Close(None)
    ));
    match Message::decode(WsKind::Close, Bytes::from_static(&[0x03, 0xe8, b'b', b'y', b'e'])).unwrap() {
        Message::Close(Some((code, Some(reason)))) => {
            assert_eq!(u16::from(code), 1000);
            assert_eq!(reason, "bye");
        }
        _ => panic!("expected a close with a reason"),
    }
    assert_eq!(
        Message::decode(WsKind::Close, Bytes::from_static(&[0x03])).unwrap_err(),
        ProtocolError::InvalidCloseCode
    );
    assert_eq!(
        Message::decode(WsKind::Close, Bytes::from_static(&[0x03, 0xe7])).unwrap_err(),
        ProtocolError::InvalidCloseCode
    );
    assert_eq!(
        Message::decode(WsKind::Close, Bytes::from_static(&[0x07, 0xd0])).unwrap_err(),
        ProtocolError::InvalidCloseCode
    );
    assert_eq!(
        Message::decode(WsKind::Close, Bytes::from_static(&[0x03, 0xe8, 0xff])).unwrap_err(),
        ProtocolError::InvalidUtf8
    );
}

#[test]
fn message_payloads() {
    assert!(matches!(Message::from_str("abc"), Message::Binary(_)));
    let text = Message::from_string("abc".to_string());
    assert_eq!(text.as_slice(), Some(&b"abc"[..]));
    assert_eq!(text.into_vec(), b"abc".to_vec());
    let binary = Message::from_vec(vec![1, 2]);
    assert_eq!(binary.into_vec(), vec![1, 2]);
    let close = Message::decode(WsKind::Close, Bytes::new()).unwrap();
    assert_eq!(close.as_slice(), None);
}

#[test]
fn session_decisions() {
    assert_eq!(next_action(SessionEvent::Received(Incoming::Ping)), SessionAction::Continue);
    assert_eq!(next_action(SessionEvent::Received(Incoming::Message)), SessionAction::Deliver);
    assert_eq!(next_action(SessionEvent::Received(Incoming::AlreadyClosed)), SessionAction::End);
    assert_eq!(next_action(SessionEvent::Wrote(SendOutcome::Failed)), SessionAction::Report);
    assert_eq!(next_action(SessionEvent::Wrote(SendOutcome::AlreadyClosed)), SessionAction::End);
    assert_eq!(next_action(SessionEvent::Delivered(false)), SessionAction::End);
    assert_eq!(next_action(SessionEvent::HandlerDone(false)), SessionAction::Restart);
    assert_eq!(next_action(SessionEvent::HandlerDone(true)), SessionAction::End);
    assert_eq!(upgrade_next_action(SessionEvent::Wrote(SendOutcome::AlreadyClosed)), SessionAction::Report);
    assert_eq!(upgrade_next_action(SessionEvent::Delivered(false)), SessionAction::Continue);
}

#[test]
fn receiving_messages() {
    let (result, close) = receive(None);
    assert_eq!(result.unwrap_err(), ReceiveError::AlreadyClosed);
    assert!(!close);
    let (result, close) = receive(Some(Ok((WsKind::Close, Bytes::new()))));
    assert!(matches!(result, Ok(Message::Close(None))));
    assert!(close);
    let (result, close) = receive(Some(Err("reset".to_string())));
    assert_eq!(result.unwrap_err(), ReceiveError::Connection("reset".to_string()));
    assert!(!close);
}

#[test]
fn upgrade_is_strict_about_the_version() {
    assert!(upgrade::validate_websocket_version(Some("13")).is_ok());
    let error = upgrade::validate_websocket_version(None).unwrap_err();
    assert_eq!(error.to_string(), "unsupported websocket version");
    match upgrade_outcome(Ok(Some("websocket")), Ok(Some("13")), Ok(None)) {
        UpgradeOutcome::Reject(error) => {
            assert_eq!(error.to_string(), "missing required header: \"Sec-Websocket-Key\"")
        }
        _ => panic!("expected a rejection"),
    }
    let upgrade = Upgrade::new(Some(8), 16, 4, ()).frame_size(32).max_payload_size(None);
    assert_eq!(upgrade.settings(), (None, 16, 32));
    let context = Context::new("/".to_string(), vec![], String::new(), Arc::new(1u8));
    assert_eq!(*context.state(), 1);
    assert_eq!(context.param("x").value, None);
}
