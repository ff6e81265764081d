//! The decisions of a web socket session: what to do with each message
//! that the handler sends or the connection receives.

use vstd::prelude::*;

use crate::bindings::websocket::WsKind;
use crate::bindings::byte_buf::bytes_view;
use super::message::{decoded, Message, ProtocolError};

verus! {

/// How writing a message to the connection went.
#[derive(Clone, Copy, Debug, PartialEq, Eq, Structural)]
pub enum SendOutcome {
    /// It was written.
    Sent,
    /// The connection was already closed.
    AlreadyClosed,
    /// It failed for another reason.
    Failed,
}

/// What the connection yielded.
#[derive(Clone, Copy, Debug, PartialEq, Eq, Structural)]
pub enum Incoming {
    /// A ping frame.
    Ping,
    /// A pong frame.
    Pong,
    /// A data or close message.
    Message,
    /// An error: the connection was already closed.
    AlreadyClosed,
    /// Another error.
    Failed,
}

/// Something that happened in a session.
#[derive(Clone, Copy, Debug, PartialEq, Eq, Structural)]
pub enum SessionEvent {
    /// A message that the handler sent was written to the connection.
    Wrote(SendOutcome),
    /// The connection yielded something.
    Received(Incoming),
    /// What the connection yielded was handed to the handler, or could not
    /// be because the handler stopped listening.
    Delivered(bool),
    /// The handler finished, successfully or with an error.
    HandlerDone(bool),
}

/// What the session does next.
#[derive(Clone, Copy, Debug, PartialEq, Eq, Structural)]
pub enum SessionAction {
    /// Waits for the next event.
    Continue,
    /// Hands what the connection yielded to the handler.
    Deliver,
    /// Reports the error and waits for the next event.
    Report,
    /// Reports the handler's error and starts the handler again on the same
    /// connection.
    Restart,
    /// Ends the session.
    End,
}

/// What a session does after an event.
pub open spec fn session_action(event: SessionEvent) -> SessionAction {
    match event {
        SessionEvent::Wrote(SendOutcome::Sent) => SessionAction::Continue,
        SessionEvent::Wrote(SendOutcome::AlreadyClosed) => SessionAction::End,
        SessionEvent::Wrote(SendOutcome::Failed) => SessionAction::Report,
        SessionEvent::Received(Incoming::Ping) => SessionAction::Continue,
        SessionEvent::Received(Incoming::Pong) => SessionAction::Continue,
        SessionEvent::Received(Incoming::Message) => SessionAction::Deliver,
        SessionEvent::Received(Incoming::AlreadyClosed) => SessionAction::End,
        SessionEvent::Received(Incoming::Failed) => SessionAction::Deliver,
        SessionEvent::Delivered(true) => SessionAction::Continue,
        SessionEvent::Delivered(false) => SessionAction::End,
        SessionEvent::HandlerDone(true) => SessionAction::End,
        SessionEvent::HandlerDone(false) => SessionAction::Restart,
    }
}

/// Decides what a session does after an event: pings and pongs are
/// answered by the connection itself and passed over; messages and errors
/// of the connection go to the handler; a closed connection, a handler
/// that stopped listening or that finished ends the session; a handler
/// that failed is started again; a failed write is reported.
pub fn next_action(event: SessionEvent) -> (r: SessionAction)
    ensures
        r == session_action(event),
{
    match event {
        SessionEvent::Wrote(outcome) => match outcome {
            SendOutcome::Sent => SessionAction::Continue,
            SendOutcome::AlreadyClosed => SessionAction::End,
            SendOutcome::Failed => SessionAction::Report,
        },
        SessionEvent::Received(incoming) => match incoming {
            Incoming::Ping | Incoming::Pong => SessionAction::Continue,
            Incoming::Message | Incoming::Failed => SessionAction::Deliver,
            Incoming::AlreadyClosed => SessionAction::End,
        },
        SessionEvent::Delivered(ok) => if ok {
            SessionAction::Continue
        } else {
            SessionAction::End
        },
        SessionEvent::HandlerDone(ok) => if ok {
            SessionAction::End
        } else {
            SessionAction::Restart
        },
    }
}

/// A session ends exactly when the connection is closed (on a write or a
/// read), when the handler stops listening, or when the handler finishes
/// successfully; it starts again exactly when the handler fails.
pub proof fn lemma_session_ends(event: SessionEvent)
    ensures
        (session_action(event) == SessionAction::End) <==> (event == SessionEvent::Wrote(
            SendOutcome::AlreadyClosed,
        ) || event == SessionEvent::Received(Incoming::AlreadyClosed) || event
            == SessionEvent::Delivered(false) || event == SessionEvent::HandlerDone(true)),
        (session_action(event) == SessionAction::Restart) <==> (event == SessionEvent::HandlerDone(
            false,
        )),
{
}

/// What the connection yields goes to the handler exactly when it is a
/// message or an error other than a closed connection, so that the
/// handler's next read reports it; pings and pongs, a successful write and
/// a successful hand-over let the session go on; only a write that failed
/// for another reason than a closed connection is reported by the session
/// itself.
pub proof fn lemma_session_delivers(event: SessionEvent)
    ensures
        (session_action(event) == SessionAction::Deliver) <==> (event == SessionEvent::Received(
            Incoming::Message,
        ) || event == SessionEvent::Received(Incoming::Failed)),
        (session_action(event) == SessionAction::Report) <==> (event == SessionEvent::Wrote(
            SendOutcome::Failed,
        )),
        (session_action(event) == SessionAction::Continue) <==> (event == SessionEvent::Wrote(
            SendOutcome::Sent,
        ) || event == SessionEvent::Received(Incoming::Ping) || event == SessionEvent::Received(
            Incoming::Pong,
        ) || event == SessionEvent::Delivered(true)),
{
}

/// Why reading the next message failed.
#[derive(Debug, PartialEq, Eq)]
pub enum ReceiveError {
    /// The message broke the protocol.
    Protocol(ProtocolError),
    /// The connection reported this error.
    Connection(String),
    /// The session is over: nothing more will be received.
    AlreadyClosed,
}

/// What the handler gets when it asks for the next message, from what the
/// session handed over: the message decoded from its kind and payload, the
/// connection's error, or, once nothing more will come, `AlreadyClosed`.
/// The flag is true when the message is a close message, after which the
/// handler stops listening.
pub fn receive(received: Option<Result<(WsKind, bytes::Bytes), String>>) -> (r: (
    Result<Message, ReceiveError>,
    bool,
))
    ensures
        match received {
            None => r.0 == Err::<Message, ReceiveError>(ReceiveError::AlreadyClosed) && !r.1,
            Some(Err(e)) => r.0 == Err::<Message, ReceiveError>(ReceiveError::Connection(e)) && !r.1,
            Some(Ok((kind, payload))) => match r.0 {
                Ok(m) => decoded(kind, bytes_view(payload), Ok(m)) && r.1 == (m is Close),
                Err(ReceiveError::Protocol(e)) => decoded(kind, bytes_view(payload), Err(e)) && !r.1,
                Err(_) => false,
            },
        },
{
    match received {
        None => (Err(ReceiveError::AlreadyClosed), false),
        Some(Err(e)) => (Err(ReceiveError::Connection(e)), false),
        Some(Ok((kind, payload))) => match Message::decode(kind, payload) {
            Ok(message) => {
                let close = match &message {
                    Message::Close(_) => true,
                    _ => false,
                };
                (Ok(message), close)
            },
            Err(e) => (Err(ReceiveError::Protocol(e)), false),
        },
    }
}

} // verus!
