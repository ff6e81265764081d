//! Web socket messages.

use bytes::Bytes;
use vstd::prelude::*;

use tokio_websockets::CloseCode;

use crate::bindings::byte_buf::{bytes_into_vec, bytes_as_slice, bytes_copy_from_slice, bytes_from_vec, bytes_len, bytes_split_off, bytes_view};
use crate::bindings::text::utf8_decode;
use crate::bindings::websocket::{close_code_number, close_code_ok, close_code_try_from, WsKind};

verus! {

/// A message sent or received over a web socket.
#[derive(Debug)]
pub enum Message {
    Binary(Bytes),
    Close(Option<(CloseCode, Option<String>)>),
    Text(String),
}

/// Why a received message was refused.
#[derive(Clone, Copy, PartialEq, Eq, Debug)]
pub enum ProtocolError {
    /// A text message, or the reason of a close message, is not UTF-8.
    InvalidUtf8,
    /// The payload of a close message does not start with a close code
    /// that may be received.
    InvalidCloseCode,
}

/// The close code that starts a close payload, read big-endian.
pub open spec fn leading_code(p: Seq<u8>) -> u16 {
    (p[0] as u16 * 256 + p[1] as u16) as u16
}

/// A close payload may carry this code: the web socket refuses codes below
/// 1000 and from 4999 up, and `tokio_websockets` refuses the others that
/// are not close codes.
pub open spec fn receivable_code(code: u16) -> bool {
    1000 <= code < 4999 && close_code_ok(code)
}

/// What decoding a close payload gives.
pub open spec fn close_result(p: Seq<u8>) -> Option<Option<(u16, Option<Seq<char>>)>> {
    if p.len() == 0 {
        Some(None)
    } else if p.len() < 2 || !receivable_code(leading_code(p)) {
        None
    } else if p.len() == 2 {
        Some(Some((leading_code(p), None)))
    } else if vstd::utf8::valid_utf8(p.skip(2)) {
        Some(Some((leading_code(p), Some(vstd::utf8::decode_utf8(p.skip(2))))))
    } else {
        None
    }
}

/// The outcome of decoding a received message of the given kind and
/// payload: a binary payload is kept as it is; a text payload must be UTF-8;
/// a close payload is empty, or starts with a close code that may be
/// received (else `InvalidCloseCode`) followed by an optional UTF-8 reason
/// (else `InvalidUtf8`).
pub open spec fn decoded(kind: WsKind, p: Seq<u8>, r: Result<Message, ProtocolError>) -> bool {
    match kind {
        WsKind::Binary => r matches Ok(Message::Binary(b)) && bytes_view(b) == p,
        WsKind::Text => if vstd::utf8::valid_utf8(p) {
            r matches Ok(Message::Text(t)) && t@ == vstd::utf8::decode_utf8(p)
        } else {
            r matches Err(e) && e == ProtocolError::InvalidUtf8
        },
        WsKind::Close => match close_result(p) {
            None => if p.len() < 2 || !receivable_code(leading_code(p)) {
                r matches Err(e) && e == ProtocolError::InvalidCloseCode
            } else {
                r matches Err(e) && e == ProtocolError::InvalidUtf8
            },
            Some(None) => r matches Ok(Message::Close(None)),
            Some(Some((code, None))) => r matches Ok(Message::Close(Some((c, None))))
                && close_code_number(c) == code,
            Some(Some((code, Some(reason)))) => r matches Ok(Message::Close(Some((c, Some(t)))))
                && close_code_number(c) == code && t@ == reason,
        },
    }
}

/// The payload of a message as bytes: the UTF-8 of a text message or of a
/// close reason, the bytes of a binary message; none for a close message
/// without a reason.
pub open spec fn payload_bytes(m: Message) -> Option<Seq<u8>> {
    match m {
        Message::Binary(b) => Some(bytes_view(b)),
        Message::Text(t) => Some(vstd::utf8::encode_utf8(t@)),
        Message::Close(Some((_, Some(t)))) => Some(vstd::utf8::encode_utf8(t@)),
        Message::Close(_) => None,
    }
}

impl Message {
    /// The payload of the message as bytes, if it has one.
    pub fn as_slice(&self) -> (r: Option<&[u8]>)
        ensures
            match payload_bytes(*self) {
                Some(p) => r matches Some(s) && s@ == p,
                None => r is None,
            },
    {
        match self {
            Message::Close(Some((_, Some(text)))) => Some(text.as_str().as_bytes()),
            Message::Text(text) => Some(text.as_str().as_bytes()),
            Message::Binary(bytes) => Some(bytes_as_slice(bytes)),
            _ => None,
        }
    }

    /// The payload of the message as a vector of bytes, empty when it has
    /// none.
    pub fn into_vec(self) -> (r: Vec<u8>)
        ensures
            match payload_bytes(self) {
                Some(p) => r@ == p,
                None => r@.len() == 0,
            },
    {
        match self {
            Message::Close(Some((_, Some(text)))) => vstd::slice::slice_to_vec(text.as_str().as_bytes()),
            Message::Text(text) => vstd::slice::slice_to_vec(text.as_str().as_bytes()),
            Message::Binary(bytes) => bytes_into_vec(bytes),
            _ => Vec::new(),
        }
    }

    /// A binary message.
    pub fn from_bytes(data: Bytes) -> (r: Message)
        ensures
            r matches Message::Binary(b) && bytes_view(b) == bytes_view(data),
    {
        Message::Binary(data)
    }

    /// A binary message holding the bytes of the vector.
    pub fn from_vec(data: Vec<u8>) -> (r: Message)
        ensures
            r matches Message::Binary(b) && bytes_view(b) == data@,
    {
        Message::Binary(bytes_from_vec(data))
    }

    /// A binary message holding a copy of the slice.
    pub fn from_slice(data: &[u8]) -> (r: Message)
        ensures
            r matches Message::Binary(b) && bytes_view(b) == data@,
    {
        Message::Binary(bytes_copy_from_slice(data))
    }

    /// A text message.
    pub fn from_string(data: String) -> (r: Message)
        ensures
            r matches Message::Text(t) && t@ == data@,
    {
        Message::Text(data)
    }

    /// A binary message holding the UTF-8 bytes of the text: a `&str` is
    /// sent as binary data.
    pub fn from_str(data: &str) -> (r: Message)
        ensures
            r matches Message::Binary(b) && bytes_view(b) == vstd::utf8::encode_utf8(data@),
    {
        Message::from_slice(data.as_bytes())
    }

    /// Decodes a received message from its kind and payload. A binary
    /// payload is kept as it is, a text payload must be UTF-8, and a close
    /// payload is empty or holds a close code that may be received followed
    /// by an optional UTF-8 reason.
    pub fn decode(kind: WsKind, payload: Bytes) -> (r: Result<Message, ProtocolError>)
        ensures
            decoded(kind, bytes_view(payload), r),
    {
        match kind {
            WsKind::Binary => Ok(Message::Binary(payload)),
            WsKind::Text => match utf8_decode(bytes_as_slice(&payload)) {
                Some(text) => Ok(Message::Text(text)),
                None => Err(ProtocolError::InvalidUtf8),
            },
            WsKind::Close => {
                let mut bytes = payload;
                let len = bytes_len(&bytes);
                if len == 0 {
                    return Ok(Message::Close(None));
                }
                if len < 2 {
                    return Err(ProtocolError::InvalidCloseCode);
                }
                let head = bytes_as_slice(&bytes);
                let code: u16 = (head[0] as u16) * 256 + (head[1] as u16);
                if code <= 999 || code >= 4999 {
                    return Err(ProtocolError::InvalidCloseCode);
                }
                let close = match close_code_try_from(code) {
                    Some(c) => c,
                    None => return Err(ProtocolError::InvalidCloseCode),
                };
                let ghost p = bytes_view(bytes);
                let rest = bytes_split_off(&mut bytes, 2);
                if len == 2 {
                    Ok(Message::Close(Some((close, None))))
                } else {
                    match utf8_decode(bytes_as_slice(&rest)) {
                        Some(reason) => Ok(Message::Close(Some((close, Some(reason))))),
                        None => Err(ProtocolError::InvalidUtf8),
                    }
                }
            },
        }
    }
}

/// A close payload keeps its close code. An empty payload is a close
/// without a code; a payload of one byte, or one whose first two bytes,
/// read big-endian, give a code below 1000, from 1016 to 2999, or from 4999
/// up, is refused as an invalid close code; a payload of exactly two bytes
/// with a code from 1000 to 1015 or from 3000 to 4998 is a close with that
/// code and no reason; and whenever a non-empty close payload is accepted,
/// the message carries the code of its first two bytes.
pub proof fn lemma_close_keeps_its_code(p: Seq<u8>, r: Result<Message, ProtocolError>)
    requires
        decoded(WsKind::Close, p, r),
    ensures
        p.len() == 0 ==> (r matches Ok(Message::Close(None))),
        p.len() == 1 ==> r == Err::<Message, ProtocolError>(ProtocolError::InvalidCloseCode),
        p.len() >= 2 ==> ({
            let code = p[0] as int * 256 + p[1] as int;
            &&& (code < 1000 || (1015 < code < 3000) || code >= 4999) ==> r == Err::<
                Message,
                ProtocolError,
            >(ProtocolError::InvalidCloseCode)
            &&& p.len() == 2 && ((1000 <= code <= 1015) || (3000 <= code < 4999)) ==> (r matches Ok(
                Message::Close(Some((c, None))),
            ) && close_code_number(c) == code)
            &&& r is Ok ==> (r matches Ok(Message::Close(Some((c, _)))) && close_code_number(c)
                == code)
        }),
{
    if p.len() >= 2 {
        assert(leading_code(p) as int == p[0] as int * 256 + p[1] as int);
    }
}

} // verus!
