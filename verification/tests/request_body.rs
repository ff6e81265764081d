use bytes::{Bytes, BytesMut};
use via::body::aggregate::StreamEvent;
use via::body::request::{
    bytes_mut_with_capacity_for, preallocation, try_reserve, ReadIntoBytes, RequestBody,
    MAX_PREALLOC_SIZE,
};
use via::body::size_hint::body_stream_size_hint;
use via::error::Error;

#[test]
fn preallocation_is_capped() {
    assert_eq!(preallocation(None), None);
    assert_eq!(preallocation(Some(10)), Some(10));
    assert_eq!(preallocation(Some(MAX_PREALLOC_SIZE + 1)), Some(MAX_PREALLOC_SIZE));
    let buffer = bytes_mut_with_capacity_for(Some(64));
    assert!(buffer.is_empty());
    assert!(buffer.capacity() >= 64);
}

#[test]
fn request_body_reads_into_bytes() {
    let body = RequestBody::with_len((), 4);
    let mut reader = body.read_into_bytes();
    assert!(reader.on_event(StreamEvent::Frame(Bytes::from_static(b"ab"))).is_none());
    assert!(reader.on_event(StreamEvent::Frame(Bytes::from_static(b"cd"))).is_none());
    assert_eq!(reader.on_event(StreamEvent::End).unwrap().unwrap(), Bytes::from_static(b"abcd"));
    // The buffer was handed out: a second end yields nothing more.
    assert_eq!(reader.on_event(StreamEvent::End).unwrap().unwrap(), Bytes::new());
}

#[test]
fn request_body_read_fails_and_empties_the_buffer() {
    let mut reader = ReadIntoBytes::new(BytesMut::from(&b"secret"[..]), ());
    let error = reader
        .on_event(StreamEvent::Failed(Error::bad_request("reset".to_string())))
        .unwrap()
        .unwrap_err();
    assert_eq!(error.to_string(), "reset");
    assert_eq!(reader.on_event(StreamEvent::End).unwrap().unwrap(), Bytes::new());
}

#[test]
fn request_body_reads_into_text() {
    let mut reader = RequestBody::new(()).read_into_string();
    assert!(reader.on_event(StreamEvent::Frame(Bytes::from_static("héllo".as_bytes()))).is_none());
    assert_eq!(reader.on_event(StreamEvent::End).unwrap().unwrap(), "héllo");

    let mut reader = RequestBody::new(()).read_into_string();
    assert!(reader.on_event(StreamEvent::Frame(Bytes::from_static(&[0xc3]))).is_none());
    let error = reader.on_event(StreamEvent::End).unwrap().unwrap_err();
    assert_eq!(error.status().as_u16(), 500);
    assert_eq!(error.to_string(), "incomplete utf-8 byte sequence from index 0");
}

#[test]
fn bytes_mut_try_reserve() {
    let mut buffer = BytesMut::from(&b"xy"[..]);
    assert!(try_reserve(&mut buffer, 1000).is_ok());
    assert!(buffer.capacity() >= 1000);
    assert_eq!(&buffer[..], b"xy");
    assert!(try_reserve(&mut buffer, usize::MAX).is_err());
    assert_eq!(&buffer[..], b"xy");
}

#[test]
fn body_stream_hint_keeps_the_bounds() {
    let hint = http_body::SizeHint::with_exact(42);
    assert_eq!(body_stream_size_hint(&hint), (42, Some(42)));
    let open = http_body::SizeHint::new();
    assert_eq!(body_stream_size_hint(&open), (0, None));
}
