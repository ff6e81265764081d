use bytes::{Bytes, BytesMut};
use via::body::aggregate::{
    bytes_into_text, reserve_decision, try_reserve, ReadIntoBytes, ReadIntoString,
    ReserveOutcome, StreamEvent,
};
use via::body::body_reader::{body_already_read, BodyData, BodyReader, ReadEvent};
use via::body::buffered::{Buffered, BufferedBody, MAX_BUFFERED_FRAME_LEN};
use via::body::data_stream::{BodyDataStream, FrameEvent};
use via::body::limit::{error_from_boxed, map_err, BodyError, LimitError, RequestBody};
use via::error::Error;

#[test]
fn body_reader_collects_the_data_frames_in_order() {
    let mut reader = BodyReader::new(());
    assert!(reader.on_event(ReadEvent::Data(Bytes::from_static(b"hello "))).is_none());
    assert!(reader.on_event(ReadEvent::Other).is_none());
    assert!(reader.on_event(ReadEvent::Data(Bytes::from_static(b"world"))).is_none());
    let data = reader.on_event(ReadEvent::End).unwrap().unwrap();
    assert_eq!(data.len(), 11);
    assert!(!data.is_empty());
    assert!(data.trailers().is_none());
    assert_eq!(data.into_bytes(), Bytes::from_static(b"hello world"));
}

#[test]
fn body_reader_merges_trailers() {
    let mut reader = BodyReader::new(());
    let mut first = http::HeaderMap::new();
    first.insert("x-a", "1".parse().unwrap());
    let mut second = http::HeaderMap::new();
    second.insert("x-a", "2".parse().unwrap());
    second.insert("x-b", "3".parse().unwrap());
    let event = ReadEvent::Trailers(first);
    assert!(reader.can_accept(&event));
    assert!(reader.on_event(event).is_none());
    assert!(reader.try_on_event(ReadEvent::Trailers(second)).unwrap().is_none());
    let data = reader.on_event(ReadEvent::End).unwrap().unwrap();
    let trailers = data.trailers().unwrap();
    assert_eq!(trailers.get("x-a").unwrap(), "2");
    assert_eq!(trailers.get("x-b").unwrap(), "3");
}

#[test]
fn body_reader_fails_after_the_body_was_read() {
    let mut reader = BodyReader::new(());
    assert!(reader.on_event(ReadEvent::End).unwrap().is_ok());
    let error = reader.on_event(ReadEvent::End).unwrap().unwrap_err();
    assert_eq!(error.status().as_u16(), 500);
    assert_eq!(error.to_string(), "request body already read");
    let error = reader.on_event(ReadEvent::Data(Bytes::new())).unwrap().unwrap_err();
    assert_eq!(error.to_string(), body_already_read().to_string());
}

#[test]
fn body_reader_reports_body_errors() {
    let mut reader = BodyReader::new(());
    let error = reader
        .on_event(ReadEvent::Failed(BodyError::Limit(LimitError)))
        .unwrap()
        .unwrap_err();
    assert_eq!(error.status().as_u16(), 413);
    assert_eq!(error.to_string(), "maximum request body size exceeded");
    let error = reader
        .on_event(ReadEvent::Failed(BodyError::Other("reset".to_string())))
        .unwrap()
        .unwrap_err();
    assert_eq!(error.status().as_u16(), 400);
}

#[test]
fn body_data_into_text() {
    let data = BodyData::new(vec![Bytes::from_static(b"caf"), Bytes::from_static(&[0xc3, 0xa9])], None);
    assert_eq!(data.into_text().unwrap(), "café");
    let data = BodyData::new(vec![Bytes::from_static(&[0xff])], None);
    let error = data.into_text().unwrap_err();
    assert_eq!(error.status().as_u16(), 400);
    assert!(BodyData::default().is_empty());
}

#[test]
fn error_from_boxed_and_map_err() {
    assert_eq!(error_from_boxed(BodyError::Limit(LimitError)).status().as_u16(), 413);
    assert_eq!(error_from_boxed(BodyError::Other("x".to_string())).status().as_u16(), 400);
    assert_eq!(map_err(true, "length limit exceeded".to_string()).status().as_u16(), 413);
    assert_eq!(map_err(false, "bad".to_string()).status().as_u16(), 400);
    assert_eq!(LimitError.to_string(), "maximum request body size exceeded");
}

#[test]
fn request_body_enforces_its_limit() {
    let mut body = RequestBody::new(10, ());
    assert!(body.check_frame(Some(4)).is_ok());
    assert!(body.check_frame(None).is_ok());
    assert!(body.check_frame(Some(6)).is_ok());
    assert!(body.check_frame(Some(1)).is_err());
    assert!(body.check_frame(Some(0)).is_ok());
    let mut body = RequestBody::new(3, ());
    assert!(body.check_frame(Some(4)).is_err());
    assert!(body.check_frame(Some(3)).is_ok());
}

#[test]
fn reserve_decisions() {
    assert_eq!(reserve_decision(10, 5), ReserveOutcome::Enough);
    assert_eq!(reserve_decision(0, 5), ReserveOutcome::Grow);
    assert_eq!(reserve_decision(isize::MAX as usize, usize::MAX), ReserveOutcome::Refuse);
    assert_eq!(reserve_decision(1, isize::MAX as usize), ReserveOutcome::Refuse);
    let mut buffer = vec![1u8, 2];
    assert!(try_reserve(&mut buffer, 100).is_ok());
    assert_eq!(buffer, vec![1, 2]);
    let error = try_reserve(&mut buffer, usize::MAX).unwrap_err();
    assert_eq!(error.status().as_u16(), 500);
    assert_eq!(error.to_string(), "failed to reserve enough capacity for the next frame.");
}

#[test]
fn read_into_bytes_appends_frames() {
    let mut reader = ReadIntoBytes::new(b"> ".to_vec(), ());
    assert!(reader.on_event(StreamEvent::Frame(Bytes::from_static(b"ab"))).is_none());
    assert!(reader.on_event(StreamEvent::Frame(Bytes::from_static(b"cd"))).is_none());
    let bytes = reader.on_event(StreamEvent::End).unwrap().unwrap();
    assert_eq!(bytes, b"> abcd".to_vec());

    let mut reader = ReadIntoBytes::new(Vec::new(), ());
    assert!(reader.on_event(StreamEvent::Frame(Bytes::from_static(b"ab"))).is_none());
    let error = reader
        .on_event(StreamEvent::Failed(Error::bad_request("broken".to_string())))
        .unwrap()
        .unwrap_err();
    assert_eq!(error.to_string(), "broken");
    assert_eq!(reader.on_event(StreamEvent::End).unwrap().unwrap(), Vec::<u8>::new());
}

#[test]
fn read_into_string_decodes_utf8() {
    let mut reader = ReadIntoString::new(ReadIntoBytes::new(Vec::new(), ()));
    assert!(reader.on_event(StreamEvent::Frame(Bytes::from_static(b"hi"))).is_none());
    assert_eq!(reader.on_event(StreamEvent::End).unwrap().unwrap(), "hi");

    let error = bytes_into_text(Ok(vec![0xff])).unwrap_err();
    assert_eq!(error.status().as_u16(), 500);
    assert_eq!(error.to_string(), "invalid utf-8 sequence of 1 bytes from index 0");
}

#[test]
fn buffered_bodies_read_16kb_frames() {
    let data = vec![7u8; MAX_BUFFERED_FRAME_LEN + 3];
    let mut body = BufferedBody::new(&data);
    assert_eq!(body.len(), data.len());
    assert_eq!(body.size_hint().exact(), Some(data.len() as u64));
    assert_eq!(body.poll_frame().unwrap().len(), MAX_BUFFERED_FRAME_LEN);
    assert_eq!(body.poll_frame().unwrap().len(), 3);
    assert!(body.poll_frame().is_none());
    assert!(body.is_end_stream());
    assert!(BufferedBody::default().is_empty());

    let mut body = Buffered::new(BytesMut::from(&b"abc"[..]));
    assert_eq!(body.len(), 3);
    assert_eq!(body.poll_frame().unwrap(), Bytes::from_static(b"abc"));
    assert!(body.is_empty());
}

#[test]
fn body_data_stream_skips_other_frames() {
    let stream = BodyDataStream::new(());
    assert!(stream.on_frame(FrameEvent::NotData).is_none());
    let item = stream.on_frame(FrameEvent::Data(Bytes::from_static(b"x"))).unwrap().unwrap();
    assert_eq!(item.unwrap(), Bytes::from_static(b"x"));
    assert!(stream.on_frame(FrameEvent::End).unwrap().is_none());
}

fn many_names(count: usize) -> http::HeaderMap {
    let mut map = http::HeaderMap::new();
    for i in 0..count {
        let name = http::HeaderName::from_bytes(format!("x-{i}").as_bytes()).unwrap();
        map.insert(name, http::HeaderValue::from_static("1"));
    }
    map
}

#[test]
fn body_reader_bounds_the_names_of_merged_trailers() {
    let reader = BodyReader::new(());
    assert!(reader.can_accept(&ReadEvent::Trailers(many_names(6553))));
    assert!(!reader.can_accept(&ReadEvent::Trailers(many_names(6554))));

    let mut reader = BodyReader::new(());
    assert!(reader.on_event(ReadEvent::Trailers(many_names(6000))).is_none());
    assert!(reader.can_accept(&ReadEvent::Trailers(many_names(553))));
    assert!(!reader.can_accept(&ReadEvent::Trailers(many_names(554))));
}
