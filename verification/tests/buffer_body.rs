use bytes::Bytes;
use via::body::buffer_body::{BufferBody, MAX_FRAME_LEN};

#[test]
fn buffer_body_test_is_end_stream() {
    assert!(
        BufferBody::default().is_end_stream(),
        "is_end_stream should be true for an empty response"
    );

    let text = format!("Hello,{}world", " ".repeat(MAX_FRAME_LEN - 6));
    let mut body = BufferBody::from_str(&text);

    assert!(
        !body.is_end_stream(),
        "is_end_stream should be false when there is a remaining data frame."
    );

    while body.poll_frame().is_some() {}

    assert!(
        body.is_end_stream(),
        "is_end_stream should be true after each frame is polled."
    );
}

#[test]
fn buffer_body_test_poll_frame_empty() {
    assert!(BufferBody::default().poll_frame().is_none());
}

#[test]
fn buffer_body_test_poll_frame_one() {
    let mut body = BufferBody::from_str("Hello, world!");
    let hello_world = body.poll_frame().unwrap();

    assert_eq!(hello_world, Bytes::copy_from_slice(b"Hello, world!"));
    assert!(body.poll_frame().is_none());
}

#[test]
fn buffer_body_test_poll_frame() {
    let frames = [
        format!("hello{}", " ".repeat(MAX_FRAME_LEN - 5)),
        "world".to_owned(),
    ];

    let mut body = BufferBody::from_str(&frames.concat());

    for part in &frames {
        let next = body.poll_frame().unwrap();
        assert_eq!(next, Bytes::copy_from_slice(part.as_bytes()));
    }

    assert!(body.poll_frame().is_none());
}

#[test]
fn buffer_body_size_hint_counts_the_remaining_bytes() {
    assert_eq!(BufferBody::from_str("abc").size_hint().exact(), Some(3));
    assert_eq!(BufferBody::new().size_hint().exact(), Some(0));

    let data = vec![7u8; 2 * MAX_FRAME_LEN + 5];
    let mut body = BufferBody::from_vec(data);
    assert_eq!(body.size_hint().exact(), Some((2 * MAX_FRAME_LEN + 5) as u64));
    body.poll_frame().unwrap();
    assert_eq!(body.size_hint().exact(), Some((MAX_FRAME_LEN + 5) as u64));
    body.poll_frame().unwrap();
    body.poll_frame().unwrap();
    assert_eq!(body.size_hint().exact(), Some(0));
}

#[test]
fn buffer_body_frames_rebuild_the_data() {
    let data: Vec<u8> = (0..(3 * MAX_FRAME_LEN + 17)).map(|i| (i % 251) as u8).collect();
    let mut body = BufferBody::from_vec(data.clone());
    let mut joined = Vec::new();
    let mut count = 0;

    while let Some(frame) = body.poll_frame() {
        assert!(!frame.is_empty() && frame.len() <= MAX_FRAME_LEN);
        joined.extend_from_slice(&frame);
        count += 1;
    }

    assert_eq!(joined, data);
    assert_eq!(count, 4);
}

#[test]
fn buffer_body_from_bytes_and_slice() {
    let mut body = BufferBody::from_bytes(Bytes::from_static(b"abc"));
    assert_eq!(body.poll_frame().unwrap(), Bytes::from_static(b"abc"));
    let mut body = BufferBody::from_slice(b"xyz");
    assert_eq!(body.poll_frame().unwrap(), Bytes::from_static(b"xyz"));
}
