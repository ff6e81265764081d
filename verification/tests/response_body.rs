use bytes::Bytes;
use via::body::response_body::{ResponseBody, MAX_CHUNK_LEN};

#[test]
fn test_response_body_from_bytes() {
    let body = ResponseBody::from_bytes(Bytes::copy_from_slice(&vec![b' '; MAX_CHUNK_LEN * 10]));

    assert_eq!(
        body.chunk_count(),
        10,
        "the byte buffer is split into chunks no larger than MAX_FRAME_LEN"
    );

    assert_eq!(
        body.chunk_count(),
        body.chunk_capacity(),
        "the capacity of the vec that stores each chunk is also it's length"
    );
}

#[test]
fn response_body_test_is_end_stream() {
    assert!(
        ResponseBody::default().is_end_stream(),
        "is_end_stream should be true for an empty response"
    );

    let mut body = ResponseBody::new(vec![
        Bytes::copy_from_slice(b"Hello"),
        Bytes::copy_from_slice(b", world!"),
    ]);

    assert!(
        !body.is_end_stream(),
        "is_end_stream should be false when there is a remaining data frame."
    );

    while body.poll_frame().is_some() {}

    assert!(
        body.is_end_stream(),
        "is_end_stream should be true after each frame is polled."
    );
}

#[test]
fn response_body_test_size_hint() {
    let single_frame = ResponseBody::new(vec![Bytes::copy_from_slice(b"Hello, world!")]).size_hint();

    let many_frames = ResponseBody::new(vec![
        Bytes::copy_from_slice(b"Hello"),
        Bytes::copy_from_slice(b", world!"),
    ])
    .size_hint();

    assert_eq!(single_frame.exact(), Some("Hello, world!".len() as u64));
    assert_eq!(many_frames.exact(), Some("Hello, world!".len() as u64));
}

#[test]
fn response_body_test_poll_frame_empty() {
    let mut body = ResponseBody::from_str("");
    assert!(body.poll_frame().is_none());
}

#[test]
fn response_body_test_poll_frame_one() {
    let mut body = ResponseBody::from_str("Hello, world!");
    let hello_world = body.poll_frame().unwrap();

    assert_eq!(hello_world, Bytes::copy_from_slice(b"Hello, world!"));
    assert!(body.poll_frame().is_none());
}

#[test]
fn response_body_test_poll_frame() {
    let frames = [
        format!("hello{}", " ".repeat(MAX_CHUNK_LEN - 5)),
        "world".to_owned(),
    ];

    let mut body = ResponseBody::from_string(frames.concat());

    for part in &frames {
        let next = body.poll_frame().unwrap();
        assert_eq!(next, Bytes::copy_from_slice(part.as_bytes()));
    }

    assert!(body.poll_frame().is_none());
}

#[test]
fn response_body_chunks_rebuild_the_data() {
    let data: Vec<u8> = (0..(2 * MAX_CHUNK_LEN + 1)).map(|i| (i % 7) as u8).collect();
    let mut body = ResponseBody::from_vec(data.clone());
    assert_eq!(body.chunk_count(), 3);
    assert_eq!(body.size_hint().exact(), Some(data.len() as u64));

    let mut joined = Vec::new();
    while let Some(chunk) = body.poll_frame() {
        joined.extend_from_slice(&chunk);
    }
    assert_eq!(joined, data);
    // The hint counts every chunk, read or not.
    assert_eq!(body.size_hint().exact(), Some(data.len() as u64));
}

#[test]
fn response_body_empty_slice_has_no_chunks() {
    let body = ResponseBody::from_slice(&[]);
    assert_eq!(body.chunk_count(), 0);
    assert!(body.is_end_stream());
    assert_eq!(body.size_hint().exact(), Some(0));
}
