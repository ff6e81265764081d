use bytes::Bytes;
use std::collections::VecDeque;
use via::body::tee_body::{
    ShutdownEvent, SourceEvent, TeeAction, TeeBody, TeeFrame, TeeItem, WriteEvent,
};

enum Polled {
    Pending,
    Ready(TeeItem<(), ()>),
}

/// Drives one poll of the tee against a source that is always ready and a
/// writer that accepts everything.
fn poll(
    body: &mut TeeBody<(), (), (), ()>,
    source: &mut VecDeque<Bytes>,
    written: &mut Vec<u8>,
) -> Polled {
    let mut action = body.start_poll();
    loop {
        action = match action {
            TeeAction::PollShutdown => body.on_shutdown(ShutdownEvent::Done),
            TeeAction::PollSource => match source.pop_front() {
                Some(data) => body.on_source(SourceEvent::Data(data)),
                None => body.on_source(SourceEvent::End),
            },
            TeeAction::Write(bytes) => {
                written.extend_from_slice(&bytes);
                body.on_write(WriteEvent::Written(bytes.len()))
            }
            TeeAction::Ready(item) => return Polled::Ready(item),
            TeeAction::Pending(_) => return Polled::Pending,
        };
    }
}

fn expect_data_frame(polled: Polled) -> Bytes {
    match polled {
        Polled::Pending => panic!("expected ready, got pending"),
        Polled::Ready(None) => panic!("expected some, got none"),
        Polled::Ready(Some(Ok(TeeFrame::Data(data)))) => data,
        Polled::Ready(Some(_)) => panic!("expected data, got trailers"),
    }
}

#[test]
fn test_tee() {
    let mut written = Vec::new();
    let mut source: VecDeque<Bytes> = VecDeque::from(vec![
        Bytes::copy_from_slice(b"hello "),
        Bytes::copy_from_slice(b"world"),
    ]);
    let mut body: TeeBody<(), (), (), ()> = TeeBody::new((), ());

    assert!(matches!(poll(&mut body, &mut source, &mut written), Polled::Pending));

    assert_eq!(
        b"hello ".as_slice(),
        expect_data_frame(poll(&mut body, &mut source, &mut written)),
    );

    assert_eq!(
        b"world".as_slice(),
        expect_data_frame(poll(&mut body, &mut source, &mut written)),
    );

    assert_eq!(b"hello world".as_slice(), written.as_slice());

    assert!(body.is_end_stream(), "expected TeeStatus::Closed");
}

#[test]
fn tee_yields_only_what_was_written() {
    let mut body: TeeBody<(), (), (), ()> = TeeBody::new((), ());
    let mut action = body.start_poll();
    // The first frame is read before the first poll ends.
    action = match action {
        TeeAction::PollSource => body.on_source(SourceEvent::Data(Bytes::from_static(b"abcdef"))),
        _ => panic!("expected the source to be polled"),
    };
    assert!(matches!(action, TeeAction::Pending(true)));

    // The writer accepts two bytes: only those are yielded, the rest waits.
    let mut action = body.start_poll();
    action = match action {
        TeeAction::PollSource => body.on_source(SourceEvent::End),
        _ => panic!("expected the source to be polled"),
    };
    action = match action {
        TeeAction::Write(bytes) => {
            assert_eq!(bytes, Bytes::from_static(b"abcdef"));
            body.on_write(WriteEvent::Written(2))
        }
        _ => panic!("expected a write"),
    };
    match action {
        TeeAction::Ready(Some(Ok(TeeFrame::Data(data)))) => assert_eq!(data, Bytes::from_static(b"ab")),
        _ => panic!("expected the written part"),
    }
}

#[test]
fn tee_reports_a_broken_pipe() {
    let mut body: TeeBody<(), (), (), ()> = TeeBody::new((), ());
    let mut action = body.start_poll();
    if let TeeAction::PollSource = action {
        action = body.on_source(SourceEvent::Data(Bytes::from_static(b"xyz")));
    }
    assert!(matches!(action, TeeAction::Pending(true)));
    let mut action = body.start_poll();
    if let TeeAction::PollSource = action {
        action = body.on_source(SourceEvent::Pending);
    }
    // The source has nothing more yet, but the backlog is written.
    let mut action = match action {
        TeeAction::Pending(_) => body.start_poll(),
        other => other,
    };
    loop {
        action = match action {
            TeeAction::PollSource => body.on_source(SourceEvent::End),
            TeeAction::Write(_) => body.on_write(WriteEvent::Written(0)),
            TeeAction::PollShutdown => body.on_shutdown(ShutdownEvent::Done),
            TeeAction::Ready(item) => {
                assert!(matches!(item, Some(Err(via::body::tee_body::TeeFault::BrokenPipe))));
                break;
            }
            TeeAction::Pending(_) => body.start_poll(),
        };
    }
    assert!(body.is_end_stream());
}

#[test]
fn tee_of_an_empty_source_ends() {
    let mut body: TeeBody<(), (), (), ()> = TeeBody::new((), ());
    assert!(matches!(body.start_poll(), TeeAction::PollSource));
    assert!(matches!(body.on_source(SourceEvent::End), TeeAction::Pending(true)));
    assert!(matches!(body.start_poll(), TeeAction::PollSource));
    assert!(matches!(body.on_source(SourceEvent::End), TeeAction::PollShutdown));
    assert!(matches!(body.on_shutdown(ShutdownEvent::Done), TeeAction::Ready(None)));
    assert!(body.is_end_stream());
    assert!(matches!(body.start_poll(), TeeAction::Ready(None)));
}

#[test]
fn tee_keeps_a_frame_whose_write_is_pending() {
    let mut body: TeeBody<(), (), (), ()> = TeeBody::new((), ());
    body.start_poll();
    body.on_source(SourceEvent::Data(Bytes::from_static(b"abc")));
    body.start_poll();
    assert!(matches!(
        body.on_source(SourceEvent::Data(Bytes::from_static(b"de"))),
        TeeAction::Write(_)
    ));
    assert!(matches!(body.on_write(WriteEvent::Pending), TeeAction::Pending(false)));
    body.start_poll();
    match body.on_source(SourceEvent::End) {
        TeeAction::Write(bytes) => assert_eq!(bytes, Bytes::from_static(b"abc")),
        _ => panic!("expected the pending frame to be written again"),
    }
    match body.on_write(WriteEvent::Written(3)) {
        TeeAction::Ready(Some(Ok(TeeFrame::Data(data)))) => assert_eq!(data, Bytes::from_static(b"abc")),
        _ => panic!("expected the written frame"),
    }
}
