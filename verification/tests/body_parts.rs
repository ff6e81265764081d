use bytes::Bytes;
use http_body::SizeHint;
use via::body::buffered::Buffered;
use via::body::either::{Either, EitherProjection};
use via::body::map::{MapBody, Mapped};
use via::body::size_hint::{from_body_for_stream, from_stream_for_body};
use via::body::stream_body::StreamBody;
use via::error::Error;

#[test]
fn size_hint_conversions() {
    let hint = from_stream_for_body((3, Some(9)));
    assert_eq!(hint.lower(), 3);
    assert_eq!(hint.upper(), Some(9));
    assert_eq!(from_body_for_stream(&hint), (3, Some(9)));
    let open = from_stream_for_body((5, None));
    assert_eq!(from_body_for_stream(&open), (5, None));
    assert_eq!(from_body_for_stream(&SizeHint::with_exact(12)), (12, Some(12)));
}

#[test]
fn stream_body_hint_and_end() {
    let body = StreamBody::new(());
    assert!(!body.is_end_stream());
    let hint = body.size_hint((2, Some(4)));
    assert_eq!((hint.lower(), hint.upper()), (2, Some(4)));
    let hint = body.size_hint((2, None));
    assert_eq!((hint.lower(), hint.upper()), (2, None));
}

#[test]
fn either_projects_the_body_it_holds() {
    let mut left: Either<u8, u16> = Either::Left(1);
    match left.project() {
        EitherProjection::Left(l) => *l = 5,
        EitherProjection::Right(_) => panic!("expected left"),
    }
    assert!(matches!(left, Either::Left(5)));
    let mut right: Either<u8, u16> = Either::Right(2);
    match right.project() {
        EitherProjection::Left(_) => panic!("expected right"),
        EitherProjection::Right(r) => *r += 1,
    }
    assert!(matches!(right, Either::Right(3)));
}

fn upper(data: Bytes) -> Result<Bytes, Error> {
    Ok(Bytes::from(data.to_ascii_uppercase()))
}

fn exclaim(data: Bytes) -> Result<Bytes, Error> {
    let mut v = data.to_vec();
    v.push(b'!');
    Ok(Bytes::from(v))
}

fn refuse(_: Bytes) -> Result<Bytes, Error> {
    Err(Error::bad_request("refused".to_string()))
}

#[test]
fn mapped_runs_the_last_pushed_first() {
    let mut mapped: Mapped<(), fn(Bytes) -> Result<Bytes, Error>> =
        Mapped::new(Either::Left(Buffered::new(bytes::BytesMut::from(&b"ab"[..]))));
    assert_eq!(mapped.len(), Some(2));
    assert!(!mapped.is_empty());
    mapped.push(exclaim);
    mapped.push(upper);
    assert_eq!(mapped.map_data(Bytes::from_static(b"hi")).unwrap(), Bytes::from_static(b"HI!"));
    mapped.push(refuse);
    assert_eq!(mapped.map_data(Bytes::from_static(b"hi")).unwrap_err().to_string(), "refused");

    let streaming: Mapped<(), fn(Bytes) -> Result<Bytes, Error>> = Mapped::new(Either::Right(()));
    assert_eq!(streaming.len(), None);
    assert!(!streaming.is_empty());
}

#[test]
fn map_body_passes_data_through() {
    let body: MapBody<_, (), Error> = MapBody::new((), upper);
    assert_eq!(body.map_data(Bytes::from_static(b"ok")).unwrap(), Bytes::from_static(b"OK"));
}
