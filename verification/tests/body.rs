//! Bodies and messages.
use bytes::Bytes;
use local_sync::{mpsc, oneshot};
use monoio_http_client::common::body::{
    h1_data, h2_data, Body, FramedPayloadRecvr, HttpBody, HttpError, NextData, OwnedBody,
    RecvStream, StreamHint,
};
use monoio_http_client::common::{
    BorrowHeaderMap, FromParts, IntoParts, Request, RequestHead, Response, ResponseHead, Version,
};

struct Polled(StreamHint);

impl OwnedBody for Polled {
    type Data = Bytes;

    type Error = u8;

    fn stream_hint(&self) -> StreamHint {
        self.0
    }
}

type TestBody = HttpBody<Polled, &'static str>;

fn payload(hint: StreamHint) -> FramedPayloadRecvr<&'static str> {
    let (_, data_rx) = mpsc::unbounded::channel();
    let (drop_tx, drop_rx) = oneshot::channel();
    FramedPayloadRecvr { data_rx, drop_tx: Some(drop_tx), drop_rx: Some(drop_rx), hint }
}

fn request_head() -> RequestHead {
    let mut headers = http::HeaderMap::new();
    headers.insert("accept", http::HeaderValue::from_static("text/plain"));
    RequestHead {
        method: "POST".to_string(),
        uri: "http://example.com/a".to_string(),
        version: Version::Http11,
        headers,
        extensions: http::Extensions::new(),
    }
}

fn response_head() -> ResponseHead {
    ResponseHead {
        status: 404,
        version: Version::Http10,
        headers: http::HeaderMap::new(),
        extensions: http::Extensions::new(),
    }
}

#[test]
fn polled_body_is_a_body() {
    assert_eq!(Body::stream_hint(&Polled(StreamHint::Empty)), StreamHint::Empty);
    assert_eq!(Body::stream_hint(&Polled(StreamHint::Stream)), StreamHint::Stream);
    assert_eq!(RecvStream { stream: Polled(StreamHint::Fixed) }.stream_hint(), StreamHint::Fixed);
}

#[test]
fn ready_body_yields_once() {
    let mut body: TestBody = HttpBody::Ready(Some(Bytes::from_static(b"data")));
    assert_eq!(body.stream_hint(), StreamHint::Fixed);
    match body.next_data() {
        NextData::Now(Some(Ok(data))) => assert_eq!(data, Bytes::from_static(b"data")),
        _ => panic!(),
    }
    assert!(matches!(body.next_data(), NextData::Now(None)));
    assert!(matches!(body.next_data(), NextData::Now(None)));
    assert_eq!(body.stream_hint(), StreamHint::Fixed);
}

#[test]
fn default_body_is_empty() {
    let mut body = TestBody::default();
    assert!(matches!(body, HttpBody::Ready(None)));
    assert!(matches!(body.next_data(), NextData::Now(None)));
}

#[test]
fn payload_body_comes_over_http1() {
    let mut body = TestBody::from(payload(StreamHint::Stream));
    assert_eq!(body.stream_hint(), StreamHint::Stream);
    assert!(matches!(body.next_data(), NextData::FromH1));
    assert!(matches!(body, HttpBody::H1(ref p) if p.drop_rx.is_some()));
    assert_eq!(TestBody::from(payload(StreamHint::Empty)).stream_hint(), StreamHint::Empty);
}

#[test]
fn stream_body_comes_over_http2() {
    let mut body = TestBody::from(RecvStream { stream: Polled(StreamHint::Empty) });
    assert_eq!(body.stream_hint(), StreamHint::Empty);
    assert!(matches!(body.next_data(), NextData::FromH2));
    assert!(matches!(body, HttpBody::H2(_)));
}

#[test]
fn chunks_keep_their_data_and_errors_their_origin() {
    let chunk = h1_data::<&str, u8>(Some(Ok(Bytes::from_static(b"x"))));
    assert!(matches!(chunk, Some(Ok(ref data)) if data[..] == b"x"[..]));
    let chunk = h1_data::<&str, u8>(Some(Err("broken")));
    assert!(matches!(chunk, Some(Err(HttpError::H1("broken")))));
    assert!(h1_data::<&str, u8>(None).is_none());

    let chunk = h2_data::<&str, u8>(Some(Ok(Bytes::from_static(b"y"))));
    assert!(matches!(chunk, Some(Ok(ref data)) if data[..] == b"y"[..]));
    let chunk = h2_data::<&str, u8>(Some(Err(3)));
    assert!(matches!(chunk, Some(Err(HttpError::H2(3)))));
    assert!(h2_data::<&str, u8>(None).is_none());
}

#[test]
fn request_comes_apart_as_it_was_put_together() {
    let (head, body) = Request::from_parts(request_head(), 7u32).into_parts();
    assert_eq!(head.method, "POST");
    assert_eq!(head.uri, "http://example.com/a");
    assert_eq!(head.version, Version::Http11);
    assert_eq!(head.headers, request_head().headers);
    assert_eq!(body, 7);
}

#[test]
fn response_comes_apart_as_it_was_put_together() {
    let (head, body) = Response::from_parts(response_head(), "body").into_parts();
    assert_eq!(head.status, 404);
    assert_eq!(head.version, Version::Http10);
    assert!(head.headers.is_empty());
    assert_eq!(body, "body");
}

#[test]
fn headers_are_lent() {
    let mut req = Request::from_parts(request_head(), ());
    assert_eq!(req.header_map().get("accept").unwrap(), "text/plain");
    req.header_map_mut().insert("host", http::HeaderValue::from_static("example.com"));
    assert_eq!(req.head.headers.len(), 2);
    assert_eq!(req.header_map().get("host").unwrap(), "example.com");

    let mut resp = Response::from_parts(response_head(), ());
    assert!(resp.header_map().is_empty());
    resp.header_map_mut().insert("server", http::HeaderValue::from_static("s"));
    assert_eq!(resp.header_map().get("server").unwrap(), "s");
    assert_eq!(resp.head.status, 404);
}
