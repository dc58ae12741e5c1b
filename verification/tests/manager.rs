//! The managers of connections.
use bytes::Bytes;
use local_sync::oneshot;
use monoio_http_client::client::manager::{
    framed_response, h2_result, ConnectionManager, Http1Action, Http1ConnManager, Http1Event,
    Http1Stage, Http2Action, Http2ConnManager, Http2Event, Http2Stage,
};
use monoio_http_client::client::stream_task::{StreamStage, StreamState};
use monoio_http_client::client::transaction::{request_channel, SingleSender, Transaction};
use monoio_http_client::common::body::{Body, FramedPayloadRecvr, HttpBody, RecvStream, StreamHint};
use monoio_http_client::common::{Request, RequestHead, Response, ResponseHead, Version};
use monoio_http_client::error::{Error, IoErrorKind};

struct Stream(u8);

impl Body for Stream {
    type Data = Bytes;

    type Error = &'static str;

    fn stream_hint(&self) -> StreamHint {
        StreamHint::Stream
    }
}

type TestBody = HttpBody<Stream, &'static str>;

type TestResult = Result<Response<TestBody>, Error<&'static str>>;

type Manager1 = Http1ConnManager<&'static str, TestBody, &'static str>;

type Manager2 = Http2ConnManager<&'static str, TestBody, &'static str>;

type Event2 = Http2Event<u8, &'static str, TestBody, &'static str>;

fn request(uri: &str) -> Request<TestBody> {
    Request {
        head: RequestHead {
            method: "GET".to_string(),
            uri: uri.to_string(),
            version: Version::Http11,
            headers: http::HeaderMap::new(),
            extensions: http::Extensions::new(),
        },
        body: HttpBody::Ready(Some(Bytes::from_static(b"body"))),
    }
}

fn head(status: u16) -> ResponseHead {
    ResponseHead {
        status,
        version: Version::Http11,
        headers: http::HeaderMap::new(),
        extensions: http::Extensions::new(),
    }
}

fn transaction(uri: &str) -> (Transaction<TestBody, &'static str>, oneshot::Receiver<TestResult>) {
    Transaction::open(request(uri))
}

fn manager1() -> (Manager1, SingleSender<TestBody, &'static str>) {
    let (sender, recvr) = request_channel();
    (Http1ConnManager::new(recvr, "codec"), sender)
}

fn manager2() -> (Manager2, SingleSender<TestBody, &'static str>) {
    let (sender, recvr) = request_channel();
    (Http2ConnManager::new(recvr, "handle"), sender)
}

/// An HTTP/1 manager that has sent a request and waits for the response.
fn reading() -> (Manager1, oneshot::Receiver<TestResult>) {
    let (mut manager, _) = manager1();
    let _ = manager.begin();
    let (t, resp_rx) = transaction("/one");
    let step = manager.drive(Http1Event::Request(Some(t)));
    assert!(matches!(manager.perform(step), Http1Action::Send(ref req) if req.head.uri == "/one"));
    let step = manager.drive(Http1Event::Sent(Ok(())));
    assert!(matches!(manager.perform(step), Http1Action::Read));
    (manager, resp_rx)
}

#[test]
fn http1_manager_begins_with_its_connection() {
    let (mut manager, _sender) = manager1();
    let (codec, action) = manager.begin();
    assert_eq!(codec, "codec");
    assert!(matches!(action, Http1Action::Recv));
    assert!(manager.handle.is_none());
    assert!(matches!(manager.stage, Http1Stage::Waiting));
}

#[test]
fn http1_response_is_delivered_and_its_chunks_passed_on() {
    let (mut manager, mut resp_rx) = reading();
    let step = manager.respond(Some(Ok((head(200), StreamHint::Stream))));
    assert!(matches!(manager.perform(step), Http1Action::NextData));
    let resp = match resp_rx.try_recv() {
        Ok(Ok(resp)) => resp,
        _ => panic!(),
    };
    assert_eq!(resp.head.status, 200);
    let mut payload = match resp.body {
        HttpBody::H1(payload) => payload,
        _ => panic!(),
    };
    assert_eq!(payload.hint, StreamHint::Stream);

    for text in ["a", "bc"] {
        let chunk = Bytes::from_static(text.as_bytes());
        let step = manager.drive(Http1Event::Data(Some(Ok(chunk))));
        assert!(matches!(manager.perform(step), Http1Action::NextData));
    }
    let step = manager.drive(Http1Event::Data(Some(Err("cut"))));
    assert!(matches!(manager.perform(step), Http1Action::NextData));
    let step = manager.drive(Http1Event::Data(None));
    assert!(matches!(manager.perform(step), Http1Action::Recv));

    let first = payload.data_rx.try_recv();
    assert!(matches!(first, Ok(Some(Ok(ref data))) if data[..] == b"a"[..]));
    let second = payload.data_rx.try_recv();
    assert!(matches!(second, Ok(Some(Ok(ref data))) if data[..] == b"bc"[..]));
    assert!(matches!(payload.data_rx.try_recv(), Ok(Some(Err("cut")))));
    assert!(payload.data_rx.try_recv().is_err());
    assert!(matches!(manager.stage, Http1Stage::Waiting));
}

#[test]
fn http1_encode_error_is_the_reply_and_the_manager_goes_on() {
    let (mut manager, _) = manager1();
    let (t, mut resp_rx) = transaction("/one");
    let step = manager.drive(Http1Event::Request(Some(t)));
    let _ = manager.perform(step);
    let step = manager.drive(Http1Event::Sent(Err("full")));
    assert!(matches!(manager.perform(step), Http1Action::Recv));
    assert!(matches!(resp_rx.try_recv(), Ok(Err(Error::H1Encode("full")))));
    let (t, _resp_rx) = transaction("/two");
    let step = manager.drive(Http1Event::Request(Some(t)));
    assert!(matches!(manager.perform(step), Http1Action::Send(ref req) if req.head.uri == "/two"));
}

#[test]
fn http1_decode_error_is_the_reply_and_stops_the_manager() {
    let (mut manager, mut resp_rx) = reading();
    let step = manager.respond(Some(Err("odd")));
    assert!(matches!(manager.perform(step), Http1Action::Stop));
    assert!(matches!(resp_rx.try_recv(), Ok(Err(Error::H1Decode("odd")))));
    assert!(matches!(manager.stage, Http1Stage::Stopped));
}

#[test]
fn http1_eof_is_the_reply_and_stops_the_manager() {
    let (mut manager, mut resp_rx) = reading();
    let step = manager.respond(None);
    assert!(matches!(manager.perform(step), Http1Action::Stop));
    assert!(matches!(resp_rx.try_recv(), Ok(Err(Error::Io(IoErrorKind::UnexpectedEof)))));
    assert!(matches!(manager.stage, Http1Stage::Stopped));
}

#[test]
fn http1_manager_stops_without_users() {
    let (mut manager, _) = manager1();
    let step = manager.drive(Http1Event::Request(None));
    assert!(step.reply.is_none());
    assert!(matches!(manager.perform(step), Http1Action::Stop));
    assert!(matches!(manager.stage, Http1Stage::Stopped));
}

#[test]
fn framed_body_is_fed_by_its_sender() {
    let (resp, data_tx) = framed_response::<FramedPayloadRecvr<u8>, u8>(head(204), StreamHint::Fixed);
    let mut payload = resp.body;
    assert_eq!(resp.head.status, 204);
    assert_eq!(payload.hint, StreamHint::Fixed);
    assert!(data_tx.send(Some(Err(1))).is_ok());
    assert!(matches!(payload.data_rx.try_recv(), Ok(Some(Err(1)))));
    assert!(payload.drop_tx.take().unwrap().send(()).is_ok());
    assert!(payload.drop_rx.take().unwrap().try_recv().is_ok());
}

#[test]
fn http2_request_becomes_an_exchange() {
    let (mut manager, _) = manager2();
    let (t, mut resp_rx) = transaction("/one");
    assert!(matches!(manager.drive(Event2::Request(Some(t))).action, Http2Action::Ready));
    match manager.drive(Event2::Ready).action {
        Http2Action::Open { request, end_of_stream } => {
            assert_eq!(request.head.uri, "/one");
            assert!(!end_of_stream);
        }
        _ => panic!(),
    }
    let step = manager.drive(Event2::Opened(Ok((42, "stream"))));
    assert!(matches!(step.action, Http2Action::Recv));
    assert!(step.reply.is_none());
    let exchange = step.exchange.unwrap();
    assert_eq!(exchange.resp_fut, 42);
    assert_eq!(exchange.task.stream_pipe, "stream");
    assert_eq!(
        exchange.task.state,
        StreamState { data_done: false, stage: StreamStage::Capacity }
    );
    assert!(matches!(exchange.task.body, HttpBody::Ready(Some(ref data)) if data[..] == b"body"[..]));
    let result = h2_result(Ok((head(201), RecvStream { stream: Stream(7) })));
    assert!(exchange.resp_tx.send(result).is_ok());
    match resp_rx.try_recv() {
        Ok(Ok(resp)) => {
            assert_eq!(resp.head.status, 201);
            assert!(matches!(resp.body, HttpBody::H2(RecvStream { stream: Stream(7) })));
        }
        _ => panic!(),
    }
    assert!(matches!(manager.stage, Http2Stage::Waiting));
}

#[test]
fn http2_failure_is_the_reply_and_stops_the_manager() {
    let (mut manager, _) = manager2();
    let (t, mut resp_rx) = transaction("/one");
    let _ = manager.drive(Event2::Request(Some(t)));
    let _ = manager.drive(Event2::Ready);
    let step = manager.drive(Event2::Opened(Err("reset")));
    assert!(matches!(step.action, Http2Action::Stop));
    assert!(step.exchange.is_none());
    assert!(step.reply.unwrap().deliver().is_ok());
    assert!(matches!(resp_rx.try_recv(), Ok(Err(Error::H2("reset")))));
    assert!(matches!(manager.stage, Http2Stage::Stopped));
}

#[test]
fn http2_manager_stops_without_users() {
    let (mut manager, _) = manager2();
    assert!(matches!(manager.drive(Event2::Request(None)).action, Http2Action::Stop));
    assert_eq!(manager.handle, "handle");
}

#[test]
fn http2_response_error_is_the_result() {
    let result: TestResult = h2_result::<Stream, TestBody, &str>(Err("gone"));
    assert!(matches!(result, Err(Error::H2("gone"))));
}

#[test]
fn only_http1_managers_are_driven_together() {
    let (first, _) = manager1();
    let (second, _) = manager2();
    let mut first = ConnectionManager::<_, &str, _, _>::Http1(first);
    let mut second = ConnectionManager::<&str, _, _, _>::Http2(second);
    assert_eq!(first.drive().unwrap().begin().0, "codec");
    assert!(second.drive().is_none());
}
