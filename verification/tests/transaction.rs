//! Requests on their way to a connection manager, and replies on their way back.
use std::future::Future;
use std::pin::Pin;
use std::sync::Arc;
use std::task::{Context, Poll, Wake, Waker};

use local_sync::oneshot;
use monoio_http_client::client::transaction::{
    request_channel, settle, submitted, PooledConnectionPipe, Reply, SingleRecvr, Transaction,
};
use monoio_http_client::common::{Request, RequestHead, Response, ResponseHead, Version};
use monoio_http_client::error::{Error, IoErrorKind};

struct Idle;

impl Wake for Idle {
    fn wake(self: Arc<Self>) {}
}

/// What a future yields that is ready.
fn ready<F: Future + Unpin>(mut future: F) -> F::Output {
    let waker = Waker::from(Arc::new(Idle));
    match Pin::new(&mut future).poll(&mut Context::from_waker(&waker)) {
        Poll::Ready(output) => output,
        Poll::Pending => panic!(),
    }
}

fn request(body: u32) -> Request<u32> {
    Request {
        head: RequestHead {
            method: "GET".to_string(),
            uri: "/".to_string(),
            version: Version::Http11,
            headers: http::HeaderMap::new(),
            extensions: http::Extensions::new(),
        },
        body,
    }
}

fn response(body: u32) -> Response<u32> {
    Response {
        head: ResponseHead {
            status: 200,
            version: Version::Http11,
            headers: http::HeaderMap::new(),
            extensions: http::Extensions::new(),
        },
        body,
    }
}

fn http1_pipe() -> (PooledConnectionPipe<u32, &'static str>, SingleRecvr<u32, &'static str>) {
    let (sender, recvr) = request_channel();
    (PooledConnectionPipe::Http1(sender), recvr)
}

#[test]
fn transaction_comes_apart() {
    let (transaction, mut resp_rx) = Transaction::<u32, &str>::open(request(3));
    let (req, resp_tx) = transaction.parts();
    assert_eq!(req.body, 3);
    assert!(resp_tx.send(Ok(response(4))).is_ok());
    assert!(matches!(resp_rx.try_recv(), Ok(Ok(Response { body: 4, .. }))));
}

#[test]
fn request_reaches_the_manager_and_its_reply_the_user() {
    let (mut pipe, mut recvr) = http1_pipe();
    let resp_rx = pipe.send_request(request(8)).unwrap();
    let (req, resp_tx) = recvr.req_rx.try_recv().unwrap().parts();
    assert_eq!(req.body, 8);
    assert!(Reply { resp_tx, result: Ok(response(9)) }.deliver().is_ok());
    assert_eq!(settle(ready(resp_rx)).unwrap().body, 9);
}

#[test]
fn http2_pipe_has_many_senders() {
    let (sender, mut recvr) = request_channel::<u32, &str>();
    let sender = sender.into_multi_sender();
    let mut first = PooledConnectionPipe::Http2(sender.clone());
    let mut second = PooledConnectionPipe::Http2(sender);
    let _first_rx = first.send_request(request(1)).unwrap();
    let _second_rx = second.send_request(request(2)).unwrap();
    assert_eq!(recvr.req_rx.try_recv().unwrap().req.body, 1);
    assert_eq!(recvr.req_rx.try_recv().unwrap().req.body, 2);
}

#[test]
fn without_a_manager_a_request_is_refused() {
    let (mut pipe, recvr) = http1_pipe();
    drop(recvr);
    assert!(matches!(pipe.send_request(request(1)), Err(Error::ConnManagerReqSendError)));
    let (transaction, _resp_rx) = Transaction::open(request(1));
    assert!(matches!(pipe.submit(transaction), Err(Error::ConnManagerReqSendError)));
    assert!(submitted::<u8>(Ok(())).is_ok());
}

#[test]
fn a_request_that_is_given_up_has_an_error() {
    let (mut pipe, mut recvr) = http1_pipe();
    let resp_rx = pipe.send_request(request(1)).unwrap();
    drop(recvr.req_rx.try_recv());
    assert!(matches!(settle(ready(resp_rx)), Err(Error::ConnManagerRespRecvError)));
}

#[test]
fn the_error_of_a_manager_is_passed_on() {
    let (mut pipe, mut recvr) = http1_pipe();
    let resp_rx = pipe.send_request(request(1)).unwrap();
    let (_, resp_tx) = recvr.req_rx.try_recv().unwrap().parts();
    assert!(Reply { resp_tx, result: Err(Error::H1Decode("odd")) }.deliver().is_ok());
    assert!(matches!(settle(ready(resp_rx)), Err(Error::H1Decode("odd"))));
}

#[test]
fn a_reply_that_nobody_awaits_comes_back() {
    let (resp_tx, resp_rx) = oneshot::channel();
    drop(resp_rx);
    let back = Reply::<u32, &str> { resp_tx, result: Ok(response(6)) }.deliver();
    assert!(matches!(back, Err(Ok(Response { body: 6, .. }))));
}

#[test]
fn eof_has_its_message() {
    assert_eq!(IoErrorKind::UnexpectedEof.message(), "unexpected eof when read response");
}
