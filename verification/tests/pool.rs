//! The pool of idle connections.
use bytes::Bytes;
use local_sync::{mpsc, oneshot};
use monoio_http_client::client::idle::{IdleAction, IdleEvent, IdleStage, IdleTask};
use monoio_http_client::client::pool::{
    ConnectionPool, IdleConnection, PooledConnection, DEFAULT_IDLE_INTERVAL,
    DEFAULT_KEEPALIVE_CONNS, DEFAULT_POOL_SIZE, MAX_KEEPALIVE_CONNS,
};
use monoio_http_client::client::pool::sweep_queue;
use monoio_http_client::client::transaction::{
    request_channel, PooledConnectionPipe, SingleRecvr,
};
use monoio_http_client::common::body::{FramedPayloadRecvr, HttpBody, StreamHint};
use monoio_http_client::common::{Request, RequestHead, Response, ResponseHead, Version};
use monoio_http_client::error::Error;

type TestBody = HttpBody<u8, &'static str>;

type Pool = ConnectionPool<String, TestBody, &'static str>;

type Conn = PooledConnection<String, TestBody, &'static str>;

type Recvr = SingleRecvr<TestBody, &'static str>;

fn pipe() -> (PooledConnectionPipe<TestBody, &'static str>, Recvr) {
    let (sender, recvr) = request_channel();
    (PooledConnectionPipe::Http1(sender), recvr)
}

fn request() -> Request<TestBody> {
    Request {
        head: RequestHead {
            method: "GET".to_string(),
            uri: "/".to_string(),
            version: Version::Http11,
            headers: http::HeaderMap::new(),
            extensions: http::Extensions::new(),
        },
        body: HttpBody::default(),
    }
}

fn response(connection: Option<&'static str>, body: TestBody) -> Response<TestBody> {
    let mut headers = http::HeaderMap::new();
    if let Some(value) = connection {
        headers.insert("connection", http::HeaderValue::from_static(value));
    }
    Response {
        head: ResponseHead {
            status: 200,
            version: Version::Http11,
            headers,
            extensions: http::Extensions::new(),
        },
        body,
    }
}

fn payload() -> FramedPayloadRecvr<&'static str> {
    let (_, data_rx) = mpsc::unbounded::channel();
    let (drop_tx, drop_rx) = oneshot::channel();
    FramedPayloadRecvr {
        data_rx,
        drop_tx: Some(drop_tx),
        drop_rx: Some(drop_rx),
        hint: StreamHint::Stream,
    }
}

fn key(text: &str) -> String {
    text.to_string()
}

/// Puts a new connection into the pool, idle since `now`.
fn fill(pool: &mut Pool, text: &str, now: u128) -> Recvr {
    let (pipe, recvr) = pipe();
    let conn = pool.link(key(text), pipe);
    conn.recycle_at(Some(pool), now);
    recvr
}

/// Whether requests over the connection come here.
fn leads_to(conn: &mut Conn, recvr: &mut Recvr) -> bool {
    let sent = conn.send_request(request());
    sent.is_ok() && recvr.req_rx.try_recv().is_ok()
}

#[test]
fn limits_are_as_documented() {
    assert_eq!(DEFAULT_KEEPALIVE_CONNS, 256);
    assert_eq!(DEFAULT_POOL_SIZE, 32);
    assert_eq!(MAX_KEEPALIVE_CONNS, 16384);
    assert_eq!(DEFAULT_IDLE_INTERVAL, 60_000_000_000);
}

#[test]
fn empty_pool_has_no_connection() {
    let mut pool = Pool::default();
    assert!(pool.get(&key("a")).is_none());
}

#[test]
fn second_connect_reuses_the_first_connection() {
    let mut pool = Pool::default();
    assert!(pool.get(&key("a")).is_none());
    let (pipe, mut recvr) = pipe();
    let mut conn = pool.link(key("a"), pipe);
    assert!(leads_to(&mut conn, &mut recvr));
    conn.recycle(Some(&mut pool));
    let mut conn = pool.get(&key("a")).unwrap();
    assert!(leads_to(&mut conn, &mut recvr));
    assert!(pool.get(&key("a")).is_none());
}

#[test]
fn connection_goes_into_no_other_pool() {
    let mut pool = Pool::default();
    let mut other = Pool::default();
    let (first, mut recvr) = pipe();
    pool.link(key("a"), first).recycle_at(Some(&mut other), 1);
    assert!(other.get(&key("a")).is_none());
    assert!(pool.get(&key("a")).is_none());
    let (second, mut second_recvr) = pipe();
    pool.link(key("a"), second).recycle_at(Some(&mut pool), 1);
    let mut conn = pool.get(&key("a")).unwrap();
    assert!(leads_to(&mut conn, &mut second_recvr));
    conn.recycle(Some(&mut other));
    assert!(other.get(&key("a")).is_none());
    assert!(recvr.req_rx.try_recv().is_err());
}

#[test]
fn keys_have_their_own_connections() {
    let mut pool = Pool::default();
    let mut a = fill(&mut pool, "a", 0);
    let mut b = fill(&mut pool, "b", 0);
    assert!(pool.get(&key("c")).is_none());
    assert!(leads_to(&mut pool.get(&key("b")).unwrap(), &mut b));
    assert!(pool.get(&key("b")).is_none());
    assert!(leads_to(&mut pool.get(&key("a")).unwrap(), &mut a));
}

#[test]
fn connections_are_reused_in_order() {
    let mut pool = Pool::default();
    let mut recvrs: Vec<Recvr> = (0..3).map(|i| fill(&mut pool, "a", i)).collect();
    for recvr in recvrs.iter_mut() {
        assert!(leads_to(&mut pool.get(&key("a")).unwrap(), recvr));
    }
    assert!(pool.get(&key("a")).is_none());
}

#[test]
fn full_pool_drops_the_oldest() {
    let mut pool = Pool::new(None, Some(2));
    let mut recvrs: Vec<Recvr> = (0..5).map(|i| fill(&mut pool, "a", i)).collect();
    for recvr in recvrs.iter_mut().skip(2) {
        assert!(leads_to(&mut pool.get(&key("a")).unwrap(), recvr));
    }
    assert!(pool.get(&key("a")).is_none());
}

#[test]
fn default_limit_is_one_less_than_what_stays() {
    let mut pool = Pool::default();
    let recvrs: Vec<Recvr> = (0..300).map(|i| fill(&mut pool, "a", i)).collect();
    let mut kept = 0;
    while pool.get(&key("a")).is_some() {
        kept += 1;
    }
    assert_eq!(kept, 257);
    assert_eq!(recvrs.len(), 300);
}

#[test]
fn large_limits_are_cut() {
    let mut pool = Pool::new(None, Some(1_000_000));
    let recvrs: Vec<Recvr> = (0..16_400).map(|i| fill(&mut pool, "a", i)).collect();
    let mut kept = 0;
    while pool.get(&key("a")).is_some() {
        kept += 1;
    }
    assert_eq!(kept, 16_385);
    assert_eq!(recvrs.len(), 16_400);
}

#[test]
fn pool_without_room_keeps_one() {
    let mut pool = Pool::new(None, Some(0));
    let _first = fill(&mut pool, "a", 0);
    let mut second = fill(&mut pool, "a", 1);
    assert!(leads_to(&mut pool.get(&key("a")).unwrap(), &mut second));
    assert!(pool.get(&key("a")).is_none());
}

#[test]
fn sweep_keeps_what_is_young() {
    let mut pool = Pool::default();
    let _old = fill(&mut pool, "a", 10);
    let mut edge = fill(&mut pool, "a", 40);
    let mut late = fill(&mut pool, "a", 200);
    let _other = fill(&mut pool, "b", 39);
    pool.clear_expired_at(100, 60);
    assert!(leads_to(&mut pool.get(&key("a")).unwrap(), &mut edge));
    assert!(leads_to(&mut pool.get(&key("a")).unwrap(), &mut late));
    assert!(pool.get(&key("a")).is_none());
    assert!(pool.get(&key("b")).is_none());
}

#[test]
fn sweep_by_the_clock_drops_only_what_is_too_old() {
    let mut pool = Pool::default();
    let mut recvr = fill(&mut pool, "a", 0);
    pool.clear_expired(u128::MAX);
    assert!(leads_to(&mut pool.get(&key("a")).unwrap(), &mut recvr));
    let start = pool.now();
    let _recvr = fill(&mut pool, "a", start);
    while pool.now() <= start + 1 {}
    pool.clear_expired(0);
    assert!(pool.get(&key("a")).is_none());
}

#[test]
fn earlier_sweep_makes_no_difference() {
    let mut once = Pool::default();
    let mut twice = Pool::default();
    let mut recvrs: Vec<(Recvr, Recvr)> =
        (0..4).map(|i| (fill(&mut once, "a", i * 10), fill(&mut twice, "a", i * 10))).collect();
    once.clear_expired_at(40, 20);
    twice.clear_expired_at(25, 20);
    twice.clear_expired_at(40, 20);
    for (first, second) in recvrs.iter_mut().skip(2) {
        assert!(leads_to(&mut once.get(&key("a")).unwrap(), first));
        assert!(leads_to(&mut twice.get(&key("a")).unwrap(), second));
    }
    assert!(once.get(&key("a")).is_none());
    assert!(twice.get(&key("a")).is_none());
}

#[test]
fn stricter_sweep_wins() {
    for (first, second) in [(20, 5), (5, 20)] {
        let mut pool = Pool::default();
        let mut recvrs: Vec<Recvr> = (0..4).map(|i| fill(&mut pool, "a", i * 10)).collect();
        pool.clear_expired_at(30, first);
        pool.clear_expired_at(30, second);
        assert!(leads_to(&mut pool.get(&key("a")).unwrap(), &mut recvrs[3]));
        assert!(pool.get(&key("a")).is_none());
    }
}

#[test]
fn queue_is_swept_in_place() {
    let mut recvrs: Vec<Recvr> = vec![];
    let mut queue = std::collections::VecDeque::new();
    for idle_at in [1, 5, 2, 9] {
        let (pipe, recvr) = pipe();
        recvrs.push(recvr);
        queue.push_back(IdleConnection { pipe, idle_at });
    }
    assert!(sweep_queue(&mut queue, 10, 5));
    assert_eq!(queue.iter().map(|idle| idle.idle_at).collect::<Vec<u128>>(), vec![5, 9]);
    assert!(!sweep_queue(&mut queue, 100, 5));
    assert!(queue.is_empty());
}

#[test]
fn connection_that_takes_no_request_is_not_pooled() {
    let mut pool = Pool::default();
    let (pipe, recvr) = pipe();
    let mut conn = pool.link(key("a"), pipe);
    drop(recvr);
    assert!(matches!(conn.send_request(request()), Err(Error::ConnManagerReqSendError)));
    conn.recycle(Some(&mut pool));
    assert!(pool.get(&key("a")).is_none());
}

#[test]
fn failed_request_spends_its_connection() {
    let mut pool = Pool::default();
    let (pipe, _recvr) = pipe();
    let done = pool.link(key("a"), pipe).complete(Err(Error::H1Decode("odd")));
    assert!(matches!(done.result, Err(Error::H1Decode("odd"))));
    assert!(done.drop_rx.is_none());
    done.conn.recycle(Some(&mut pool));
    assert!(pool.get(&key("a")).is_none());
}

#[test]
fn closing_response_spends_its_connection() {
    let mut pool = Pool::default();
    let (pipe, _recvr) = pipe();
    let done = pool.link(key("a"), pipe).complete(Ok(response(Some("Close"), HttpBody::default())));
    assert!(done.result.is_ok());
    done.conn.recycle_at(Some(&mut pool), 5);
    assert!(pool.get(&key("a")).is_none());
}

#[test]
fn open_connection_is_pooled_after_its_response() {
    let mut pool = Pool::default();
    let (pipe, mut recvr) = pipe();
    let data = HttpBody::Ready(Some(Bytes::from_static(b"x")));
    let done = pool.link(key("a"), pipe).complete(Ok(response(None, data)));
    assert!(done.drop_rx.is_none());
    assert!(matches!(done.result, Ok(ref resp) if resp.head.status == 200));
    done.conn.recycle_at(Some(&mut pool), 5);
    assert!(leads_to(&mut pool.get(&key("a")).unwrap(), &mut recvr));
}

#[test]
fn payload_gives_up_its_drop_receiver() {
    let mut pool = Pool::default();
    let (pipe, mut recvr) = pipe();
    let done = pool.link(key("a"), pipe).complete(Ok(response(None, HttpBody::H1(payload()))));
    match done.result {
        Ok(Response { body: HttpBody::H1(p), .. }) => {
            assert!(p.drop_rx.is_none());
            assert!(p.drop_tx.is_some());
        }
        _ => panic!(),
    }
    done.conn.recycle_after(done.drop_rx.unwrap(), Some(&mut pool));
    assert!(leads_to(&mut pool.get(&key("a")).unwrap(), &mut recvr));
}

#[test]
fn without_its_pool_a_connection_is_dropped() {
    let pool = Pool::default();
    let (pipe, mut recvr) = pipe();
    let mut conn = pool.link(key("a"), pipe);
    assert!(leads_to(&mut conn, &mut recvr));
    conn.recycle(None);
    assert!(recvr.req_rx.try_recv().is_err());
}

#[test]
fn idle_task_wakes_once_per_interval() {
    assert_eq!(Pool::default().idle_task().idle_dur, 60_000_000_000);
    let mut pool = Pool::new(Some(50), None);
    let mut task = pool.idle_task();
    assert_eq!(task.idle_dur, 50);
    let _old = fill(&mut pool, "a", 49);
    let mut young = fill(&mut pool, "a", 50);
    assert_eq!(task.step(IdleEvent::Polled), IdleAction::PollClosed);
    assert_eq!(task.step(IdleEvent::Closed(false)), IdleAction::PollTick);
    assert_eq!(task.step(IdleEvent::Tick(false)), IdleAction::Pending);
    assert_eq!(task.step(IdleEvent::Polled), IdleAction::PollClosed);
    assert_eq!(task.step(IdleEvent::Closed(false)), IdleAction::PollTick);
    assert_eq!(task.step(IdleEvent::Tick(true)), IdleAction::Sweep);
    assert_eq!(task.sweep_at(Some(&mut pool), 100), IdleAction::PollClosed);
    assert!(leads_to(&mut pool.get(&key("a")).unwrap(), &mut young));
    assert!(pool.get(&key("a")).is_none());
    assert_eq!(task.stage, IdleStage::Closed);
}

#[test]
fn idle_task_stops_with_its_pool() {
    let mut closed = IdleTask::new(1);
    let _ = closed.step(IdleEvent::Polled);
    assert_eq!(closed.step(IdleEvent::Closed(true)), IdleAction::Exit);
    assert_eq!(closed.stage, IdleStage::Finished);

    let mut gone = IdleTask::new(1);
    let _ = gone.step(IdleEvent::Polled);
    let _ = gone.step(IdleEvent::Closed(false));
    let _ = gone.step(IdleEvent::Tick(true));
    assert_eq!(gone.sweep::<String, TestBody, &str>(None), IdleAction::Exit);
    assert_eq!(gone.stage, IdleStage::Finished);
}
