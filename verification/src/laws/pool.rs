//! Laws on the pool of idle connections.
use local_sync::{mpsc, oneshot};
use std::collections::VecDeque;
use std::hash::Hash;
use std::time::Instant;
use vstd::prelude::*;

use crate::client::idle::IdleTask;
use crate::client::pool::{
    sweep_queue, Completed, ConnectionPool, IdleConnection, PoolView, PooledConnection,
    PooledConnectionView,
};
use crate::client::transaction::PooledConnectionPipe;
use crate::common::body::{FramedPayloadRecvr, HttpBody};
use crate::common::{Request, Response, Version};
use crate::error::Error;

verus! {

/// A sweep keeps, in their order, the connections that became idle no longer ago than allowed.
pub(crate) proof fn lemma_live_by_time<B, E>(
    queue: Seq<IdleConnection<B, E>>,
    now: u128,
    dur: u128,
)
    ensures
        crate::client::pool::live(queue, now, dur) == queue.filter(
            |idle: IdleConnection<B, E>| now <= idle.idle_at + dur,
        ),
{
    let live = |idle: IdleConnection<B, E>| crate::client::pool::is_live(idle, now, dur);
    let young = |idle: IdleConnection<B, E>| now <= idle.idle_at + dur;
    assert(live =~= young);
}

/// What a sweep leaves for each key.
pub(crate) proof fn lemma_swept_queues<K, B, E>(pool: PoolView<K, B, E>, now: u128, dur: u128)
    ensures
        forall|k: K| #[trigger]
            pool.swept(now, dur).queue(k) == pool.queue(k).filter(
                |idle: IdleConnection<B, E>| now <= idle.idle_at + dur,
            ),
{
    assert forall|k: K| #[trigger]
        pool.swept(now, dur).queue(k) == pool.queue(k).filter(
            |idle: IdleConnection<B, E>| now <= idle.idle_at + dur,
        ) by {
        lemma_live_by_time(pool.queue(k), now, dur);
        let young = |idle: IdleConnection<B, E>| now <= idle.idle_at + dur;
        if !pool.idle.contains_key(k) {
            reveal(Seq::filter);
            assert(pool.queue(k).filter(young) =~= Seq::empty());
        } else {
            assert(pool.queue(k) == pool.idle[k]);
            if pool.queue(k).filter(young).len() == 0 {
                assert(pool.queue(k).filter(young) =~= Seq::empty());
            }
        }
    }
}

/// What is idle for a key is what the pool holds under it, and nothing where it holds nothing.
pub proof fn law_queue_is_what_is_idle<K, B, E>(pool: PoolView<K, B, E>, key: K)
    ensures
        pool.idle.contains_key(key) ==> pool.queue(key) == pool.idle[key],
        !pool.idle.contains_key(key) ==> pool.queue(key).len() == 0,
{
}

/// A new pool is empty. It keeps as many connections for a key as it is asked to, but never more
/// than 16384, and 256 where it is not asked; and each for as long as it is asked to, or a minute.
pub proof fn law_new_pool<K, B, E>(idle_interval: Option<u128>, max_idle: Option<usize>)
    ensures
        forall|pool: ConnectionPool<K, B, E>| #[trigger]
            call_ensures(ConnectionPool::<K, B, E>::new, (idle_interval, max_idle), pool) ==> {
                &&& forall|k: K| !(#[trigger] pool@.idle.contains_key(k))
                &&& max_idle is None ==> pool@.max_idle == 256
                &&& max_idle matches Some(n) ==> (n <= 16384 ==> pool@.max_idle == n) && (n > 16384
                    ==> pool@.max_idle == 16384)
                &&& idle_interval is None ==> pool@.idle_dur == 60_000_000_000
                &&& idle_interval matches Some(dur) ==> pool@.idle_dur == dur
                &&& call_ensures(Instant::now, (), pool@.clock)
                &&& exists|rx: mpsc::unbounded::Rx<()>| #[trigger]
                    call_ensures(mpsc::unbounded::channel::<()>, (), (pool@.home, rx))
            },
        forall|pool: ConnectionPool<K, B, E>| #[trigger]
            call_ensures(<ConnectionPool<K, B, E> as Default>::default, (), pool) ==> {
                &&& forall|k: K| !(#[trigger] pool@.idle.contains_key(k))
                &&& pool@.max_idle == 256
                &&& pool@.idle_dur == 60_000_000_000
                &&& call_ensures(Instant::now, (), pool@.clock)
                &&& exists|rx: mpsc::unbounded::Rx<()>| #[trigger]
                    call_ensures(mpsc::unbounded::channel::<()>, (), (pool@.home, rx))
            },
{
    assert forall|pool: PoolView<K, B, E>, i: Option<u128>, m: Option<usize>| #[trigger]
        crate::client::pool::is_new_pool(pool, i, m) implies exists|rx: mpsc::unbounded::Rx<()>|
     #[trigger]
        call_ensures(mpsc::unbounded::channel::<()>, (), (pool.home, rx)) by {
        let rx = choose|rx: mpsc::unbounded::Rx<()>|
            crate::client::transaction::is_channel(pool.home, rx);
        assert(crate::client::transaction::is_channel(pool.home, rx));
    }
}

/// The task of a pool keeps to the time of that pool, and is a new one.
pub proof fn law_task_is_of_the_pool<K, B, E>(pool: ConnectionPool<K, B, E>)
    ensures
        forall|task: IdleTask| #[trigger]
            call_ensures(ConnectionPool::<K, B, E>::idle_task, (&pool,), task) ==> task.idle_dur
                == pool@.idle_dur && task.stage is Polled,
        forall|nanos: u128| #[trigger]
            call_ensures(ConnectionPool::<K, B, E>::now, (&pool,), nanos) ==> pool@.showed(nanos),
{
}

/// The connection that a pool gives for a key is the one that was idle under that key before all
/// others, and it is given to nobody else. Where none is idle under the key, none is given. Whatever
/// is idle under other keys stays.
pub proof fn law_get_gives_the_first<K: Hash + Eq + Clone, B, E>(key: K, other: K)
    requires
        vstd::std_specs::hash::obeys_key_model::<K>(),
    ensures
        forall|pool: &mut ConnectionPool<K, B, E>, conn: Option<PooledConnection<K, B, E>>|
            #[trigger] call_ensures(ConnectionPool::<K, B, E>::get, (pool, &key), conn) ==> {
                let there = pool@.idle.contains_key(key) && pool@.idle[key].len() > 0;
                &&& conn is Some <==> there
                &&& conn matches Some(c) ==> {
                    &&& c@.pipe == pool@.idle[key][0].pipe
                    &&& c@.reuseable
                    &&& c@.home == pool@.home
                    &&& cloned(key, c@.key)
                }
                &&& there ==> final(pool)@.idle.contains_key(key) && final(pool)@.idle[key]
                    == pool@.idle[key].skip(1)
                &&& !there ==> final(pool)@.idle == pool@.idle
                &&& key != other ==> {
                    &&& final(pool)@.idle.contains_key(other) <==> pool@.idle.contains_key(other)
                    &&& pool@.idle.contains_key(other) ==> final(pool)@.idle[other]
                        == pool@.idle[other]
                }
                &&& final(pool)@.max_idle == pool@.max_idle
                &&& final(pool)@.idle_dur == pool@.idle_dur
                &&& final(pool)@.clock == pool@.clock
                &&& final(pool)@.home == pool@.home
            },
{
    assert forall|queue: Seq<IdleConnection<B, E>>| queue.len() > 0 implies #[trigger]
        queue.drop_first() == queue.skip(1) by {
        assert(queue.drop_first() =~= queue.skip(1));
    }
}

/// A connection that a pool is linked with has the key and the pipe that it was linked with, is of
/// that pool, and can be used again.
pub proof fn law_linked_connection<K, B, E>(
    pool: ConnectionPool<K, B, E>,
    key: K,
    pipe: PooledConnectionPipe<B, E>,
)
    ensures
        forall|conn: PooledConnection<K, B, E>| #[trigger]
            call_ensures(ConnectionPool::<K, B, E>::link, (&pool, key, pipe), conn) ==> {
                &&& conn@.key == key
                &&& conn@.pipe == pipe
                &&& conn@.reuseable
                &&& conn@.home == pool@.home
            },
{
}

/// What becomes of a pool when a connection is recycled at a time: one that can be used again and is
/// of this pool goes behind those that are idle under its key, of which the first is dropped where
/// there are more than the limit. Any other changes nothing. Nothing else in the pool changes.
pub open spec fn is_back<K, B, E>(
    conn: PooledConnectionView<K, B, E>,
    before: PoolView<K, B, E>,
    after: PoolView<K, B, E>,
    now: u128,
) -> bool {
    let idle = IdleConnection { pipe: conn.pipe, idle_at: now };
    let there = if before.idle.contains_key(conn.key) {
        before.idle[conn.key]
    } else {
        Seq::empty()
    };
    &&& !conn.reuseable || conn.home != before.home ==> after.idle == before.idle
    &&& conn.reuseable && conn.home == before.home ==> {
        &&& after.idle.contains_key(conn.key)
        &&& there.len() <= before.max_idle ==> after.idle[conn.key] == there.push(idle)
        &&& there.len() > before.max_idle ==> after.idle[conn.key] == there.skip(1).push(idle)
    }
    &&& forall|k: K|
        k != conn.key ==> (#[trigger] after.idle.contains_key(k) <==> before.idle.contains_key(k))
    &&& forall|k: K|
        k != conn.key && #[trigger] before.idle.contains_key(k) ==> after.idle[k]
            == before.idle[k]
    &&& after.max_idle == before.max_idle
    &&& after.idle_dur == before.idle_dur
    &&& after.clock == before.clock
    &&& after.home == before.home
}

/// A connection that is recycled is back.
proof fn lemma_recycled_is_back<K, B, E>(
    conn: PooledConnectionView<K, B, E>,
    pool: PoolView<K, B, E>,
    now: u128,
)
    ensures
        is_back(conn, pool, conn.recycled(pool, now), now),
{
    let queue = pool.queue(conn.key);
    if queue.len() > pool.max_idle {
        assert(queue.drop_first() =~= queue.skip(1));
    }
}

/// Recycling a connection at a time gives it back to its pool, and to no other.
pub proof fn law_recycled_at<K: Hash + Eq, B, E>(conn: PooledConnection<K, B, E>, now: u128)
    requires
        vstd::std_specs::hash::obeys_key_model::<K>(),
    ensures
        forall|pool: &mut ConnectionPool<K, B, E>| #[trigger]
            call_ensures(PooledConnection::<K, B, E>::recycle_at, (conn, Some(pool), now), ())
                ==> is_back(conn@, pool@, final(pool)@, now),
{
    assert forall|pool: &mut ConnectionPool<K, B, E>| #[trigger]
        call_ensures(
            PooledConnection::<K, B, E>::recycle_at,
            (conn, Some(pool), now),
            (),
        ) implies is_back(conn@, pool@, final(pool)@, now) by {
        lemma_recycled_is_back(conn@, pool@, now);
    }
}

/// Recycling a connection gives it back to its pool, and to no other, at the time that the clock of
/// the pool shows.
pub proof fn law_recycled<K: Hash + Eq, B, E>(
    conn: PooledConnection<K, B, E>,
    drop_rx: oneshot::Receiver<()>,
)
    requires
        vstd::std_specs::hash::obeys_key_model::<K>(),
    ensures
        forall|pool: &mut ConnectionPool<K, B, E>| #[trigger]
            call_ensures(PooledConnection::<K, B, E>::recycle, (conn, Some(pool)), ())
                ==> exists|now: u128| #[trigger]
                pool@.showed(now) && is_back(conn@, pool@, final(pool)@, now),
        forall|pool: &mut ConnectionPool<K, B, E>| #[trigger]
            call_ensures(
                PooledConnection::<K, B, E>::recycle_after,
                (conn, drop_rx, Some(pool)),
                (),
            ) ==> exists|now: u128| #[trigger]
                pool@.showed(now) && is_back(conn@, pool@, final(pool)@, now),
{
    assert forall|pool: &mut ConnectionPool<K, B, E>| #[trigger]
        call_ensures(
            PooledConnection::<K, B, E>::recycle,
            (conn, Some(pool)),
            (),
        ) implies exists|now: u128| #[trigger]
        pool@.showed(now) && is_back(conn@, pool@, final(pool)@, now) by {
        let now = choose|now: u128|
            pool@.showed(now) && final(pool)@ == #[trigger] conn@.recycled(pool@, now);
        lemma_recycled_is_back(conn@, pool@, now);
        assert(pool@.showed(now));
    }
    assert forall|pool: &mut ConnectionPool<K, B, E>| #[trigger]
        call_ensures(
            PooledConnection::<K, B, E>::recycle_after,
            (conn, drop_rx, Some(pool)),
            (),
        ) implies exists|now: u128| #[trigger]
        pool@.showed(now) && is_back(conn@, pool@, final(pool)@, now) by {
        let now = choose|now: u128|
            pool@.showed(now) && final(pool)@ == #[trigger] conn@.recycled(pool@, now);
        lemma_recycled_is_back(conn@, pool@, now);
        assert(pool@.showed(now));
    }
}

/// A sweep of a queue keeps, in their order, exactly the connections that became idle at most `dur`
/// before `now`, and says whether any is left.
pub proof fn law_queue_is_swept<B, E>(now: u128, dur: u128)
    ensures
        forall|queue: &mut VecDeque<IdleConnection<B, E>>, left: bool| #[trigger]
            call_ensures(sweep_queue::<B, E>, (queue, now, dur), left) ==> {
                &&& final(queue)@ == queue@.filter(
                    |idle: IdleConnection<B, E>| now <= idle.idle_at + dur,
                )
                &&& left <==> final(queue)@.len() > 0
            },
{
    assert forall|queue: &mut VecDeque<IdleConnection<B, E>>, left: bool| #[trigger]
        call_ensures(sweep_queue::<B, E>, (queue, now, dur), left) implies final(queue)@
        == queue@.filter(|idle: IdleConnection<B, E>| now <= idle.idle_at + dur) by {
        lemma_live_by_time(queue@, now, dur);
    }
}

/// A connection is in a pool after a sweep exactly where it was there before and became idle at most
/// `dur` before `now`. Those that stay keep their order, and a key for which none stays goes.
pub proof fn law_pool_is_swept<K, B, E>(
    now: u128,
    dur: u128,
    key: K,
    idle: IdleConnection<B, E>,
)
    requires
        vstd::std_specs::hash::obeys_key_model::<K>(),
    ensures
        forall|pool: &mut ConnectionPool<K, B, E>| #[trigger]
            call_ensures(ConnectionPool::<K, B, E>::clear_expired_at, (pool, now, dur), ())
                ==> is_swept(pool@, final(pool)@, now, dur, key, idle),
        forall|pool: &mut ConnectionPool<K, B, E>| #[trigger]
            call_ensures(ConnectionPool::<K, B, E>::clear_expired, (pool, dur), ())
                ==> exists|time: u128| #[trigger]
                pool@.showed(time) && is_swept(pool@, final(pool)@, time, dur, key, idle),
{
    assert forall|pool: &mut ConnectionPool<K, B, E>| #[trigger]
        call_ensures(
            ConnectionPool::<K, B, E>::clear_expired_at,
            (pool, now, dur),
            (),
        ) implies is_swept(pool@, final(pool)@, now, dur, key, idle) by {
        lemma_is_swept(pool@, now, dur, key, idle);
    }
    assert forall|pool: &mut ConnectionPool<K, B, E>| #[trigger]
        call_ensures(
            ConnectionPool::<K, B, E>::clear_expired,
            (pool, dur),
            (),
        ) implies exists|time: u128| #[trigger]
        pool@.showed(time) && is_swept(pool@, final(pool)@, time, dur, key, idle) by {
        let time = choose|time: u128|
            pool@.showed(time) && final(pool)@ == #[trigger] pool@.swept(time, dur);
        lemma_is_swept(pool@, time, dur, key, idle);
        assert(pool@.showed(time));
    }
}

/// What a sweep does to a key and to a connection.
pub open spec fn is_swept<K, B, E>(
    before: PoolView<K, B, E>,
    after: PoolView<K, B, E>,
    now: u128,
    dur: u128,
    key: K,
    idle: IdleConnection<B, E>,
) -> bool {
    &&& after.idle.contains_key(key) && after.idle[key].contains(idle)
        <==> before.idle.contains_key(key) && before.idle[key].contains(idle) && now
        <= idle.idle_at + dur
    &&& after.idle.contains_key(key) ==> before.idle.contains_key(key) && after.idle[key].len() > 0
        && after.idle[key] == before.idle[key].filter(
        |i: IdleConnection<B, E>| now <= i.idle_at + dur,
    )
    &&& after.max_idle == before.max_idle
    &&& after.idle_dur == before.idle_dur
    &&& after.clock == before.clock
    &&& after.home == before.home
}

proof fn lemma_is_swept<K, B, E>(
    pool: PoolView<K, B, E>,
    now: u128,
    dur: u128,
    key: K,
    idle: IdleConnection<B, E>,
)
    ensures
        is_swept(pool, pool.swept(now, dur), now, dur, key, idle),
{
    lemma_swept_queues(pool, now, dur);
    crate::client::pool::law_sweep_is_exact(pool, key, idle, now, dur);
    assert(pool.swept(now, dur).queue(key) == pool.queue(key).filter(
        |i: IdleConnection<B, E>| now <= i.idle_at + dur,
    ));
}

/// A request goes over the connection as it is. The connection stays what it is, but it cannot be
/// used again where it takes no request.
pub proof fn law_request_goes_over_the_connection<K, B, E>(
    req: Request<B>,
    tx: mpsc::unbounded::Tx<crate::client::transaction::Transaction<B, E>>,
)
    ensures
        forall|
            conn: &mut PooledConnection<K, B, E>,
            res: Result<oneshot::Receiver<Result<Response<B>, Error<E>>>, Error<E>>,
        |
            (match conn@.pipe {
                PooledConnectionPipe::Http1(sender) => sender.req_tx == tx,
                PooledConnectionPipe::Http2(sender) => sender.req_tx == tx,
            }) && #[trigger] call_ensures(
                PooledConnection::<K, B, E>::send_request,
                (conn, req),
                res,
            ) ==> {
                &&& super::transaction::is_on_its_way(tx, req, res)
                &&& final(conn)@.reuseable <==> conn@.reuseable && res is Ok
                &&& final(conn)@.key == conn@.key
                &&& final(conn)@.pipe == conn@.pipe
                &&& final(conn)@.home == conn@.home
            },
{
    assert forall|
        conn: &mut PooledConnection<K, B, E>,
        res: Result<oneshot::Receiver<Result<Response<B>, Error<E>>>, Error<E>>,
    |
        (match conn@.pipe {
            PooledConnectionPipe::Http1(sender) => sender.req_tx == tx,
            PooledConnectionPipe::Http2(sender) => sender.req_tx == tx,
        }) && #[trigger] call_ensures(
            PooledConnection::<K, B, E>::send_request,
            (conn, req),
            res,
        ) implies super::transaction::is_on_its_way(tx, req, res) by {
        super::transaction::lemma_on_its_way(tx, req, res);
    }
}

/// A request that failed leaves its connection of no further use, and its error is the outcome,
/// whatever it is.
pub proof fn law_failure_is_the_outcome<K, S, E>(
    conn: PooledConnection<K, HttpBody<S, E>, E>,
    e: Error<E>,
)
    ensures
        forall|done: Completed<K, S, E>| #[trigger]
            call_ensures(
                PooledConnection::<K, HttpBody<S, E>, E>::complete,
                (conn, Err::<Response<HttpBody<S, E>>, Error<E>>(e)),
                done,
            ) ==> {
                &&& done.result == Err::<Response<HttpBody<S, E>>, Error<E>>(e)
                &&& done.drop_rx is None
                &&& !done.conn@.reuseable
                &&& done.conn@.key == conn@.key
                &&& done.conn@.pipe == conn@.pipe
                &&& done.conn@.home == conn@.home
            },
{
}

/// A response is the outcome of its request, whatever its head. Its body is as it came, but for the
/// receiver that tells when an HTTP/1 payload is dropped, which is handed out. Whether the
/// connection can be used again is up to the first `Connection` header, or to the version where there
/// is none.
pub proof fn law_response_is_the_outcome<K, S, E>(
    conn: PooledConnection<K, HttpBody<S, E>, E>,
    resp: Response<HttpBody<S, E>>,
)
    ensures
        forall|done: Completed<K, S, E>| #[trigger]
            call_ensures(
                PooledConnection::<K, HttpBody<S, E>, E>::complete,
                (conn, Ok::<Response<HttpBody<S, E>>, Error<E>>(resp)),
                done,
            ) ==> {
                &&& done.result matches Ok(outcome)
                &&& outcome.head == resp.head
                &&& !(resp.body is H1) ==> outcome.body == resp.body && done.drop_rx is None
                &&& resp.body matches HttpBody::H1(p) ==> {
                    &&& outcome.body matches HttpBody::H1(q)
                    &&& q.data_rx == p.data_rx
                    &&& q.drop_tx == p.drop_tx
                    &&& q.hint == p.hint
                    &&& q.drop_rx is None
                    &&& done.drop_rx == p.drop_rx
                }
                &&& done.conn@.key == conn@.key
                &&& done.conn@.pipe == conn@.pipe
                &&& done.conn@.home == conn@.home
                &&& done.conn@.reuseable <==> super::reuse::is_kept(
                    crate::trusted::header_values(resp.head.headers),
                    resp.head.version,
                )
            },
        !(resp.body is H1) ==> call_requires(
            PooledConnection::<K, HttpBody<S, E>, E>::complete,
            (conn, Ok::<Response<HttpBody<S, E>>, Error<E>>(resp)),
        ),
        resp.body matches HttpBody::H1(p) ==> (p.drop_rx is Some ==> call_requires(
            PooledConnection::<K, HttpBody<S, E>, E>::complete,
            (conn, Ok::<Response<HttpBody<S, E>>, Error<E>>(resp)),
        )),
{
    super::reuse::lemma_is_kept(resp.head.headers, resp.head.version);
}

/// A connection that cannot be used again, or that is of another pool, changes nothing of a pool,
/// whatever the keys are like.
pub proof fn law_unfit_connection_changes_nothing<K: Hash + Eq, B, E>(
    conn: PooledConnection<K, B, E>,
    drop_rx: oneshot::Receiver<()>,
    now: u128,
)
    ensures
        forall|pool: &mut ConnectionPool<K, B, E>|
            (!conn@.reuseable || conn@.home != pool@.home) && #[trigger] call_ensures(
                PooledConnection::<K, B, E>::recycle_at,
                (conn, Some(pool), now),
                (),
            ) ==> *final(pool) == *pool,
        forall|pool: &mut ConnectionPool<K, B, E>|
            (!conn@.reuseable || conn@.home != pool@.home) && #[trigger] call_ensures(
                PooledConnection::<K, B, E>::recycle,
                (conn, Some(pool)),
                (),
            ) ==> *final(pool) == *pool,
        forall|pool: &mut ConnectionPool<K, B, E>|
            (!conn@.reuseable || conn@.home != pool@.home) && #[trigger] call_ensures(
                PooledConnection::<K, B, E>::recycle_after,
                (conn, drop_rx, Some(pool)),
                (),
            ) ==> *final(pool) == *pool,
{
}

/// A connection that is recycled with its pool, where nothing was idle for its key, is the one that
/// the pool gives next for that key; after that it gives none.
pub proof fn law_recycled_is_given_next<K: Hash + Eq + Clone, B, E>(
    conn: PooledConnection<K, B, E>,
    now: u128,
)
    requires
        vstd::std_specs::hash::obeys_key_model::<K>(),
        conn@.reuseable,
    ensures
        forall|
            pool: &mut ConnectionPool<K, B, E>,
            then: &mut ConnectionPool<K, B, E>,
            given: Option<PooledConnection<K, B, E>>,
        |
            conn@.home == pool@.home && !pool@.idle.contains_key(conn@.key) && then@ == final(pool)@
                && #[trigger] call_ensures(
                PooledConnection::<K, B, E>::recycle_at,
                (conn, Some(pool), now),
                (),
            ) && #[trigger] call_ensures(
                ConnectionPool::<K, B, E>::get,
                (then, &conn@.key),
                given,
            ) ==> {
                &&& given matches Some(c)
                &&& c@.pipe == conn@.pipe
                &&& final(then)@.idle[conn@.key].len() == 0
            },
{
}

} // verus!
