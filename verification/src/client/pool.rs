//! The pool of idle connections.
use std::collections::{HashMap, VecDeque};
use std::hash::Hash;
use std::time::Instant;

use local_sync::{mpsc, oneshot};
use vstd::prelude::*;

use super::idle::{IdleStage, IdleTask};
use super::reuse::reuseable_after;
use super::transaction::PooledConnectionPipe;
use crate::common::body::{FramedPayloadRecvr, HttpBody};
use crate::common::{Request, Response};
use crate::error::Error;
use crate::trusted::{map_get_mut, map_sweep, nanos_since};

verus! {

/// How many idle connections a pool keeps for a key, where nothing is said.
pub const DEFAULT_KEEPALIVE_CONNS: usize = 256;

/// For how many keys a pool has room at first.
pub const DEFAULT_POOL_SIZE: usize = 32;

/// The most idle connections that a pool keeps for a key, whatever is said: the number of ports
/// that are free for any use.
pub const MAX_KEEPALIVE_CONNS: usize = 16384;

/// How long, in nanoseconds, a connection may be idle, where nothing is said: a minute.
pub const DEFAULT_IDLE_INTERVAL: u128 = 60_000_000_000;

/// A connection that nobody uses.
#[verifier::reject_recursive_types(B)]
#[verifier::reject_recursive_types(E)]
pub struct IdleConnection<B, E> {
    pub pipe: PooledConnectionPipe<B, E>,
    /// When it became idle, in nanoseconds on the clock of its pool.
    pub idle_at: u128,
}

/// Whether a connection has been idle for no longer than `dur`.
pub open spec fn is_live<B, E>(idle: IdleConnection<B, E>, now: u128, dur: u128) -> bool {
    now - idle.idle_at <= dur
}

/// The connections of `queue` that have been idle for no longer than `dur`, in order.
pub open spec fn live<B, E>(
    queue: Seq<IdleConnection<B, E>>,
    now: u128,
    dur: u128,
) -> Seq<IdleConnection<B, E>> {
    queue.filter(|idle: IdleConnection<B, E>| is_live(idle, now, dur))
}

/// Drops the connections that have been idle for too long, and says whether any is left.
pub fn sweep_queue<B, E>(queue: &mut VecDeque<IdleConnection<B, E>>, now: u128, dur: u128) -> (left:
    bool)
    ensures
        final(queue)@ == live(old(queue)@, now, dur),
        left == (final(queue)@.len() > 0),
{
    let ghost all = queue@;
    let ghost pred = |idle: IdleConnection<B, E>| is_live(idle, now, dur);
    let n: usize = queue.len();
    let mut i: usize = 0;
    assert(all.take(0).filter(pred) =~= Seq::empty()) by {
        reveal(Seq::filter);
    }
    assert(queue@ =~= all.skip(0) + all.take(0).filter(pred));
    while i < n
        invariant
            i <= n,
            n == all.len(),
            pred == (|idle: IdleConnection<B, E>| is_live(idle, now, dur)),
            queue@ == all.skip(i as int) + all.take(i as int).filter(pred),
        decreases n - i,
    {
        let ghost kept = all.take(i as int).filter(pred);
        assert(all.take(i + 1).filter(pred) == if pred(all[i as int]) {
            kept.push(all[i as int])
        } else {
            kept
        }) by {
            reveal(Seq::filter);
            assert(all.take(i + 1).drop_last() =~= all.take(i as int));
        }
        match queue.pop_front() {
            Some(idle) => {
                assert(idle == all[i as int]);
                assert(queue@ =~= all.skip(i + 1) + kept);
                if now.saturating_sub(idle.idle_at) <= dur {
                    queue.push_back(idle);
                    assert(queue@ =~= all.skip(i + 1) + kept.push(idle));
                }
            },
            None => {
                assert(false);
            },
        }
        i = i + 1;
    }
    assert(all.take(n as int) =~= all);
    assert(queue@ =~= all.filter(pred));
    queue.len() > 0
}

/// The idle connections of a pool.
#[verifier::ext_equal]
#[verifier::reject_recursive_types(K)]
#[verifier::reject_recursive_types(B)]
#[verifier::reject_recursive_types(E)]
pub ghost struct PoolView<K, B, E> {
    /// For each key the idle connections, the one that has been idle for longest first.
    pub idle: Map<K, Seq<IdleConnection<B, E>>>,
    /// How many idle connections a key may have before one is dropped for the next.
    pub max_idle: nat,
    /// How long, in nanoseconds, a connection may be idle.
    pub idle_dur: u128,
    /// Where the clock of the pool starts.
    pub clock: Instant,
    /// What tells the pool from every other.
    pub home: mpsc::unbounded::Tx<()>,
}

impl<K, B, E> PoolView<K, B, E> {
    /// Whether this is a state of the same pool, with the same limits and the same clock.
    pub open spec fn same_settings(self, other: Self) -> bool {
        &&& self.max_idle == other.max_idle
        &&& self.idle_dur == other.idle_dur
        &&& self.clock == other.clock
        &&& self.home == other.home
    }

    /// Whether the clock of the pool was read, and showed `nanos`.
    pub open spec fn showed(self, nanos: u128) -> bool {
        clock_showed(self.clock, nanos)
    }

    /// The idle connections for `key`.
    pub open spec fn queue(self, key: K) -> Seq<IdleConnection<B, E>> {
        if self.idle.contains_key(key) {
            self.idle[key]
        } else {
            Seq::empty()
        }
    }

    /// The pool without the first connection for `key`.
    pub open spec fn taken(self, key: K) -> Self {
        if self.queue(key).len() > 0 {
            PoolView { idle: self.idle.insert(key, self.queue(key).drop_first()), ..self }
        } else {
            self
        }
    }

    /// The pool with one more connection for `key`. Where there are too many already, the first
    /// of them goes.
    pub open spec fn returned(self, key: K, idle: IdleConnection<B, E>) -> Self {
        let kept = if self.queue(key).len() > self.max_idle {
            self.queue(key).drop_first()
        } else {
            self.queue(key)
        };
        PoolView { idle: self.idle.insert(key, kept.push(idle)), ..self }
    }

    /// The pool without the connections that have been idle for longer than `dur`, and without
    /// the keys that are left with none.
    pub open spec fn swept(self, now: u128, dur: u128) -> Self {
        PoolView {
            idle: Map::new(
                |k: K| self.idle.contains_key(k) && live(self.idle[k], now, dur).len() > 0,
                |k: K| live(self.idle[k], now, dur),
            ),
            ..self
        }
    }
}

/// Whether a clock that starts at `clock` was read, and showed `nanos`.
pub closed spec fn clock_showed(clock: Instant, nanos: u128) -> bool {
    call_ensures(nanos_since, (&clock,), nanos)
}

/// What the users of a pool share.
#[verifier::reject_recursive_types(K)]
#[verifier::reject_recursive_types(B)]
#[verifier::reject_recursive_types(E)]
struct SharedInner<K, B, E> {
    mapping: HashMap<K, VecDeque<IdleConnection<B, E>>>,
    max_idle: usize,
    idle_dur: u128,
    /// Where the clock of the pool starts.
    origin: Instant,
    /// What tells the pool from every other: a handle on a channel of its own.
    home: mpsc::unbounded::Tx<()>,
}

impl<K, B, E> View for SharedInner<K, B, E> {
    type V = PoolView<K, B, E>;

    closed spec fn view(&self) -> PoolView<K, B, E> {
        PoolView {
            idle: self.mapping@.map_values(|q: VecDeque<IdleConnection<B, E>>| q@),
            max_idle: self.max_idle as nat,
            idle_dur: self.idle_dur,
            clock: self.origin,
            home: self.home,
        }
    }
}

/// The most idle connections for a key, by what is asked for.
pub open spec fn keepalive_conns(max_idle: Option<usize>) -> nat {
    match max_idle {
        Some(n) => if n < MAX_KEEPALIVE_CONNS {
            n as nat
        } else {
            MAX_KEEPALIVE_CONNS as nat
        },
        None => DEFAULT_KEEPALIVE_CONNS as nat,
    }
}

/// A pool without connections.
pub open spec fn new_pool<K, B, E>(
    idle_interval: Option<u128>,
    max_idle: Option<usize>,
    clock: Instant,
    home: mpsc::unbounded::Tx<()>,
) -> PoolView<K, B, E> {
    PoolView {
        idle: Map::empty(),
        max_idle: keepalive_conns(max_idle),
        idle_dur: match idle_interval {
            Some(dur) => dur,
            None => DEFAULT_IDLE_INTERVAL,
        },
        clock,
        home,
    }
}

/// Whether a pool is without connections, its clock starts at a time that was read, and it has a
/// channel of its own.
pub open spec fn is_new_pool<K, B, E>(
    pool: PoolView<K, B, E>,
    idle_interval: Option<u128>,
    max_idle: Option<usize>,
) -> bool {
    &&& pool == new_pool::<K, B, E>(idle_interval, max_idle, pool.clock, pool.home)
    &&& call_ensures(Instant::now, (), pool.clock)
    &&& exists|rx: mpsc::unbounded::Rx<()>| super::transaction::is_channel(pool.home, rx)
}

impl<K, B, E> SharedInner<K, B, E> {
    fn new(idle_dur: u128, max_idle: Option<usize>) -> (inner: Self)
        ensures
            inner@.idle == Map::<K, Seq<IdleConnection<B, E>>>::empty(),
            inner@.max_idle == keepalive_conns(max_idle),
            inner@.idle_dur == idle_dur,
            call_ensures(Instant::now, (), inner@.clock),
            exists|rx: mpsc::unbounded::Rx<()>| super::transaction::is_channel(inner@.home, rx),
    {
        let mapping: HashMap<K, VecDeque<IdleConnection<B, E>>> = HashMap::with_capacity(
            DEFAULT_POOL_SIZE,
        );
        let max_idle: usize = match max_idle {
            Some(n) => if n < MAX_KEEPALIVE_CONNS {
                n
            } else {
                MAX_KEEPALIVE_CONNS
            },
            None => DEFAULT_KEEPALIVE_CONNS,
        };
        let (home, rx) = mpsc::unbounded::channel::<()>();
        let inner = SharedInner { mapping, max_idle, idle_dur, origin: Instant::now(), home };
        assert(inner@.idle =~= Map::empty());
        assert(super::transaction::is_channel(inner@.home, rx));
        inner
    }

    /// Drops what has been idle for longer than `dur` at `now`.
    fn clear_expired(&mut self, now: u128, dur: u128)
        ensures
            final(self)@.same_settings(old(self)@),
            vstd::std_specs::hash::obeys_key_model::<K>() ==> final(self)@ == old(self)@.swept(
                now,
                dur,
            ),
    {
        map_sweep(&mut self.mapping, now, dur);
        proof {
            if vstd::std_specs::hash::obeys_key_model::<K>() {
                assert(self@.idle =~= old(self)@.swept(now, dur).idle);
            }
        }
    }
}

impl<K: Hash + Eq, B, E> SharedInner<K, B, E> {
    /// Takes the connection for `key` that has been idle for longest.
    fn take(&mut self, key: &K) -> (pipe: Option<PooledConnectionPipe<B, E>>)
        ensures
            final(self)@.same_settings(old(self)@),
            vstd::std_specs::hash::obeys_key_model::<K>() ==> {
                &&& final(self)@ == old(self)@.taken(*key)
                &&& pipe == (if old(self)@.queue(*key).len() > 0 {
                    Some(old(self)@.queue(*key)[0].pipe)
                } else {
                    None
                })
            },
    {
        let pipe = match map_get_mut(&mut self.mapping, key) {
            Some(queue) => match queue.pop_front() {
                Some(idle) => Some(idle.pipe),
                None => None,
            },
            None => None,
        };
        proof {
            if vstd::std_specs::hash::obeys_key_model::<K>() {
                assert(self@ =~= old(self)@.taken(*key));
            }
        }
        pipe
    }

    /// Keeps a connection for `key` that became idle at `now`.
    fn put(&mut self, key: K, pipe: PooledConnectionPipe<B, E>, now: u128)
        ensures
            final(self)@.same_settings(old(self)@),
            vstd::std_specs::hash::obeys_key_model::<K>() ==> final(self)@ == old(self)@.returned(
                key,
                IdleConnection { pipe, idle_at: now },
            ),
    {
        let idle = IdleConnection { pipe, idle_at: now };
        let max_idle: usize = self.max_idle;
        let queue = self.mapping.entry(key).or_insert(VecDeque::with_capacity(max_idle));
        if queue.len() > max_idle {
            let _ = queue.pop_front();
        }
        queue.push_back(idle);
        proof {
            if vstd::std_specs::hash::obeys_key_model::<K>() {
                assert(self@ =~= old(self)@.returned(key, idle));
            }
        }
    }
}

/// A pool of idle connections, by key.
///
/// What the pool does is stated for keys whose `Hash`, `Eq` and `Clone` agree, as a hash map needs
/// them to.
#[verifier::reject_recursive_types(K)]
#[verifier::reject_recursive_types(B)]
#[verifier::reject_recursive_types(E)]
pub struct ConnectionPool<K, B, E> {
    conns: SharedInner<K, B, E>,
}

impl<K, B, E> View for ConnectionPool<K, B, E> {
    type V = PoolView<K, B, E>;

    closed spec fn view(&self) -> PoolView<K, B, E> {
        self.conns@
    }
}

/// A connection in use.
#[verifier::reject_recursive_types(K)]
#[verifier::reject_recursive_types(B)]
#[verifier::reject_recursive_types(E)]
pub ghost struct PooledConnectionView<K, B, E> {
    pub key: K,
    pub pipe: PooledConnectionPipe<B, E>,
    /// Whether the connection can be used again.
    pub reuseable: bool,
    /// The pool that it is from.
    pub home: mpsc::unbounded::Tx<()>,
}

impl<K, B, E> PooledConnectionView<K, B, E> {
    /// The connection after a request that came out as `result`.
    pub open spec fn completed(self, result: Result<Response<B>, Error<E>>) -> Self {
        PooledConnectionView {
            reuseable: match result {
                Ok(resp) => super::reuse::stays_open(
                    super::reuse::connection_value(resp.head.headers),
                    resp.head.version,
                ),
                Err(_) => false,
            },
            ..self
        }
    }

    /// A pool after the connection is recycled at `now`. It takes nothing but its own connections.
    pub open spec fn recycled(self, pool: PoolView<K, B, E>, now: u128) -> PoolView<K, B, E> {
        if self.reuseable && self.home == pool.home {
            pool.returned(self.key, IdleConnection { pipe: self.pipe, idle_at: now })
        } else {
            pool
        }
    }
}

/// A connection in use. It is its pool's again once it is recycled.
#[verifier::reject_recursive_types(K)]
#[verifier::reject_recursive_types(B)]
#[verifier::reject_recursive_types(E)]
pub struct PooledConnection<K, B, E> {
    key: K,
    pipe: PooledConnectionPipe<B, E>,
    reuseable: bool,
    home: mpsc::unbounded::Tx<()>,
}

impl<K, B, E> View for PooledConnection<K, B, E> {
    type V = PooledConnectionView<K, B, E>;

    closed spec fn view(&self) -> PooledConnectionView<K, B, E> {
        PooledConnectionView {
            key: self.key,
            pipe: self.pipe,
            reuseable: self.reuseable,
            home: self.home,
        }
    }
}

impl<K, B, E> ConnectionPool<K, B, E> {
    /// An empty pool. The caller is to run its [`IdleTask`].
    pub fn new(idle_interval: Option<u128>, max_idle: Option<usize>) -> (pool: Self)
        ensures
            is_new_pool(pool@, idle_interval, max_idle),
    {
        let idle_dur: u128 = match idle_interval {
            Some(dur) => dur,
            None => DEFAULT_IDLE_INTERVAL,
        };
        ConnectionPool { conns: SharedInner::new(idle_dur, max_idle) }
    }

    /// The task that keeps the pool free of connections that are idle for too long. It wakes once
    /// per the time for which a connection may be idle.
    pub fn idle_task(&self) -> (task: IdleTask)
        ensures
            task == (IdleTask { idle_dur: self@.idle_dur, stage: IdleStage::Polled }),
    {
        IdleTask::new(self.conns.idle_dur)
    }

    /// The time on the clock of the pool.
    pub fn now(&self) -> (nanos: u128)
        ensures
            self@.showed(nanos),
    {
        nanos_since(&self.conns.origin)
    }

    /// Drops the connections that, at `now`, have been idle for longer than `dur`.
    pub fn clear_expired_at(&mut self, now: u128, dur: u128)
        ensures
            final(self)@.same_settings(old(self)@),
            vstd::std_specs::hash::obeys_key_model::<K>() ==> final(self)@ == old(self)@.swept(
                now,
                dur,
            ),
    {
        self.conns.clear_expired(now, dur);
    }

    /// Drops the connections that have been idle for longer than `dur`.
    pub fn clear_expired(&mut self, dur: u128)
        ensures
            final(self)@.same_settings(old(self)@),
            vstd::std_specs::hash::obeys_key_model::<K>() ==> exists|now: u128|
                old(self)@.showed(now) && final(self)@ == #[trigger] old(self)@.swept(now, dur),
    {
        let now: u128 = self.now();
        self.clear_expired_at(now, dur);
    }

    /// A new connection for `key`, which will come into the pool when it is no longer used.
    pub fn link(&self, key: K, pipe: PooledConnectionPipe<B, E>) -> (conn: PooledConnection<
        K,
        B,
        E,
    >)
        ensures
            conn@ == (PooledConnectionView { key, pipe, reuseable: true, home: self@.home }),
    {
        PooledConnection { key, pipe, reuseable: true, home: self.conns.home.clone() }
    }
}

impl<K, B, E> Default for ConnectionPool<K, B, E> {
    fn default() -> (pool: Self)
        ensures
            is_new_pool(pool@, None, None),
    {
        Self::new(None, None)
    }
}

impl<K: Hash + Eq + Clone, B, E> ConnectionPool<K, B, E> {
    /// The connection for `key` that has been idle for longest, if there is any.
    pub fn get(&mut self, key: &K) -> (conn: Option<PooledConnection<K, B, E>>)
        ensures
            final(self)@.same_settings(old(self)@),
            vstd::std_specs::hash::obeys_key_model::<K>() ==> {
                &&& final(self)@ == old(self)@.taken(*key)
                &&& conn is Some <==> old(self)@.queue(*key).len() > 0
                &&& conn matches Some(c) ==> c@.pipe == old(self)@.queue(*key)[0].pipe
            },
            conn matches Some(c) ==> c@.reuseable && c@.home == old(self)@.home && cloned(
                *key,
                c@.key,
            ),
    {
        match self.conns.take(key) {
            Some(pipe) => Some(
                PooledConnection {
                    key: key.clone(),
                    pipe,
                    reuseable: true,
                    home: self.conns.home.clone(),
                },
            ),
            None => None,
        }
    }
}

impl<K, B, E> PooledConnection<K, B, E> {
    /// Sends a request over the connection, and returns where the reply will come. A connection
    /// that takes no request cannot be used again.
    pub fn send_request(&mut self, req: Request<B>) -> (res: Result<
        oneshot::Receiver<Result<Response<B>, Error<E>>>,
        Error<E>,
    >)
        ensures
            final(self)@ == (PooledConnectionView {
                reuseable: old(self)@.reuseable && res is Ok,
                ..old(self)@
            }),
            super::transaction::is_submitted(old(self)@.pipe.req_tx(), req, res),
    {
        match self.pipe.send_request(req) {
            Ok(resp_rx) => Ok(resp_rx),
            Err(e) => {
                self.reuseable = false;
                Err(e)
            },
        }
    }
}

/// What is left when a request is over: its outcome, and the connection, which is to be recycled.
///
/// With `drop_rx` there, the body of the response still comes over the connection, and recycling
/// it is for a task of its own.
#[verifier::reject_recursive_types(K)]
#[verifier::reject_recursive_types(S)]
#[verifier::reject_recursive_types(E)]
pub struct Completed<K, S, E> {
    pub result: Result<Response<HttpBody<S, E>>, Error<E>>,
    pub conn: PooledConnection<K, HttpBody<S, E>, E>,
    pub drop_rx: Option<oneshot::Receiver<()>>,
}

impl<K, S, E> PooledConnection<K, HttpBody<S, E>, E> {
    /// Ends a request: the response says whether the connection can be used again; after an error
    /// it cannot. A response with an HTTP/1 payload gives up the receiver that tells when the
    /// payload is dropped.
    pub fn complete(self, result: Result<Response<HttpBody<S, E>>, Error<E>>) -> (done: Completed<
        K,
        S,
        E,
    >)
        requires
            result matches Ok(resp) ==> (resp.body matches HttpBody::H1(p) ==> p.drop_rx is Some),
        ensures
            done.conn@ == self@.completed(result),
            match result {
                Ok(resp) => match resp.body {
                    HttpBody::H1(p) => {
                        &&& done.drop_rx == p.drop_rx
                        &&& done.result == Ok::<_, Error<E>>(
                            Response {
                                head: resp.head,
                                body: HttpBody::<S, E>::H1(
                                    FramedPayloadRecvr { drop_rx: None, ..p },
                                ),
                            },
                        )
                    },
                    _ => done.drop_rx is None && done.result == result,
                },
                Err(e) => done.drop_rx is None && done.result == result,
            },
    {
        let mut conn = self;
        match result {
            Ok(resp) => {
                conn.reuseable = reuseable_after(&resp.head.headers, resp.head.version);
                let mut resp = resp;
                let drop_rx = match &mut resp.body {
                    HttpBody::H1(payload) => payload.drop_rx.take(),
                    _ => None,
                };
                Completed { result: Ok(resp), conn, drop_rx }
            },
            Err(e) => {
                conn.reuseable = false;
                Completed { result: Err(e), conn, drop_rx: None }
            },
        }
    }
}

impl<K: Hash + Eq, B, E> PooledConnection<K, B, E> {
    /// Ends the use of the connection at `now`: where it can be used again and its pool still is
    /// there, it goes into the pool, else it is dropped. It never goes into another pool.
    pub fn recycle_at(self, pool: Option<&mut ConnectionPool<K, B, E>>, now: u128)
        ensures
            pool matches Some(p) ==> {
                &&& final(p)@.same_settings(p@)
                &&& vstd::std_specs::hash::obeys_key_model::<K>() ==> final(p)@ == self@.recycled(
                    p@,
                    now,
                )
                &&& !self@.reuseable || self@.home != p@.home ==> *final(p) == *p
            },
    {
        if !self.reuseable {
            return ;
        }
        if let Some(pool) = pool {
            if self.home.same_channel(&pool.conns.home) {
                pool.conns.put(self.key, self.pipe, now);
            }
        }
    }

    /// Ends the use of the connection: where it can be used again and its pool still is there, it
    /// goes into the pool, else it is dropped. It never goes into another pool.
    pub fn recycle(self, pool: Option<&mut ConnectionPool<K, B, E>>)
        ensures
            pool matches Some(p) ==> {
                &&& final(p)@.same_settings(p@)
                &&& vstd::std_specs::hash::obeys_key_model::<K>() ==> exists|now: u128|
                    p@.showed(now) && final(p)@ == #[trigger] self@.recycled(p@, now)
                &&& !self@.reuseable || self@.home != p@.home ==> *final(p) == *p
            },
    {
        match pool {
            Some(pool) => {
                let now: u128 = pool.now();
                self.recycle_at(Some(pool), now);
            },
            None => {},
        }
    }

    /// Ends the use of a connection over which the body of a response came: whatever has become of
    /// the body, the connection is recycled.
    pub fn recycle_after(
        self,
        drop_rx: oneshot::Receiver<()>,
        pool: Option<&mut ConnectionPool<K, B, E>>,
    )
        ensures
            pool matches Some(p) ==> {
                &&& final(p)@.same_settings(p@)
                &&& vstd::std_specs::hash::obeys_key_model::<K>() ==> exists|now: u128|
                    p@.showed(now) && final(p)@ == #[trigger] self@.recycled(p@, now)
                &&& !self@.reuseable || self@.home != p@.home ==> *final(p) == *p
            },
    {
        let mut drop_rx = drop_rx;
        let _ = drop_rx.try_recv();
        self.recycle(pool);
    }
}

impl<K, B, E> PoolView<K, B, E> {
    /// Whether no key has more idle connections than a pool ever keeps.
    pub open spec fn is_bounded(self) -> bool {
        &&& self.max_idle <= MAX_KEEPALIVE_CONNS
        &&& forall|k: K| #[trigger]
            self.idle.contains_key(k) ==> self.idle[k].len() <= self.max_idle + 1
    }

    /// Whether, for each key, the connections come in the order in which they became idle.
    pub open spec fn is_ordered(self) -> bool {
        forall|k: K| #[trigger] self.idle.contains_key(k) ==> is_by_age(self.idle[k])
    }
}

/// Whether connections come in the order in which they became idle.
pub open spec fn is_by_age<B, E>(queue: Seq<IdleConnection<B, E>>) -> bool {
    forall|i: int, j: int|
        0 <= i <= j < queue.len() ==> (#[trigger] queue[i]).idle_at <= (#[trigger] queue[j]).idle_at
}

/// A new pool is bounded, whatever limit is asked for.
pub proof fn law_new_pool_is_bounded<K, B, E>(
    idle_interval: Option<u128>,
    max_idle: Option<usize>,
    clock: Instant,
    home: mpsc::unbounded::Tx<()>,
)
    ensures
        new_pool::<K, B, E>(idle_interval, max_idle, clock, home).is_bounded(),
{
}

/// A bounded pool stays bounded, whatever is done with it.
pub proof fn law_pool_stays_bounded<K, B, E>(
    pool: PoolView<K, B, E>,
    key: K,
    idle: IdleConnection<B, E>,
    now: u128,
    dur: u128,
)
    requires
        pool.is_bounded(),
    ensures
        pool.taken(key).is_bounded(),
        pool.returned(key, idle).is_bounded(),
        pool.swept(now, dur).is_bounded(),
{
    lemma_swept_is_bounded(pool, now, dur);
}

/// A bounded pool is bounded after a sweep.
proof fn lemma_swept_is_bounded<K, B, E>(pool: PoolView<K, B, E>, now: u128, dur: u128)
    requires
        pool.is_bounded(),
    ensures
        pool.swept(now, dur).is_bounded(),
{
    assert forall|k: K| #[trigger] pool.swept(now, dur).idle.contains_key(k) implies pool.swept(
        now,
        dur,
    ).idle[k].len() <= pool.max_idle + 1 by {
        assert(pool.idle.contains_key(k));
        lemma_live_is_part(pool.idle[k], now, dur);
    }
}

/// As long as the clock does not go back, the connections for each key stay in the order in which
/// they became idle: the one that is taken, or driven out, has been idle for longest.
pub proof fn law_oldest_first<K, B, E>(
    pool: PoolView<K, B, E>,
    key: K,
    idle: IdleConnection<B, E>,
    now: u128,
    dur: u128,
)
    requires
        pool.is_ordered(),
        pool.queue(key).len() > 0 ==> pool.queue(key).last().idle_at <= idle.idle_at,
    ensures
        pool.taken(key).is_ordered(),
        pool.returned(key, idle).is_ordered(),
        pool.swept(now, dur).is_ordered(),
        forall|i: int|
            0 <= i < pool.queue(key).len() ==> pool.queue(key)[0].idle_at <= (
            #[trigger] pool.queue(key)[i]).idle_at,
{
    lemma_swept_is_ordered(pool, now, dur);
}

/// A pool in order is in order after a sweep.
proof fn lemma_swept_is_ordered<K, B, E>(pool: PoolView<K, B, E>, now: u128, dur: u128)
    requires
        pool.is_ordered(),
    ensures
        pool.swept(now, dur).is_ordered(),
{
    let pred = |i: IdleConnection<B, E>| is_live(i, now, dur);
    assert forall|k: K| #[trigger] pool.swept(now, dur).idle.contains_key(k) implies is_by_age(
        pool.swept(now, dur).idle[k],
    ) by {
        assert(pool.idle.contains_key(k));
        lemma_filter_by_age(pool.idle[k], pred);
    }
}

/// Something that is done with a pool.
#[verifier::reject_recursive_types(K)]
#[verifier::reject_recursive_types(B)]
#[verifier::reject_recursive_types(E)]
pub ghost enum PoolStep<K, B, E> {
    /// A connection is asked for.
    Taken(K),
    /// A connection is returned.
    Returned(K, IdleConnection<B, E>),
    /// The pool is swept.
    Swept(u128, u128),
}

impl<K, B, E> PoolView<K, B, E> {
    /// The pool after a step.
    pub open spec fn after(self, step: PoolStep<K, B, E>) -> Self {
        match step {
            PoolStep::Taken(key) => self.taken(key),
            PoolStep::Returned(key, idle) => self.returned(key, idle),
            PoolStep::Swept(now, dur) => self.swept(now, dur),
        }
    }

    /// The pool after steps.
    pub open spec fn after_all(self, steps: Seq<PoolStep<K, B, E>>) -> Self
        decreases steps.len(),
    {
        if steps.len() == 0 {
            self
        } else {
            self.after_all(steps.drop_last()).after(steps.last())
        }
    }

    /// Whether every idle connection became idle at `time` or before.
    pub open spec fn is_until(self, time: u128) -> bool {
        forall|k: K, i: int|
            #![trigger self.idle[k][i]]
            self.idle.contains_key(k) && 0 <= i < self.idle[k].len() ==> self.idle[k][i].idle_at
                <= time
    }
}

/// Whether connections are returned in the order of time.
pub open spec fn is_timely<K, B, E>(steps: Seq<PoolStep<K, B, E>>) -> bool {
    forall|i: int, j: int|
        0 <= i <= j < steps.len() ==> (#[trigger] steps[i] matches PoolStep::Returned(_, first) ==> (
        #[trigger] steps[j] matches PoolStep::Returned(_, second) ==> first.idle_at
            <= second.idle_at))
}

/// Whatever is done with a new pool, it keeps its limits and its clock, and no key ever has more
/// than one connection beyond the limit. As long as the clock does not go back, the connections for
/// each key are in the order in which they became idle.
pub proof fn law_every_pool<K, B, E>(
    idle_interval: Option<u128>,
    max_idle: Option<usize>,
    clock: Instant,
    home: mpsc::unbounded::Tx<()>,
    steps: Seq<PoolStep<K, B, E>>,
)
    ensures
        ({
            let start = new_pool::<K, B, E>(idle_interval, max_idle, clock, home);
            &&& start.after_all(steps).same_settings(start)
            &&& start.after_all(steps).is_bounded()
            &&& is_timely(steps) ==> start.after_all(steps).is_ordered()
        }),
    decreases steps.len(),
{
    let start = new_pool::<K, B, E>(idle_interval, max_idle, clock, home);
    if steps.len() > 0 {
        let before = steps.drop_last();
        law_every_pool(idle_interval, max_idle, clock, home, before);
        let pool = start.after_all(before);
        match steps.last() {
            PoolStep::Taken(key) => {
                assert(pool.taken(key).is_bounded());
            },
            PoolStep::Returned(key, idle) => {
                law_pool_stays_bounded(pool, key, idle, 0, 0);
            },
            PoolStep::Swept(now, dur) => {
                lemma_swept_is_bounded(pool, now, dur);
            },
        }
    }
    if is_timely(steps) {
        lemma_timely_is_ordered(start, steps, u128::MAX);
    }
}

/// Where connections are returned in the order of time, and none after `time`, a pool is in order,
/// and none of its connections became idle after `time`.
proof fn lemma_timely_is_ordered<K, B, E>(
    start: PoolView<K, B, E>,
    steps: Seq<PoolStep<K, B, E>>,
    time: u128,
)
    requires
        start.is_ordered(),
        start.idle == Map::<K, Seq<IdleConnection<B, E>>>::empty(),
        is_timely(steps),
        forall|i: int|
            0 <= i < steps.len() ==> (#[trigger] steps[i] matches PoolStep::Returned(_, idle)
                ==> idle.idle_at <= time),
    ensures
        start.after_all(steps).is_ordered(),
        start.after_all(steps).is_until(time),
    decreases steps.len(),
{
    if steps.len() > 0 {
        let before = steps.drop_last();
        let pool = start.after_all(before);
        assert forall|i: int, j: int| 0 <= i <= j < before.len() implies (
        #[trigger] before[i] matches PoolStep::Returned(_, first) ==> (
        #[trigger] before[j] matches PoolStep::Returned(_, second) ==> first.idle_at
            <= second.idle_at)) by {
            assert(before[i] == steps[i] && before[j] == steps[j]);
        }
        match steps.last() {
            PoolStep::Taken(key) => {
                lemma_timely_is_ordered(start, before, time);
            },
            PoolStep::Returned(key, idle) => {
                let last = steps.len() - 1;
                assert forall|i: int| 0 <= i < before.len() implies (
                #[trigger] before[i] matches PoolStep::Returned(_, other) ==> other.idle_at
                    <= idle.idle_at) by {
                    assert(before[i] == steps[i] && steps[last] == steps.last());
                }
                lemma_timely_is_ordered(start, before, idle.idle_at);
                assert(steps[last] == steps.last());
                if pool.queue(key).len() > 0 {
                    assert(pool.idle[key][pool.idle[key].len() - 1].idle_at <= idle.idle_at);
                }
                law_oldest_first(pool, key, idle, 0, 0);
            },
            PoolStep::Swept(now, dur) => {
                lemma_timely_is_ordered(start, before, time);
                let pred = |i: IdleConnection<B, E>| is_live(i, now, dur);
                let swept = pool.swept(now, dur);
                assert forall|k: K, i: int|
                    #![trigger swept.idle[k][i]]
                    swept.idle.contains_key(k) && 0 <= i
                        < swept.idle[k].len() implies swept.idle[k][i].idle_at <= time by {
                    assert(pool.idle.contains_key(k));
                    assert(swept.idle[k].contains(swept.idle[k][i]));
                    lemma_filter_contains(pool.idle[k], pred, swept.idle[k][i]);
                }
                lemma_swept_is_ordered(pool, now, dur);
            },
        }
    }
}

/// What is done for one key leaves the connections for every other key alone.
pub proof fn law_other_keys_untouched<K, B, E>(
    pool: PoolView<K, B, E>,
    key: K,
    other: K,
    idle: IdleConnection<B, E>,
)
    requires
        key != other,
    ensures
        pool.taken(key).queue(other) == pool.queue(other),
        pool.returned(key, idle).queue(other) == pool.queue(other),
{
}

/// Where there is no connection for a key, none is taken; one that is returned is the next to be
/// taken; and then there is none again.
pub proof fn law_returned_is_reused<K, B, E>(
    pool: PoolView<K, B, E>,
    key: K,
    idle: IdleConnection<B, E>,
)
    requires
        pool.queue(key).len() == 0,
    ensures
        pool.taken(key) == pool,
        pool.returned(key, idle).queue(key) == seq![idle],
        pool.returned(key, idle).taken(key).queue(key) == Seq::<IdleConnection<B, E>>::empty(),
{
    assert(pool.queue(key) =~= Seq::empty());
    assert(pool.returned(key, idle).queue(key) =~= seq![idle]);
    assert(seq![idle].drop_first() =~= Seq::empty());
}

/// A connection whose request failed, or whose peer does not keep it open, never comes into a pool.
pub proof fn law_spent_is_not_pooled<K, B, E>(
    conn: PooledConnectionView<K, B, E>,
    pool: PoolView<K, B, E>,
    result: Result<Response<B>, Error<E>>,
    now: u128,
)
    requires
        match result {
            Ok(resp) => !super::reuse::stays_open(
                super::reuse::connection_value(resp.head.headers),
                resp.head.version,
            ),
            Err(_) => true,
        },
    ensures
        conn.completed(result).recycled(pool, now) == pool,
{
}

/// A connection never comes into a pool that it is not from.
pub proof fn law_only_home<K, B, E>(
    conn: PooledConnectionView<K, B, E>,
    pool: PoolView<K, B, E>,
    result: Result<Response<B>, Error<E>>,
    now: u128,
)
    requires
        conn.home != pool.home,
    ensures
        conn.recycled(pool, now) == pool,
        conn.completed(result).recycled(pool, now) == pool,
{
}

/// A connection whose peer keeps it open comes into the pool that it is from, as the one that became idle last for
/// the key it was opened for.
pub proof fn law_kept_is_pooled<K, B, E>(
    conn: PooledConnectionView<K, B, E>,
    pool: PoolView<K, B, E>,
    resp: Response<B>,
    now: u128,
)
    requires
        conn.home == pool.home,
        super::reuse::stays_open(
            super::reuse::connection_value(resp.head.headers),
            resp.head.version,
        ),
    ensures
        ({
            let after = conn.completed(Ok::<_, Error<E>>(resp)).recycled(pool, now);
            &&& after.queue(conn.key).len() > 0
            &&& after.queue(conn.key).last() == (IdleConnection { pipe: conn.pipe, idle_at: now })
        }),
{
}

/// Connections are reused in the order in which they became idle: where one is there to be taken,
/// it makes no difference whether another is returned before or after.
pub proof fn law_reused_in_order<K, B, E>(
    pool: PoolView<K, B, E>,
    key: K,
    idle: IdleConnection<B, E>,
)
    requires
        0 < pool.queue(key).len() <= pool.max_idle,
    ensures
        pool.returned(key, idle).queue(key)[0] == pool.queue(key)[0],
        pool.returned(key, idle).taken(key) == pool.taken(key).returned(key, idle),
{
    assert(pool.queue(key).push(idle).drop_first() =~= pool.queue(key).drop_first().push(idle));
    assert(pool.returned(key, idle).taken(key) =~= pool.taken(key).returned(key, idle));
}

/// Where a key has more connections than the limit, each that is returned drives out the one that
/// has been idle for longest, and their number stays.
pub proof fn law_full_pool_drops_oldest<K, B, E>(
    pool: PoolView<K, B, E>,
    key: K,
    idle: IdleConnection<B, E>,
)
    requires
        pool.queue(key).len() > pool.max_idle,
    ensures
        pool.returned(key, idle).queue(key) == pool.queue(key).drop_first().push(idle),
        pool.returned(key, idle).queue(key).len() == pool.queue(key).len(),
{
}

/// A connection that is taken is no longer in the pool, so nobody else gets it.
pub proof fn law_taken_is_exclusive<K, B, E>(pool: PoolView<K, B, E>, key: K)
    requires
        pool.queue(key).len() > 0,
        pool.queue(key).no_duplicates(),
    ensures
        !pool.taken(key).queue(key).contains(pool.queue(key)[0]),
        pool.taken(key).queue(key).no_duplicates(),
        pool.taken(key).queue(key).len() == pool.queue(key).len() - 1,
{
    let queue = pool.queue(key);
    assert forall|i: int| 0 <= i < queue.drop_first().len() implies #[trigger] queue.drop_first()[i]
        != queue[0] by {
        assert(queue.drop_first()[i] == queue[i + 1]);
    }
}

/// After a sweep, each connection that is left has been idle for no longer than allowed, and was
/// there before; each that had been is left; and no key is left without a connection.
pub proof fn law_sweep_is_exact<K, B, E>(
    pool: PoolView<K, B, E>,
    key: K,
    idle: IdleConnection<B, E>,
    now: u128,
    dur: u128,
)
    ensures
        pool.swept(now, dur).queue(key).contains(idle) <==> pool.queue(key).contains(idle)
            && is_live(idle, now, dur),
        pool.swept(now, dur).idle.contains_key(key) ==> pool.swept(now, dur).idle[key].len() > 0,
{
    let pred = |i: IdleConnection<B, E>| is_live(i, now, dur);
    let queue = pool.queue(key);
    lemma_filter_contains(queue, pred, idle);
    assert(!Seq::<IdleConnection<B, E>>::empty().contains(idle));
    if pool.idle.contains_key(key) && live(queue, now, dur).len() == 0 {
        assert(live(queue, now, dur) =~= Seq::empty());
    }
}

/// Of two sweeps of a pool, what is left is what both leave.
proof fn lemma_two_sweeps<K, B, E>(
    pool: PoolView<K, B, E>,
    first: (u128, u128),
    second: (u128, u128),
    both: (u128, u128),
)
    requires
        forall|i: IdleConnection<B, E>| #[trigger]
            is_live(i, both.0, both.1) <==> is_live(i, first.0, first.1) && is_live(
                i,
                second.0,
                second.1,
            ),
    ensures
        pool.swept(first.0, first.1).swept(second.0, second.1) == pool.swept(both.0, both.1),
{
    let one = |i: IdleConnection<B, E>| is_live(i, first.0, first.1);
    let two = |i: IdleConnection<B, E>| is_live(i, second.0, second.1);
    let all = |i: IdleConnection<B, E>| is_live(i, both.0, both.1);
    assert forall|k: K| #[trigger] pool.idle.contains_key(k) implies live(
        live(pool.idle[k], first.0, first.1),
        second.0,
        second.1,
    ) == live(pool.idle[k], both.0, both.1) by {
        lemma_filter_twice(pool.idle[k], one, two, all);
    }
    assert forall|k: K| #[trigger] pool.idle.contains_key(k) && live(
        pool.idle[k],
        both.0,
        both.1,
    ).len() > 0 implies live(pool.idle[k], first.0, first.1).len() > 0 by {
        lemma_live_is_part(live(pool.idle[k], first.0, first.1), second.0, second.1);
    }
    assert(pool.swept(first.0, first.1).swept(second.0, second.1).idle =~= pool.swept(
        both.0,
        both.1,
    ).idle);
}

/// A sweep that came before makes no difference to what a later one leaves.
pub proof fn law_later_sweep_wins<K, B, E>(
    pool: PoolView<K, B, E>,
    earlier: u128,
    later: u128,
    dur: u128,
)
    requires
        earlier <= later,
    ensures
        pool.swept(earlier, dur).swept(later, dur) == pool.swept(later, dur),
{
    lemma_two_sweeps(pool, (earlier, dur), (later, dur), (later, dur));
}

/// Of two sweeps at one time, the stricter decides, whichever comes first.
pub proof fn law_stricter_sweep_wins<K, B, E>(
    pool: PoolView<K, B, E>,
    now: u128,
    dur: u128,
    other: u128,
)
    ensures
        pool.swept(now, dur).swept(now, other) == pool.swept(
            now,
            if dur <= other {
                dur
            } else {
                other
            },
        ),
{
    let stricter: u128 = if dur <= other {
        dur
    } else {
        other
    };
    lemma_two_sweeps(pool, (now, dur), (now, other), (now, stricter));
}

/// What is live of a queue is no more than the queue.
proof fn lemma_live_is_part<B, E>(queue: Seq<IdleConnection<B, E>>, now: u128, dur: u128)
    ensures
        live(queue, now, dur).len() <= queue.len(),
{
    queue.lemma_filter_len(|i: IdleConnection<B, E>| is_live(i, now, dur));
}

/// A filtered sequence holds what satisfies the predicate.
proof fn lemma_filter_contains<A>(s: Seq<A>, pred: spec_fn(A) -> bool, a: A)
    ensures
        s.filter(pred).contains(a) <==> s.contains(a) && pred(a),
    decreases s.len(),
{
    reveal(Seq::filter);
    if s.len() > 0 {
        lemma_filter_contains(s.drop_last(), pred, a);
    }
}

/// What is left of connections in order is in order.
proof fn lemma_filter_by_age<B, E>(
    queue: Seq<IdleConnection<B, E>>,
    pred: spec_fn(IdleConnection<B, E>) -> bool,
)
    requires
        is_by_age(queue),
    ensures
        is_by_age(queue.filter(pred)),
    decreases queue.len(),
{
    reveal(Seq::filter);
    if queue.len() > 0 {
        let before = queue.drop_last();
        lemma_filter_by_age(before, pred);
        let kept = before.filter(pred);
        assert forall|i: int| 0 <= i < kept.len() implies (#[trigger] kept[i]).idle_at
            <= queue.last().idle_at by {
            lemma_filter_contains(before, pred, kept[i]);
            assert(kept.contains(kept[i]));
        }
    }
}

/// Filtering by one predicate and then by another keeps what satisfies both.
proof fn lemma_filter_twice<A>(
    s: Seq<A>,
    one: spec_fn(A) -> bool,
    two: spec_fn(A) -> bool,
    both: spec_fn(A) -> bool,
)
    requires
        forall|a: A| #[trigger] both(a) <==> one(a) && two(a),
    ensures
        s.filter(one).filter(two) == s.filter(both),
    decreases s.len(),
{
    reveal(Seq::filter);
    if s.len() > 0 {
        lemma_filter_twice(s.drop_last(), one, two, both);
        let kept = s.drop_last().filter(one);
        assert(both(s.last()) <==> one(s.last()) && two(s.last()));
        if one(s.last()) {
            assert(kept.push(s.last()).drop_last() =~= kept);
        }
    }
}

/// The time that a pool shows is read off its clock, and nothing else is.
pub(crate) proof fn law_clock_is_read<K, B, E>(pool: PoolView<K, B, E>, nanos: u128)
    ensures
        pool.showed(nanos) <==> call_ensures(nanos_since, (&pool.clock,), nanos),
        forall|p: ConnectionPool<K, B, E>| #[trigger]
            call_ensures(ConnectionPool::<K, B, E>::now, (&p,), nanos) ==> call_ensures(
                nanos_since,
                (&p@.clock,),
                nanos,
            ),
{
}

} // verus!
