//! Opening connections: over TCP or TLS, with HTTP/1 or HTTP/2 on top, and through a pool.
use std::future::Future;
use std::hash::Hash;
use std::marker::PhantomData;

use monoio_rustls::TlsConnector as RustlsConnector;
use vstd::prelude::*;

use super::manager::{Http1ConnManager, Http1Stage, Http2ConnManager, Http2Stage};
use super::pool::{ConnectionPool, PooledConnection};
use super::transaction::{
    request_channel, MultiSender, PooledConnectionPipe, SingleRecvr, SingleSender,
};
use super::{ClientGlobalConfig, ConnectionConfig, Proto};
use crate::trusted::{bundled_anchor_at, store_add, tls_config, tls_connector};

verus! {

/// Pooled connections over TCP.
pub type DefaultTcpConnector<K, IO, B, E> = PooledConnector<TcpConnector, K, IO, B, E>;

/// Pooled connections over TLS.
pub type DefaultTlsConnector<K, IO, B, E> = PooledConnector<TlsConnector, K, IO, B, E>;

/// What opens connections.
pub trait Connector<K> {
    type Connection;

    type Error;

    type ConnectionFuture<'a>: Future<Output = Result<Self::Connection, Self::Error>> where
        Self: 'a,
        K: 'a,
    ;

    fn connect(&self, key: K) -> Self::ConnectionFuture<'_>;
}

/// Opens TCP connections.
#[derive(Default, Clone, Copy, Debug)]
pub struct TcpConnector;

/// Opens TLS connections.
pub struct TlsConnector {
    pub tcp_connector: TcpConnector,
    pub tls_connector: RustlsConnector,
}

impl Clone for TlsConnector {
    /// A connector that trusts the same anchors.
    fn clone(&self) -> (connector: Self)
        ensures
            crate::trusted::connector_anchors(connector.tls_connector)
                == crate::trusted::connector_anchors(self.tls_connector),
    {
        TlsConnector { tcp_connector: self.tcp_connector, tls_connector: self.tls_connector.clone() }
    }
}

/// Whether `anchors` are all the trust anchors that come along, in order.
pub open spec fn is_bundle(anchors: Seq<crate::trusted::AnchorView>) -> bool {
    &&& forall|i: int|
        0 <= i < anchors.len() ==> crate::trusted::bundled_anchor(i) == Some(#[trigger] anchors[i])
    &&& crate::trusted::bundled_anchor(anchors.len() as int) is None
}

/// A store of all the trust anchors that come along.
pub fn bundled_roots() -> (store: rustls::RootCertStore)
    ensures
        is_bundle(crate::trusted::store_anchors(store)),
{
    let mut root_store = rustls::RootCertStore::empty();
    let mut index: usize = 0;
    loop
        invariant
            crate::trusted::store_anchors(root_store).len() == index,
            forall|i: int|
                0 <= i < index ==> crate::trusted::bundled_anchor(i) == Some(
                    #[trigger] crate::trusted::store_anchors(root_store)[i],
                ),
        ensures
            is_bundle(crate::trusted::store_anchors(root_store)),
        decreases usize::MAX - index,
    {
        match bundled_anchor_at(index) {
            Some(anchor) => {
                store_add(&mut root_store, anchor);
                index = index + 1;
            },
            None => {
                break;
            },
        }
    }
    root_store
}

impl Default for TlsConnector {
    /// A connector that trusts all the trust anchors that come along, and nobody else.
    fn default() -> (connector: Self)
        ensures
            is_bundle(crate::trusted::connector_anchors(connector.tls_connector)),
    {
        let root_store = bundled_roots();
        let cfg = tls_config(root_store);
        TlsConnector { tcp_connector: TcpConnector, tls_connector: tls_connector(cfg) }
    }
}

/// Puts HTTP on top of connections.
#[derive(Clone, Copy)]
pub struct HttpConnector {
    pub conn_config: ConnectionConfig,
}

/// The two ends of the request channel of a connection that is being set up for HTTP/1.
#[verifier::reject_recursive_types(B)]
#[verifier::reject_recursive_types(E)]
pub struct Http1Setup<B, E> {
    pub sender: SingleSender<B, E>,
    pub recvr: SingleRecvr<B, E>,
}

/// The two ends of the request channel of a connection that is being set up for HTTP/2.
#[verifier::reject_recursive_types(B)]
#[verifier::reject_recursive_types(E)]
pub struct Http2Setup<B, E> {
    pub sender: SingleSender<B, E>,
    pub recvr: SingleRecvr<B, E>,
}

/// What a connection needs to be set up.
#[verifier::reject_recursive_types(B)]
#[verifier::reject_recursive_types(E)]
pub enum HttpSetup<B, E> {
    /// A codec on the connection.
    Http1(Http1Setup<B, E>),
    /// A handshake over the connection, and a task that runs what comes of it.
    Http2(Http2Setup<B, E>),
}

impl HttpConnector {
    pub fn new(conn_config: ConnectionConfig) -> (connector: Self)
        ensures
            connector.conn_config == conn_config,
    {
        HttpConnector { conn_config }
    }

    /// Begins to set up a connection, for the version of HTTP that is configured.
    pub fn connect<B, E>(&self) -> (setup: HttpSetup<B, E>)
        ensures
            match self.conn_config.proto {
                Proto::Http1 => setup matches HttpSetup::Http1(s) && super::transaction::is_channel(
                    s.sender.req_tx,
                    s.recvr.req_rx,
                ),
                Proto::Http2 => setup matches HttpSetup::Http2(s) && super::transaction::is_channel(
                    s.sender.req_tx,
                    s.recvr.req_rx,
                ),
            },
    {
        let (sender, recvr) = request_channel::<B, E>();
        match self.conn_config.proto {
            Proto::Http1 => HttpSetup::Http1(Http1Setup { sender, recvr }),
            Proto::Http2 => HttpSetup::Http2(Http2Setup { sender, recvr }),
        }
    }
}

impl<B, E> Http1Setup<B, E> {
    /// The manager of the connection, which is to be driven by a task of its own, and the way to
    /// it.
    pub fn finish<H>(self, handle: H) -> (made: (
        Http1ConnManager<H, B, E>,
        PooledConnectionPipe<B, E>,
    ))
        ensures
            made.0 == (Http1ConnManager {
                req_rx: self.recvr,
                handle: Some(handle),
                stage: Http1Stage::<B, E>::Waiting,
            }),
            made.1 == PooledConnectionPipe::Http1(self.sender),
    {
        (
            Http1ConnManager::new(self.recvr, handle),
            PooledConnectionPipe::Http1(self.sender),
        )
    }
}

impl<B, E> Http2Setup<B, E> {
    /// The manager of the connection, which is to be driven by a task of its own, and the way to
    /// it.
    pub fn finish<H>(self, handle: H) -> (made: (
        Http2ConnManager<H, B, E>,
        PooledConnectionPipe<B, E>,
    ))
        ensures
            made.0 == (Http2ConnManager {
                req_rx: self.recvr,
                handle,
                stage: Http2Stage::<B, E>::Waiting,
            }),
            made.1 == PooledConnectionPipe::Http2(MultiSender { req_tx: self.sender.req_tx }),
    {
        (
            Http2ConnManager::new(self.recvr, handle),
            PooledConnectionPipe::Http2(self.sender.into_multi_sender()),
        )
    }
}

/// Opens connections through a pool: it hands out an idle connection where there is one, and a
/// new one where there is none.
#[verifier::reject_recursive_types(K)]
#[verifier::reject_recursive_types(B)]
#[verifier::reject_recursive_types(E)]
pub struct PooledConnector<TC, K, IO, B, E> {
    pub global_config: ClientGlobalConfig,
    pub transport_connector: TC,
    pub http_connector: HttpConnector,
    pub pool: ConnectionPool<K, B, E>,
    pub _phantom: PhantomData<IO>,
}

impl<TC: Default, K, IO, B, E> PooledConnector<TC, K, IO, B, E> {
    /// A connector with an empty pool of the usual size.
    pub fn new(global_config: ClientGlobalConfig, c_config: ConnectionConfig) -> (connector: Self)
        ensures
            connector.global_config == global_config,
            call_ensures(TC::default, (), connector.transport_connector),
            connector.http_connector.conn_config == c_config,
            super::pool::is_new_pool(connector.pool@, None, None),
    {
        PooledConnector {
            global_config,
            transport_connector: Default::default(),
            http_connector: HttpConnector::new(c_config),
            pool: Default::default(),
            _phantom: PhantomData,
        }
    }
}

impl<TC, K: Hash + Eq + Clone, IO, B, E> PooledConnector<TC, K, IO, B, E> {
    /// The idle connection to use for `key`. Where there is none, one is to be opened, and what
    /// comes of that handed to [`PooledConnector::connected`].
    pub fn connect(&mut self, key: &K) -> (conn: Option<PooledConnection<K, B, E>>)
        ensures
            final(self).global_config == old(self).global_config,
            final(self).transport_connector == old(self).transport_connector,
            final(self).http_connector == old(self).http_connector,
            final(self).pool@.same_settings(old(self).pool@),
            vstd::std_specs::hash::obeys_key_model::<K>() ==> {
                &&& final(self).pool@ == old(self).pool@.taken(*key)
                &&& conn is Some <==> old(self).pool@.queue(*key).len() > 0
                &&& conn matches Some(c) ==> c@.pipe == old(self).pool@.queue(*key)[0].pipe
            },
            conn matches Some(c) ==> c@.reuseable && c@.home == old(self).pool@.home && cloned(
                *key,
                c@.key,
            ),
    {
        self.pool.get(key)
    }

    /// Makes a pooled connection of one that was opened for `key`, or passes on why none was.
    pub fn connected<T>(&self, key: K, opened: Result<PooledConnectionPipe<B, E>, T>) -> (conn:
        Result<PooledConnection<K, B, E>, T>)
        ensures
            match opened {
                Ok(pipe) => conn matches Ok(c) && c@ == (super::pool::PooledConnectionView {
                    key,
                    pipe,
                    reuseable: true,
                    home: self.pool@.home,
                }),
                Err(e) => conn == Err::<PooledConnection<K, B, E>, T>(e),
            },
    {
        match opened {
            Ok(pipe) => Ok(self.pool.link(key, pipe)),
            Err(e) => Err(e),
        }
    }
}

} // verus!
