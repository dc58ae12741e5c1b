//! Laws on opening connections.
use local_sync::mpsc;
use std::hash::Hash;
use vstd::prelude::*;

use crate::client::connector::{
    bundled_roots, Http1Setup, Http2Setup, HttpConnector, HttpSetup, PooledConnector, TlsConnector,
};
use crate::client::manager::{Http1ConnManager, Http2ConnManager};
use crate::client::pool::PooledConnection;
use crate::client::transaction::{PooledConnectionPipe, Transaction};
use crate::client::{ClientGlobalConfig, ConnectionConfig, Proto};

verus! {

/// A TLS connector trusts each of the anchors that come along, in their order, and nothing else; its
/// clones trust the same.
pub proof fn law_all_roots_are_trusted(connector: TlsConnector)
    ensures
        forall|store: rustls::RootCertStore| #[trigger]
            call_ensures(bundled_roots, (), store) ==> holds_all(
                crate::trusted::store_anchors(store),
            ),
        forall|fresh: TlsConnector| #[trigger]
            call_ensures(<TlsConnector as Default>::default, (), fresh) ==> holds_all(
                crate::trusted::connector_anchors(fresh.tls_connector),
            ),
        forall|other: TlsConnector| #[trigger]
            call_ensures(<TlsConnector as Clone>::clone, (&connector,), other)
                ==> crate::trusted::connector_anchors(other.tls_connector)
                == crate::trusted::connector_anchors(connector.tls_connector),
{
}

/// Whether anchors are all that come along.
pub open spec fn holds_all(anchors: Seq<crate::trusted::AnchorView>) -> bool {
    &&& forall|i: int|
        0 <= i < anchors.len() ==> crate::trusted::bundled_anchor(i) == Some(#[trigger] anchors[i])
    &&& crate::trusted::bundled_anchor(anchors.len() as int) is None
}

/// A connection is set up for the version of HTTP that the connector is configured for, with the two
/// ends of one request channel.
pub proof fn law_set_up_as_configured<B, E>(config: ConnectionConfig, connector: HttpConnector)
    ensures
        forall|made: HttpConnector| #[trigger]
            call_ensures(HttpConnector::new, (config,), made) ==> made.conn_config == config,
        forall|setup: HttpSetup<B, E>| #[trigger]
            call_ensures(HttpConnector::connect::<B, E>, (&connector,), setup) ==> {
                &&& setup is Http1 <==> connector.conn_config.proto is Http1
                &&& setup is Http2 <==> connector.conn_config.proto is Http2
                &&& setup matches HttpSetup::Http1(s) ==> call_ensures(
                    mpsc::unbounded::channel::<Transaction<B, E>>,
                    (),
                    (s.sender.req_tx, s.recvr.req_rx),
                )
                &&& setup matches HttpSetup::Http2(s) ==> call_ensures(
                    mpsc::unbounded::channel::<Transaction<B, E>>,
                    (),
                    (s.sender.req_tx, s.recvr.req_rx),
                )
            },
{
}

/// A connection that is set up has a manager that reads one end of the request channel and waits, and
/// a pipe that writes the other.
pub proof fn law_set_up_is_finished<H, B, E>(
    first: Http1Setup<B, E>,
    second: Http2Setup<B, E>,
    handle: H,
)
    ensures
        forall|made: (Http1ConnManager<H, B, E>, PooledConnectionPipe<B, E>)| #[trigger]
            call_ensures(Http1Setup::<B, E>::finish::<H>, (first, handle), made) ==> {
                &&& made.0.req_rx == first.recvr
                &&& made.0.handle == Some(handle)
                &&& made.0.stage is Waiting
                &&& made.1 == PooledConnectionPipe::Http1(first.sender)
            },
        forall|made: (Http2ConnManager<H, B, E>, PooledConnectionPipe<B, E>)| #[trigger]
            call_ensures(Http2Setup::<B, E>::finish::<H>, (second, handle), made) ==> {
                &&& made.0.req_rx == second.recvr
                &&& made.0.handle == handle
                &&& made.0.stage is Waiting
                &&& made.1 matches PooledConnectionPipe::Http2(sender)
                &&& sender.req_tx == second.sender.req_tx
            },
{
}

/// A new connector is configured as it is asked to be, and has an empty pool of the usual size.
pub proof fn law_new_connector<TC: Default, K, IO, B, E>(
    global_config: ClientGlobalConfig,
    c_config: ConnectionConfig,
)
    ensures
        forall|connector: PooledConnector<TC, K, IO, B, E>| #[trigger]
            call_ensures(
                PooledConnector::<TC, K, IO, B, E>::new,
                (global_config, c_config),
                connector,
            ) ==> {
                &&& connector.global_config == global_config
                &&& connector.http_connector.conn_config == c_config
                &&& call_ensures(TC::default, (), connector.transport_connector)
                &&& forall|k: K| !(#[trigger] connector.pool@.idle.contains_key(k))
                &&& connector.pool@.max_idle == 256
                &&& connector.pool@.idle_dur == 60_000_000_000
            },
{
}

/// A connector hands out the connection that was idle for the key before all others, and nothing
/// where none is; only what is idle for that key changes.
pub proof fn law_connector_hands_out_the_first<TC, K: Hash + Eq + Clone, IO, B, E>(
    key: K,
    other: K,
)
    requires
        vstd::std_specs::hash::obeys_key_model::<K>(),
    ensures
        forall|
            connector: &mut PooledConnector<TC, K, IO, B, E>,
            conn: Option<PooledConnection<K, B, E>>,
        | #[trigger]
            call_ensures(
                PooledConnector::<TC, K, IO, B, E>::connect,
                (connector, &key),
                conn,
            ) ==> super::client::is_handed_out(*connector, *final(connector), key, other, conn),
{
    super::client::lemma_drop_first::<B, E>();
}

/// A connection that was opened for a key becomes one of the pool, for that key; why none was opened
/// is passed on.
pub proof fn law_connected<TC, K: Hash + Eq + Clone, IO, B, E, T>(
    connector: PooledConnector<TC, K, IO, B, E>,
    key: K,
    pipe: PooledConnectionPipe<B, E>,
    e: T,
)
    ensures
        forall|conn: Result<PooledConnection<K, B, E>, T>| #[trigger]
            call_ensures(
                PooledConnector::<TC, K, IO, B, E>::connected::<T>,
                (&connector, key, Ok::<PooledConnectionPipe<B, E>, T>(pipe)),
                conn,
            ) ==> {
                &&& conn matches Ok(c)
                &&& c@.key == key
                &&& c@.pipe == pipe
                &&& c@.reuseable
                &&& c@.home == connector.pool@.home
            },
        forall|conn: Result<PooledConnection<K, B, E>, T>| #[trigger]
            call_ensures(
                PooledConnector::<TC, K, IO, B, E>::connected::<T>,
                (&connector, key, Err::<PooledConnectionPipe<B, E>, T>(e)),
                conn,
            ) ==> conn == Err::<PooledConnection<K, B, E>, T>(e),
{
}

} // verus!
