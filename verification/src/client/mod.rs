//! The client, and how it is configured.
use std::hash::Hash;

use http::HeaderMap;
use vstd::prelude::*;

use self::connector::{DefaultTcpConnector, DefaultTlsConnector};
use self::pool::PooledConnection;
use self::request::{ClientRequest, RequestError};
use crate::common::RequestHead;
use crate::trusted::{header_entries, header_map_new, parse_uri_scheme, HeaderEntry};

pub mod connector;
pub mod idle;
pub mod manager;
pub mod pool;
pub mod request;
pub mod reuse;
pub mod stream_task;
pub mod transaction;

verus! {

/// A version of HTTP that a client speaks.
#[derive(Debug, Clone, Copy, PartialEq, Eq, Structural)]
pub enum Proto {
    Http1,
    Http2,
}

impl Default for Proto {
    fn default() -> (proto: Self)
        ensures
            proto == Proto::Http1,
    {
        Proto::Http1
    }
}

/// The configuration of each connection.
#[derive(Debug, Clone, Copy, PartialEq, Eq, Structural)]
pub struct ConnectionConfig {
    pub proto: Proto,
}

impl Default for ConnectionConfig {
    fn default() -> (config: Self)
        ensures
            config == (ConnectionConfig { proto: Proto::Http1 }),
    {
        ConnectionConfig { proto: Default::default() }
    }
}

/// The configuration that all connections share.
#[derive(Debug, Clone, Copy, PartialEq, Eq, Structural)]
pub struct ClientGlobalConfig {
    pub max_idle_connections: usize,
    pub retry_enabled: bool,
}

impl Default for ClientGlobalConfig {
    fn default() -> (config: Self)
        ensures
            config == (ClientGlobalConfig { max_idle_connections: 0, retry_enabled: false }),
    {
        ClientGlobalConfig { max_idle_connections: 0, retry_enabled: false }
    }
}

/// Builds clients.
#[derive(Debug, Clone, Copy, PartialEq, Eq, Structural)]
pub struct Builder {
    pub connection_config: ConnectionConfig,
    pub global_config: ClientGlobalConfig,
}

impl Default for Builder {
    fn default() -> (builder: Self)
        ensures
            builder == default_builder(),
    {
        Builder { connection_config: Default::default(), global_config: Default::default() }
    }
}

/// A builder of which nothing has been asked.
pub open spec fn default_builder() -> Builder {
    Builder {
        connection_config: ConnectionConfig { proto: Proto::Http1 },
        global_config: ClientGlobalConfig { max_idle_connections: 0, retry_enabled: false },
    }
}

impl Builder {
    /// The builder for clients that speak `proto`.
    pub open spec fn with_proto(self, proto: Proto) -> Builder {
        Builder { connection_config: ConnectionConfig { proto }, ..self }
    }

    /// The builder for clients that keep `conns` idle connections.
    pub open spec fn with_max_idle(self, conns: usize) -> Builder {
        Builder {
            global_config: ClientGlobalConfig {
                max_idle_connections: conns,
                ..self.global_config
            },
            ..self
        }
    }

    pub fn new() -> (builder: Self)
        ensures
            builder == default_builder(),
    {
        Self::default()
    }

    pub fn http1_client(&mut self) -> (builder: &mut Self)
        ensures
            *builder == old(self).with_proto(Proto::Http1),
            *final(self) == *final(builder),
    {
        self.connection_config.proto = Proto::Http1;
        self
    }

    pub fn http2_client(&mut self) -> (builder: &mut Self)
        ensures
            *builder == old(self).with_proto(Proto::Http2),
            *final(self) == *final(builder),
    {
        self.connection_config.proto = Proto::Http2;
        self
    }

    pub fn max_idle_connections(&mut self, conns: usize) -> (builder: &mut Self)
        ensures
            *builder == old(self).with_max_idle(conns),
            *final(self) == *final(builder),
    {
        self.global_config.max_idle_connections = conns;
        self
    }

    /// A client for what the builder was asked for.
    pub fn build_http1<K, I, J, B, E>(self) -> (client: Client<
        DefaultTcpConnector<K, I, B, E>,
        DefaultTlsConnector<K, J, B, E>,
    >)
        ensures
            is_new_client(client, self.global_config, self.connection_config),
    {
        Client::new(self.global_config, self.connection_config)
    }

    /// A client that speaks HTTP/2.
    pub fn build_http2<K, I, J, B, E>(self) -> (client: Client<
        DefaultTcpConnector<K, I, B, E>,
        DefaultTlsConnector<K, J, B, E>,
    >)
        ensures
            is_new_client(
                client,
                self.global_config,
                self.with_proto(Proto::Http2).connection_config,
            ),
    {
        let mut builder = self;
        builder.http2_client();
        Client::new(builder.global_config, builder.connection_config)
    }
}

/// What a client adds to each request.
pub struct ClientConfig {
    pub default_headers: HeaderMap,
}

impl Default for ClientConfig {
    fn default() -> (config: Self)
        ensures
            crate::trusted::header_values(config.default_headers) == Map::<
                Seq<char>,
                Seq<Seq<u8>>,
            >::empty(),
    {
        ClientConfig { default_headers: header_map_new() }
    }
}

/// What the handles on a client share.
pub struct ClientInner<C, CS> {
    pub cfg: ClientConfig,
    pub http_connector: C,
    pub https_connector: CS,
}

/// An HTTP client. `C` opens connections for `http`, `CS` for `https`.
pub struct Client<C, CS> {
    pub shared: ClientInner<C, CS>,
}

/// Whether a client is as a new one is with these configurations: without default headers, and
/// with two empty pools.
pub open spec fn is_new_client<K, I, J, B, E>(
    client: Client<DefaultTcpConnector<K, I, B, E>, DefaultTlsConnector<K, J, B, E>>,
    g_config: ClientGlobalConfig,
    c_config: ConnectionConfig,
) -> bool {
    let http = client.shared.http_connector;
    let https = client.shared.https_connector;
    &&& crate::trusted::header_values(client.shared.cfg.default_headers) == Map::<
        Seq<char>,
        Seq<Seq<u8>>,
    >::empty()
    &&& http.global_config == g_config
    &&& http.http_connector.conn_config == c_config
    &&& self::pool::is_new_pool(http.pool@, None, None)
    &&& https.global_config == g_config
    &&& https.http_connector.conn_config == c_config
    &&& self::pool::is_new_pool(https.pool@, None, None)
    &&& self::connector::is_bundle(
        crate::trusted::connector_anchors(https.transport_connector.tls_connector),
    )
}

impl<K, I, J, B, E> Client<DefaultTcpConnector<K, I, B, E>, DefaultTlsConnector<K, J, B, E>> {
    pub fn new(g_config: ClientGlobalConfig, c_config: ConnectionConfig) -> (client: Self)
        ensures
            is_new_client(client, g_config, c_config),
    {
        let shared = ClientInner {
            cfg: ClientConfig::default(),
            http_connector: DefaultTcpConnector::new(g_config, c_config),
            https_connector: DefaultTlsConnector::new(g_config, c_config),
        };
        Client { shared }
    }
}

impl<K, I, J, B, E> Default for Client<
    DefaultTcpConnector<K, I, B, E>,
    DefaultTlsConnector<K, J, B, E>,
> {
    fn default() -> (client: Self)
        ensures
            is_new_client(
                client,
                default_builder().global_config,
                default_builder().connection_config,
            ),
    {
        Builder::default().build_http1()
    }
}

/// Whether `req` is the request with a method that is proper and this URI, from a client whose
/// default headers are `defaults`. Few default headers always have room.
pub open spec fn is_for(
    req: ClientRequest,
    method: Seq<char>,
    uri: Seq<char>,
    defaults: Map<Seq<char>, Seq<Seq<u8>>>,
) -> bool {
    if crate::trusted::uri_scheme(uri) is None {
        req.head == Err::<RequestHead, RequestError>(RequestError::InvalidUri)
    } else {
        match req.head {
            Ok(head) => {
                &&& head.method@ == method
                &&& head.uri@ == uri
                &&& head.version == crate::common::Version::Http11
                &&& crate::trusted::header_values(head.headers) == defaults
                &&& call_ensures(http::Extensions::new, (), head.extensions)
            },
            Err(e) => e == RequestError::TooManyHeaders && !crate::trusted::has_room(defaults),
        }
    }
}

/// Whether `req` is the request with this method and this URI, from a client whose default headers
/// are `defaults`.
pub open spec fn is_request(
    req: ClientRequest,
    method: Seq<char>,
    uri: Seq<char>,
    defaults: Map<Seq<char>, Seq<Seq<u8>>>,
) -> bool {
    if crate::trusted::is_method(method) {
        is_for(req, method, uri, defaults)
    } else {
        req.head == Err::<RequestHead, RequestError>(RequestError::InvalidMethod)
    }
}

/// The names among the first headers are names among all of them.
proof fn lemma_names_grow(entries: Seq<HeaderEntry>, i: int)
    requires
        0 <= i <= entries.len(),
    ensures
        crate::trusted::with_entries(Map::empty(), entries).dom().finite(),
        crate::trusted::with_entries(Map::empty(), entries.take(i)).dom().subset_of(
            crate::trusted::with_entries(Map::empty(), entries).dom(),
        ),
    decreases entries.len(),
{
    if i == entries.len() {
        assert(entries.take(i) =~= entries);
        if i > 0 {
            lemma_names_grow(entries.drop_last(), i - 1);
        }
    } else {
        lemma_names_grow(entries.drop_last(), i);
        assert(entries.drop_last().take(i) =~= entries.take(i));
    }
}

impl<C, CS> Client<C, CS> {
    /// The headers that each request starts with.
    pub open spec fn default_headers(self) -> Map<Seq<char>, Seq<Seq<u8>>> {
        crate::trusted::header_values(self.shared.cfg.default_headers)
    }

    pub fn get(&self, uri: &str) -> (req: ClientRequest)
        ensures
            is_for(req, "GET"@, uri@, self.default_headers()),
    {
        proof {
            reveal_strlit("GET");
        }
        self.request("GET", uri)
    }

    pub fn post(&self, uri: &str) -> (req: ClientRequest)
        ensures
            is_for(req, "POST"@, uri@, self.default_headers()),
    {
        proof {
            reveal_strlit("POST");
        }
        self.request("POST", uri)
    }

    pub fn put(&self, uri: &str) -> (req: ClientRequest)
        ensures
            is_for(req, "PUT"@, uri@, self.default_headers()),
    {
        proof {
            reveal_strlit("PUT");
        }
        self.request("PUT", uri)
    }

    pub fn patch(&self, uri: &str) -> (req: ClientRequest)
        ensures
            is_for(req, "PATCH"@, uri@, self.default_headers()),
    {
        proof {
            reveal_strlit("PATCH");
        }
        self.request("PATCH", uri)
    }

    pub fn delete(&self, uri: &str) -> (req: ClientRequest)
        ensures
            is_for(req, "DELETE"@, uri@, self.default_headers()),
    {
        proof {
            reveal_strlit("DELETE");
        }
        self.request("DELETE", uri)
    }

    pub fn head(&self, uri: &str) -> (req: ClientRequest)
        ensures
            is_for(req, "HEAD"@, uri@, self.default_headers()),
    {
        proof {
            reveal_strlit("HEAD");
        }
        self.request("HEAD", uri)
    }

    /// A request that starts with the default headers.
    pub fn request(&self, method: &str, uri: &str) -> (req: ClientRequest)
        ensures
            is_request(req, method@, uri@, self.default_headers()),
    {
        let mut req = ClientRequest::new().method(method).uri(uri);
        let entries = header_entries(&self.shared.cfg.default_headers);
        let mut i: usize = 0;
        while i < entries.len()
            invariant
                i <= entries@.len(),
                crate::trusted::with_entries(Map::empty(), entries@) == self.default_headers(),
                match req.head {
                    Err(RequestError::TooManyHeaders) => is_request(
                        req,
                        method@,
                        uri@,
                        self.default_headers(),
                    ),
                    _ => is_request(
                        req,
                        method@,
                        uri@,
                        crate::trusted::with_entries(Map::empty(), entries@.take(i as int)),
                    ),
                },
            decreases entries.len() - i,
        {
            req = req.header(&entries[i]);
            proof {
                assert(entries@.take(i + 1).drop_last() == entries@.take(i as int));
                lemma_names_grow(entries@, i as int);
                vstd::set_lib::lemma_len_subset(
                    crate::trusted::with_entries(Map::empty(), entries@.take(i as int)).dom(),
                    self.default_headers().dom(),
                );
            }
            i = i + 1;
        }
        assert(entries@.take(i as int) == entries@);
        req
    }
}

/// Which of its two connectors a client sends a request through.
#[derive(Debug, Clone, Copy, PartialEq, Eq, Structural)]
pub enum Route {
    /// That for `http`.
    Http,
    /// That for `https`.
    Https,
}

/// The route for a scheme, where there is one.
pub open spec fn route_of(scheme: Option<Seq<char>>) -> Option<Route> {
    if scheme == Some("http"@) {
        Some(Route::Http)
    } else if scheme == Some("https"@) {
        Some(Route::Https)
    } else {
        None
    }
}

/// The route for a text, where it is a URI and there is one.
pub open spec fn route_of_uri(uri: Seq<char>) -> Option<Route> {
    match crate::trusted::uri_scheme(uri) {
        Some(scheme) => route_of(scheme),
        None => None,
    }
}

/// Chooses the route for the scheme of a URI.
pub fn route(scheme: Option<String>) -> (route: Option<Route>)
    ensures
        route == route_of(
            match scheme {
                Some(s) => Some(s@),
                None => None,
            },
        ),
{
    match scheme {
        Some(s) => if s == "http".to_owned() {
            Some(Route::Http)
        } else if s == "https".to_owned() {
            Some(Route::Https)
        } else {
            None
        },
        None => None,
    }
}

/// Chooses the route for a request.
pub fn request_route(head: &RequestHead) -> (chosen: Option<Route>)
    ensures
        chosen == route_of_uri(head.uri@),
{
    match parse_uri_scheme(head.uri.as_str()) {
        Some(scheme) => route(scheme),
        None => None,
    }
}

/// How a client comes by the connection that a request is sent over.
#[verifier::reject_recursive_types(K)]
#[verifier::reject_recursive_types(B)]
#[verifier::reject_recursive_types(E)]
pub struct Dispatch<K, B, E> {
    /// The connector that the connection is from.
    pub route: Route,
    /// The connection, if one was idle; where none was, the connector is to open one.
    pub conn: Option<PooledConnection<K, B, E>>,
}

/// Whether a connector hands out the connection for `key` that has been idle for longest, or nothing
/// where none is idle.
pub open spec fn is_dispatched<TC, K: Clone, IO, B, E>(
    before: self::connector::PooledConnector<TC, K, IO, B, E>,
    after: self::connector::PooledConnector<TC, K, IO, B, E>,
    key: K,
    conn: Option<PooledConnection<K, B, E>>,
) -> bool {
    &&& after.global_config == before.global_config
    &&& after.transport_connector == before.transport_connector
    &&& after.http_connector == before.http_connector
    &&& after.pool@.same_settings(before.pool@)
    &&& conn matches Some(c) ==> c@.reuseable && c@.home == before.pool@.home && cloned(
        key,
        c@.key,
    )
    &&& vstd::std_specs::hash::obeys_key_model::<K>() ==> {
        &&& after.pool@ == before.pool@.taken(key)
        &&& conn is Some <==> before.pool@.queue(key).len() > 0
        &&& conn matches Some(c) ==> c@.pipe == before.pool@.queue(key)[0].pipe
    }
}

impl<K: Hash + Eq + Clone, I, J, B, E> Client<
    DefaultTcpConnector<K, I, B, E>,
    DefaultTlsConnector<K, J, B, E>,
> {
    /// Whether this client, as it was before, comes by a connection for `key` over `route` and is
    /// `after` then. Only the connector of the route is touched.
    pub open spec fn dispatches(
        self,
        after: Self,
        key: K,
        route: Route,
        dispatch: Dispatch<K, B, E>,
    ) -> bool {
        &&& after.shared.cfg == self.shared.cfg
        &&& dispatch.route == route
        &&& match route {
            Route::Http => {
                &&& after.shared.https_connector == self.shared.https_connector
                &&& is_dispatched(
                    self.shared.http_connector,
                    after.shared.http_connector,
                    key,
                    dispatch.conn,
                )
            },
            Route::Https => {
                &&& after.shared.http_connector == self.shared.http_connector
                &&& is_dispatched(
                    self.shared.https_connector,
                    after.shared.https_connector,
                    key,
                    dispatch.conn,
                )
            },
        }
    }

    /// Comes by the connection for a request, whose URI stands for `key`: over TCP for `http`, over
    /// TLS for `https`. No other request can be sent.
    pub fn send_request(&mut self, key: &K, head: &RequestHead) -> (dispatch: Dispatch<K, B, E>)
        requires
            route_of_uri(head.uri@) is Some,
        ensures
            route_of_uri(head.uri@) matches Some(route) && old(self).dispatches(
                *final(self),
                *key,
                route,
                dispatch,
            ),
    {
        match request_route(head) {
            Some(Route::Http) => {
                let conn = self.shared.http_connector.connect(key);
                Dispatch { route: Route::Http, conn }
            },
            Some(Route::Https) => {
                let conn = self.shared.https_connector.connect(key);
                Dispatch { route: Route::Https, conn }
            },
            None => unreached(),
        }
    }

    /// Comes by the connection for a request, where there is a route for it. `None` is a failure:
    /// the request cannot be sent, and the client is as it was.
    pub fn try_send_request(&mut self, key: &K, head: &RequestHead) -> (dispatch: Option<
        Dispatch<K, B, E>,
    >)
        ensures
            match route_of_uri(head.uri@) {
                Some(route) => dispatch matches Some(d) && old(self).dispatches(
                    *final(self),
                    *key,
                    route,
                    d,
                ),
                None => dispatch is None && *final(self) == *old(self),
            },
    {
        match request_route(head) {
            Some(_) => Some(self.send_request(key, head)),
            None => None,
        }
    }
}

/// Of what a builder was asked for, the last word on each setting counts, and the settings do not
/// touch each other.
pub proof fn law_last_word_counts(
    builder: Builder,
    proto: Proto,
    other_proto: Proto,
    conns: usize,
    other_conns: usize,
)
    ensures
        builder.with_proto(other_proto).with_proto(proto) == builder.with_proto(proto),
        builder.with_max_idle(other_conns).with_max_idle(conns) == builder.with_max_idle(conns),
        builder.with_proto(proto).with_max_idle(conns) == builder.with_max_idle(conns).with_proto(
            proto,
        ),
{
}

/// Both connectors of a new client speak the version of HTTP that was asked for.
pub proof fn law_connectors_agree<K, I, J, B, E>(
    client: Client<DefaultTcpConnector<K, I, B, E>, DefaultTlsConnector<K, J, B, E>>,
    g_config: ClientGlobalConfig,
    c_config: ConnectionConfig,
)
    requires
        is_new_client(client, g_config, c_config),
    ensures
        client.shared.http_connector.http_connector.conn_config.proto == c_config.proto,
        client.shared.https_connector.http_connector.conn_config.proto == c_config.proto,
{
}

/// A new client adds nothing to a request: whatever has a proper method and URI is put together, and
/// without headers.
pub proof fn law_new_client_adds_nothing<K, I, J, B, E>(
    client: Client<DefaultTcpConnector<K, I, B, E>, DefaultTlsConnector<K, J, B, E>>,
    g_config: ClientGlobalConfig,
    c_config: ConnectionConfig,
    req: ClientRequest,
    method: Seq<char>,
    uri: Seq<char>,
)
    requires
        is_new_client(client, g_config, c_config),
        is_request(req, method, uri, client.default_headers()),
        crate::trusted::is_method(method),
        crate::trusted::uri_scheme(uri) is Some,
    ensures
        req.head matches Ok(head) && crate::trusted::header_values(head.headers) == Map::<
            Seq<char>,
            Seq<Seq<u8>>,
        >::empty(),
{
}

/// Each of `http` and `https` has its own route, and nothing else has any.
pub proof fn law_routes(scheme: Option<Seq<char>>)
    ensures
        route_of(scheme) == Some(Route::Http) <==> scheme == Some("http"@),
        route_of(scheme) == Some(Route::Https) <==> scheme == Some("https"@),
        route_of(scheme) is None <==> scheme != Some("http"@) && scheme != Some("https"@),
{
    reveal_strlit("http");
    reveal_strlit("https");
    assert("http"@.len() != "https"@.len());
}

} // verus!
