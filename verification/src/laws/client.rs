//! Laws on the client.
use std::hash::Hash;
use vstd::prelude::*;

use crate::client::connector::{DefaultTcpConnector, DefaultTlsConnector, PooledConnector};
use crate::client::pool::{IdleConnection, PooledConnection};
use crate::client::request::{ClientRequest, RequestError};
use crate::client::{
    request_route, route, Builder, Client, ClientConfig, ClientGlobalConfig, ConnectionConfig,
    Dispatch, Proto, Route,
};
use crate::common::RequestHead;
use crate::trusted::HeaderEntry;

verus! {

/// What is not asked for: HTTP/1, no idle connections and no retries; and no headers.
pub proof fn law_defaults()
    ensures
        forall|proto: Proto| #[trigger]
            call_ensures(<Proto as Default>::default, (), proto) ==> proto is Http1,
        forall|config: ConnectionConfig| #[trigger]
            call_ensures(<ConnectionConfig as Default>::default, (), config)
                ==> config.proto is Http1,
        forall|config: ClientGlobalConfig| #[trigger]
            call_ensures(<ClientGlobalConfig as Default>::default, (), config)
                ==> config.max_idle_connections == 0 && !config.retry_enabled,
        forall|config: ClientConfig| #[trigger]
            call_ensures(<ClientConfig as Default>::default, (), config) ==> forall|name: Seq<char>|
                !(#[trigger] crate::trusted::header_values(config.default_headers).contains_key(
                    name,
                )),
        forall|builder: Builder| #[trigger]
            call_ensures(<Builder as Default>::default, (), builder) ==> {
                &&& builder.connection_config.proto is Http1
                &&& builder.global_config.max_idle_connections == 0
                &&& !builder.global_config.retry_enabled
            },
        forall|builder: Builder| #[trigger]
            call_ensures(Builder::new, (), builder) ==> {
                &&& builder.connection_config.proto is Http1
                &&& builder.global_config.max_idle_connections == 0
                &&& !builder.global_config.retry_enabled
            },
{
}

/// Each setting of a builder is set to what is asked for, whatever was there before, and the others
/// stay.
pub proof fn law_settings(conns: usize)
    ensures
        forall|builder: &mut Builder, back: &mut Builder| #[trigger]
            call_ensures(Builder::http1_client, (builder,), back) ==> {
                &&& back.connection_config.proto is Http1
                &&& back.global_config == builder.global_config
                &&& *final(builder) == *final(back)
            },
        forall|builder: &mut Builder, back: &mut Builder| #[trigger]
            call_ensures(Builder::http2_client, (builder,), back) ==> {
                &&& back.connection_config.proto is Http2
                &&& back.global_config == builder.global_config
                &&& *final(builder) == *final(back)
            },
        forall|builder: &mut Builder, back: &mut Builder| #[trigger]
            call_ensures(Builder::max_idle_connections, (builder, conns), back) ==> {
                &&& back.global_config.max_idle_connections == conns
                &&& back.global_config.retry_enabled == builder.global_config.retry_enabled
                &&& back.connection_config == builder.connection_config
                &&& *final(builder) == *final(back)
            },
{
}

/// Whether a client speaks a version of HTTP and has a configuration, over both its connectors, with
/// empty pools of the usual size, all anchors and no default headers.
pub open spec fn is_fresh<K, I, J, B, E>(
    client: Client<DefaultTcpConnector<K, I, B, E>, DefaultTlsConnector<K, J, B, E>>,
    proto: Proto,
    g_config: ClientGlobalConfig,
) -> bool {
    let http = client.shared.http_connector;
    let https = client.shared.https_connector;
    &&& http.http_connector.conn_config.proto == proto
    &&& https.http_connector.conn_config.proto == proto
    &&& http.global_config == g_config
    &&& https.global_config == g_config
    &&& forall|k: K| !(#[trigger] http.pool@.idle.contains_key(k))
    &&& forall|k: K| !(#[trigger] https.pool@.idle.contains_key(k))
    &&& http.pool@.max_idle == 256 && http.pool@.idle_dur == 60_000_000_000
    &&& https.pool@.max_idle == 256 && https.pool@.idle_dur == 60_000_000_000
    &&& super::connector::holds_all(
        crate::trusted::connector_anchors(https.transport_connector.tls_connector),
    )
    &&& forall|name: Seq<char>|
        !(#[trigger] crate::trusted::header_values(
            client.shared.cfg.default_headers,
        ).contains_key(name))
}

/// A client that is built speaks what the builder was asked for, or HTTP/2 where that is asked of it
/// last; one that nothing is asked of speaks HTTP/1.
pub proof fn law_built_client<K, I, J, B, E>(
    builder: Builder,
    g_config: ClientGlobalConfig,
    c_config: ConnectionConfig,
)
    ensures
        forall|
            client: Client<DefaultTcpConnector<K, I, B, E>, DefaultTlsConnector<K, J, B, E>>,
        | #[trigger]
            call_ensures(Builder::build_http1::<K, I, J, B, E>, (builder,), client) ==> is_fresh(
                client,
                builder.connection_config.proto,
                builder.global_config,
            ),
        forall|
            client: Client<DefaultTcpConnector<K, I, B, E>, DefaultTlsConnector<K, J, B, E>>,
        | #[trigger]
            call_ensures(Builder::build_http2::<K, I, J, B, E>, (builder,), client) ==> is_fresh(
                client,
                Proto::Http2,
                builder.global_config,
            ),
        forall|
            client: Client<DefaultTcpConnector<K, I, B, E>, DefaultTlsConnector<K, J, B, E>>,
        | #[trigger]
            call_ensures(
                Client::<DefaultTcpConnector<K, I, B, E>, DefaultTlsConnector<K, J, B, E>>::new,
                (g_config, c_config),
                client,
            ) ==> is_fresh(client, c_config.proto, g_config),
        forall|
            client: Client<DefaultTcpConnector<K, I, B, E>, DefaultTlsConnector<K, J, B, E>>,
        | #[trigger]
            call_ensures(
                <Client<
                    DefaultTcpConnector<K, I, B, E>,
                    DefaultTlsConnector<K, J, B, E>,
                > as Default>::default,
                (),
                client,
            ) ==> is_fresh(
                client,
                Proto::Http1,
                ClientGlobalConfig { max_idle_connections: 0, retry_enabled: false },
            ),
{
}

/// A new request is a `GET` for `/` without headers.
pub proof fn law_new_request()
    ensures
        forall|req: ClientRequest| #[trigger]
            call_ensures(ClientRequest::new, (), req) ==> {
                &&& req.head matches Ok(head)
                &&& head.method@ == "GET"@
                &&& head.uri@ == "/"@
                &&& head.version is Http11
                &&& call_ensures(http::Extensions::new, (), head.extensions)
                &&& forall|name: Seq<char>|
                    !(#[trigger] crate::trusted::header_values(head.headers).contains_key(name))
            },
{
}

/// A request takes every text that is a method for its method, and every text that is a URI for its
/// URI, and nothing else of it changes. What is neither is an error, and an error stays.
pub proof fn law_request_parts(head: RequestHead, e: RequestError, text: &str)
    ensures
        forall|req: ClientRequest| #[trigger]
            call_ensures(
                ClientRequest::method,
                (ClientRequest { head: Ok(head) }, text),
                req,
            ) ==> {
                &&& crate::trusted::is_method(text@) ==> {
                    &&& req.head matches Ok(h)
                    &&& h.method@ == text@
                    &&& h.uri == head.uri
                    &&& h.version == head.version
                    &&& h.headers == head.headers
                    &&& h.extensions == head.extensions
                }
                &&& !crate::trusted::is_method(text@) ==> req.head == Err::<
                    RequestHead,
                    RequestError,
                >(RequestError::InvalidMethod)
            },
        forall|req: ClientRequest| #[trigger]
            call_ensures(ClientRequest::uri, (ClientRequest { head: Ok(head) }, text), req) ==> {
                &&& crate::trusted::uri_scheme(text@) is Some ==> {
                    &&& req.head matches Ok(h)
                    &&& h.uri@ == text@
                    &&& h.method == head.method
                    &&& h.version == head.version
                    &&& h.headers == head.headers
                    &&& h.extensions == head.extensions
                }
                &&& crate::trusted::uri_scheme(text@) is None ==> req.head == Err::<
                    RequestHead,
                    RequestError,
                >(RequestError::InvalidUri)
            },
        forall|req: ClientRequest| #[trigger]
            call_ensures(ClientRequest::method, (ClientRequest { head: Err(e) }, text), req)
                ==> req.head == Err::<RequestHead, RequestError>(e),
        forall|req: ClientRequest| #[trigger]
            call_ensures(ClientRequest::uri, (ClientRequest { head: Err(e) }, text), req)
                ==> req.head == Err::<RequestHead, RequestError>(e),
{
}

/// A header is put behind those of its name, and no other changes; nor does anything else of the
/// request. A request of less than 6554 names takes every header. An error stays.
pub proof fn law_request_header(
    head: RequestHead,
    e: RequestError,
    entry: HeaderEntry,
    other: Seq<char>,
)
    ensures
        forall|req: ClientRequest| #[trigger]
            call_ensures(
                ClientRequest::header,
                (ClientRequest { head: Ok(head) }, &entry),
                req,
            ) ==> {
                let before = crate::trusted::header_values(head.headers);
                let name = crate::trusted::header_name(entry.name);
                let value = crate::trusted::header_value(entry.value);
                &&& before.dom().len() < 6554 ==> req.head is Ok
                &&& req.head matches Err(error) ==> error == RequestError::TooManyHeaders
                &&& req.head matches Ok(h) ==> {
                    let after = crate::trusted::header_values(h.headers);
                    &&& after.contains_key(name)
                    &&& before.contains_key(name) ==> after[name] == before[name].push(value)
                    &&& !before.contains_key(name) ==> after[name] == seq![value]
                    &&& other != name ==> (after.contains_key(other) <==> before.contains_key(
                        other,
                    ))
                    &&& other != name && before.contains_key(other) ==> after[other]
                        == before[other]
                    &&& h.method == head.method
                    &&& h.uri == head.uri
                    &&& h.version == head.version
                    &&& h.extensions == head.extensions
                }
            },
        forall|req: ClientRequest| #[trigger]
            call_ensures(ClientRequest::header, (ClientRequest { head: Err(e) }, &entry), req)
                ==> req.head == Err::<RequestHead, RequestError>(e),
{
    let value = crate::trusted::header_value(entry.value);
    assert(Seq::<Seq<u8>>::empty().push(value) =~= seq![value]);
}

/// Whether a request has this method, this URI, HTTP/1.1 and these headers and no others; with few of
/// them it has them for sure, and a text that is no URI is the only other failure.
pub open spec fn is_made(
    req: ClientRequest,
    method: Seq<char>,
    uri: Seq<char>,
    headers: Map<Seq<char>, Seq<Seq<u8>>>,
) -> bool {
    &&& crate::trusted::uri_scheme(uri) is None ==> req.head == Err::<RequestHead, RequestError>(
        RequestError::InvalidUri,
    )
    &&& crate::trusted::uri_scheme(uri) is Some ==> {
        &&& headers.dom().len() < 6554 ==> req.head is Ok
        &&& req.head matches Err(e) ==> e is TooManyHeaders
        &&& req.head matches Ok(head) ==> {
            &&& head.method@ == method
            &&& head.uri@ == uri
            &&& head.version is Http11
            &&& crate::trusted::header_values(head.headers) == headers
            &&& call_ensures(http::Extensions::new, (), head.extensions)
        }
    }
}

/// A request of a client has the method and the URI that were asked for, and all the default headers
/// of the client and no others. A text that is no method is an error, whatever the URI.
pub proof fn law_request_has_the_defaults<C, CS>(client: Client<C, CS>, method: &str, uri: &str)
    ensures
        forall|req: ClientRequest| #[trigger]
            call_ensures(Client::<C, CS>::request, (&client, method, uri), req) ==> {
                &&& !crate::trusted::is_method(method@) ==> req.head == Err::<
                    RequestHead,
                    RequestError,
                >(RequestError::InvalidMethod)
                &&& crate::trusted::is_method(method@) ==> is_made(
                    req,
                    method@,
                    uri@,
                    crate::trusted::header_values(client.shared.cfg.default_headers),
                )
            },
{
}

/// Each verb makes a request with the method of its name, and is never refused for that.
pub proof fn law_verbs<C, CS>(client: Client<C, CS>, uri: &str)
    ensures
        ({
            let headers = crate::trusted::header_values(client.shared.cfg.default_headers);
            &&& forall|req: ClientRequest| #[trigger]
                call_ensures(Client::<C, CS>::get, (&client, uri), req) ==> is_made(
                    req,
                    "GET"@,
                    uri@,
                    headers,
                )
            &&& forall|req: ClientRequest| #[trigger]
                call_ensures(Client::<C, CS>::post, (&client, uri), req) ==> is_made(
                    req,
                    "POST"@,
                    uri@,
                    headers,
                )
            &&& forall|req: ClientRequest| #[trigger]
                call_ensures(Client::<C, CS>::put, (&client, uri), req) ==> is_made(
                    req,
                    "PUT"@,
                    uri@,
                    headers,
                )
            &&& forall|req: ClientRequest| #[trigger]
                call_ensures(Client::<C, CS>::patch, (&client, uri), req) ==> is_made(
                    req,
                    "PATCH"@,
                    uri@,
                    headers,
                )
            &&& forall|req: ClientRequest| #[trigger]
                call_ensures(Client::<C, CS>::delete, (&client, uri), req) ==> is_made(
                    req,
                    "DELETE"@,
                    uri@,
                    headers,
                )
            &&& forall|req: ClientRequest| #[trigger]
                call_ensures(Client::<C, CS>::head, (&client, uri), req) ==> is_made(
                    req,
                    "HEAD"@,
                    uri@,
                    headers,
                )
        }),
{
}

/// A method is a text that is not empty and of which each character may stand in one: any one
/// character more or less of that kind makes no difference.
pub proof fn law_methods(a: Seq<char>, b: Seq<char>, c: char)
    ensures
        !crate::trusted::is_method(Seq::empty()),
        a.len() > 0 && b.len() > 0 ==> (crate::trusted::is_method(a + b)
            <==> crate::trusted::is_method(a) && crate::trusted::is_method(b)),
        crate::trusted::is_method(seq![c]) <==> ('a' <= c <= 'z' || 'A' <= c <= 'Z' || '0' <= c
            <= '9' || "!*+-.^_`|~"@.contains(c)),
{
    if crate::trusted::is_method(a + b) {
        assert forall|i: int| 0 <= i < a.len() implies crate::trusted::is_method_char(
            #[trigger] a[i],
        ) by {
            assert((a + b)[i] == a[i]);
        }
        assert forall|i: int| 0 <= i < b.len() implies crate::trusted::is_method_char(
            #[trigger] b[i],
        ) by {
            assert((a + b)[a.len() + i] == b[i]);
        }
    }
    if crate::trusted::is_method(seq![c]) {
        assert(crate::trusted::is_method_char(seq![c][0]));
    }
    reveal_strlit("!*+-.^_`|~");
    let signs = "!*+-.^_`|~"@;
    assert(signs[0] == '!' && signs[1] == '*' && signs[2] == '+' && signs[3] == '-' && signs[4]
        == '.' && signs[5] == '^' && signs[6] == '_' && signs[7] == '`' && signs[8] == '|'
        && signs[9] == '~');
}

/// The scheme `http` leads over TCP, the scheme `https` over TLS, and no other scheme, nor none,
/// leads anywhere.
pub proof fn law_scheme_decides(scheme: Option<String>, head: RequestHead)
    ensures
        forall|chosen: Option<Route>| #[trigger]
            call_ensures(route, (scheme,), chosen) ==> {
                &&& chosen == Some(Route::Http) <==> (scheme matches Some(s) && s@ == "http"@)
                &&& chosen == Some(Route::Https) <==> (scheme matches Some(s) && s@ == "https"@)
            },
        forall|chosen: Option<Route>| #[trigger]
            call_ensures(request_route, (&head,), chosen) ==> {
                let scheme = crate::trusted::uri_scheme(head.uri@);
                &&& chosen == Some(Route::Http) <==> scheme == Some(Some("http"@))
                &&& chosen == Some(Route::Https) <==> scheme == Some(Some("https"@))
            },
{
    reveal_strlit("http");
    reveal_strlit("https");
    assert("http"@.len() != "https"@.len());
}

/// Whether a connector handed out the connection that was idle for `key` before all others, or
/// nothing where none was, and kept all else, so what is idle for `other`.
pub open spec fn is_handed_out<TC, K: Clone, IO, B, E>(
    before: PooledConnector<TC, K, IO, B, E>,
    after: PooledConnector<TC, K, IO, B, E>,
    key: K,
    other: K,
    conn: Option<PooledConnection<K, B, E>>,
) -> bool {
    let there = before.pool@.idle.contains_key(key) && before.pool@.idle[key].len() > 0;
    &&& conn is Some <==> there
    &&& conn matches Some(c) ==> {
        &&& c@.pipe == before.pool@.idle[key][0].pipe
        &&& c@.reuseable
        &&& c@.home == before.pool@.home
        &&& cloned(key, c@.key)
    }
    &&& there ==> after.pool@.idle.contains_key(key) && after.pool@.idle[key]
        == before.pool@.idle[key].skip(1)
    &&& !there ==> after.pool@.idle == before.pool@.idle
    &&& key != other ==> {
        &&& after.pool@.idle.contains_key(other) <==> before.pool@.idle.contains_key(other)
        &&& before.pool@.idle.contains_key(other) ==> after.pool@.idle[other]
            == before.pool@.idle[other]
    }
    &&& after.pool@.max_idle == before.pool@.max_idle
    &&& after.pool@.idle_dur == before.pool@.idle_dur
    &&& after.pool@.clock == before.pool@.clock
    &&& after.pool@.home == before.pool@.home
    &&& after.global_config == before.global_config
    &&& after.transport_connector == before.transport_connector
    &&& after.http_connector == before.http_connector
}

/// What is left without the first.
pub(crate) proof fn lemma_drop_first<B, E>()
    ensures
        forall|queue: Seq<IdleConnection<B, E>>|
            queue.len() > 0 ==> #[trigger] queue.drop_first() == queue.skip(1),
{
    assert forall|queue: Seq<IdleConnection<B, E>>| queue.len() > 0 implies #[trigger]
        queue.drop_first() == queue.skip(1) by {
        assert(queue.drop_first() =~= queue.skip(1));
    }
}

/// A request whose URI has the scheme `http` goes over the connector for that, one with `https` over
/// the other, and the connector that a request does not go over is not touched. A request with any
/// other scheme, or none, goes nowhere, and touches nothing.
pub proof fn law_request_goes_by_its_scheme<K: Hash + Eq + Clone, I, J, B, E>(
    key: K,
    other: K,
    head: RequestHead,
)
    requires
        vstd::std_specs::hash::obeys_key_model::<K>(),
    ensures
        crate::trusted::uri_scheme(head.uri@) == Some(Some("http"@)) ==> forall|
            client: &mut Client<
                DefaultTcpConnector<K, I, B, E>,
                DefaultTlsConnector<K, J, B, E>,
            >,
            dispatch: Option<Dispatch<K, B, E>>,
        | #[trigger]
            call_ensures(
                Client::<
                    DefaultTcpConnector<K, I, B, E>,
                    DefaultTlsConnector<K, J, B, E>,
                >::try_send_request,
                (client, &key, &head),
                dispatch,
            ) ==> {
                &&& dispatch matches Some(d)
                &&& d.route is Http
                &&& is_handed_out(
                    client.shared.http_connector,
                    final(client).shared.http_connector,
                    key,
                    other,
                    d.conn,
                )
                &&& final(client).shared.https_connector == client.shared.https_connector
                &&& final(client).shared.cfg == client.shared.cfg
            },
        crate::trusted::uri_scheme(head.uri@) == Some(Some("https"@)) ==> forall|
            client: &mut Client<
                DefaultTcpConnector<K, I, B, E>,
                DefaultTlsConnector<K, J, B, E>,
            >,
            dispatch: Option<Dispatch<K, B, E>>,
        | #[trigger]
            call_ensures(
                Client::<
                    DefaultTcpConnector<K, I, B, E>,
                    DefaultTlsConnector<K, J, B, E>,
                >::try_send_request,
                (client, &key, &head),
                dispatch,
            ) ==> {
                &&& dispatch matches Some(d)
                &&& d.route is Https
                &&& is_handed_out(
                    client.shared.https_connector,
                    final(client).shared.https_connector,
                    key,
                    other,
                    d.conn,
                )
                &&& final(client).shared.http_connector == client.shared.http_connector
                &&& final(client).shared.cfg == client.shared.cfg
            },
        crate::trusted::uri_scheme(head.uri@) != Some(Some("http"@)) && crate::trusted::uri_scheme(
            head.uri@,
        ) != Some(Some("https"@)) ==> forall|
            client: &mut Client<
                DefaultTcpConnector<K, I, B, E>,
                DefaultTlsConnector<K, J, B, E>,
            >,
            dispatch: Option<Dispatch<K, B, E>>,
        | #[trigger]
            call_ensures(
                Client::<
                    DefaultTcpConnector<K, I, B, E>,
                    DefaultTlsConnector<K, J, B, E>,
                >::try_send_request,
                (client, &key, &head),
                dispatch,
            ) ==> dispatch is None && *final(client) == *client,
{
    reveal_strlit("http");
    reveal_strlit("https");
    assert("http"@.len() != "https"@.len());
    lemma_drop_first::<B, E>();
}

/// A request that has a route goes the same way, whether it is tried or sent for sure; and every
/// request with the scheme `http` or `https` can be sent for sure.
pub proof fn law_sent_as_tried<K: Hash + Eq + Clone, I, J, B, E>(key: K, other: K, head: RequestHead)
    requires
        vstd::std_specs::hash::obeys_key_model::<K>(),
    ensures
        crate::trusted::uri_scheme(head.uri@) == Some(Some("http"@)) || crate::trusted::uri_scheme(
            head.uri@,
        ) == Some(Some("https"@)) ==> forall|
            client: &mut Client<
                DefaultTcpConnector<K, I, B, E>,
                DefaultTlsConnector<K, J, B, E>,
            >,
        | #[trigger]
            call_requires(
                Client::<
                    DefaultTcpConnector<K, I, B, E>,
                    DefaultTlsConnector<K, J, B, E>,
                >::send_request,
                (client, &key, &head),
            ),
        forall|
            client: &mut Client<
                DefaultTcpConnector<K, I, B, E>,
                DefaultTlsConnector<K, J, B, E>,
            >,
            dispatch: Dispatch<K, B, E>,
        | #[trigger]
            call_ensures(
                Client::<
                    DefaultTcpConnector<K, I, B, E>,
                    DefaultTlsConnector<K, J, B, E>,
                >::send_request,
                (client, &key, &head),
                dispatch,
            ) ==> {
                &&& dispatch.route is Http ==> {
                    &&& crate::trusted::uri_scheme(head.uri@) == Some(Some("http"@))
                    &&& is_handed_out(
                        client.shared.http_connector,
                        final(client).shared.http_connector,
                        key,
                        other,
                        dispatch.conn,
                    )
                    &&& final(client).shared.https_connector == client.shared.https_connector
                }
                &&& dispatch.route is Https ==> {
                    &&& crate::trusted::uri_scheme(head.uri@) == Some(Some("https"@))
                    &&& is_handed_out(
                        client.shared.https_connector,
                        final(client).shared.https_connector,
                        key,
                        other,
                        dispatch.conn,
                    )
                    &&& final(client).shared.http_connector == client.shared.http_connector
                }
                &&& final(client).shared.cfg == client.shared.cfg
            },
{
    reveal_strlit("http");
    reveal_strlit("https");
    assert("http"@.len() != "https"@.len());
    lemma_drop_first::<B, E>();
}

/// Headers are put together one by one: nothing of none, and the last behind those of its name.
pub proof fn law_headers_in_order(
    values: Map<Seq<char>, Seq<Seq<u8>>>,
    entries: Seq<HeaderEntry>,
    entry: HeaderEntry,
    other: Seq<char>,
)
    ensures
        crate::trusted::with_entries(values, Seq::empty()) == values,
        ({
            let before = crate::trusted::with_entries(values, entries);
            let after = crate::trusted::with_entries(values, entries.push(entry));
            let name = crate::trusted::header_name(entry.name);
            let value = crate::trusted::header_value(entry.value);
            &&& after.contains_key(name)
            &&& before.contains_key(name) ==> after[name] == before[name].push(value)
            &&& !before.contains_key(name) ==> after[name] == seq![value]
            &&& other != name ==> (after.contains_key(other) <==> before.contains_key(other))
            &&& other != name && before.contains_key(other) ==> after[other] == before[other]
        }),
{
    assert(entries.push(entry).drop_last() =~= entries);
    let value = crate::trusted::header_value(entry.value);
    assert(Seq::<Seq<u8>>::empty().push(value) =~= seq![value]);
}

} // verus!
