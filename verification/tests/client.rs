//! The client, its configuration and its connectors.
use monoio_http_client::client::connector::{
    bundled_roots, DefaultTcpConnector, DefaultTlsConnector, HttpConnector, HttpSetup,
    PooledConnector, TcpConnector, TlsConnector,
};
use monoio_http_client::client::pool::PooledConnection;
use monoio_http_client::client::request::{ClientRequest, RequestError};
use monoio_http_client::client::transaction::{request_channel, PooledConnectionPipe, SingleRecvr};
use monoio_http_client::client::{
    request_route, route, Builder, Client, ClientConfig, ClientGlobalConfig, ConnectionConfig,
    Dispatch, Proto, Route,
};
use monoio_http_client::common::{Request, RequestHead, Version};
use monoio_http_client::trusted::HeaderEntry;

type Tcp = DefaultTcpConnector<u64, (), u32, &'static str>;

type Tls = DefaultTlsConnector<u64, (), u32, &'static str>;

type TestClient = Client<Tcp, Tls>;

type Recvr = SingleRecvr<u32, &'static str>;

fn request(uri: &str) -> Request<u32> {
    Request {
        head: RequestHead {
            method: "GET".to_string(),
            uri: uri.to_string(),
            version: Version::Http11,
            headers: http::HeaderMap::new(),
            extensions: http::Extensions::new(),
        },
        body: 1,
    }
}

fn pipe() -> (PooledConnectionPipe<u32, &'static str>, Recvr) {
    let (sender, recvr) = request_channel();
    (PooledConnectionPipe::Http1(sender), recvr)
}

fn leads_to(conn: &mut PooledConnection<u64, u32, &'static str>, recvr: &mut Recvr) -> bool {
    let sent = conn.send_request(request("/"));
    sent.is_ok() && recvr.req_rx.try_recv().is_ok()
}

fn client_with(headers: &[(&'static str, &'static str)]) -> TestClient {
    let mut client = TestClient::default();
    for (name, value) in headers {
        let value = http::HeaderValue::from_static(value);
        client.shared.cfg.default_headers.append(*name, value);
    }
    client
}

#[test]
fn configurations_have_defaults() {
    assert_eq!(Proto::default(), Proto::Http1);
    assert_eq!(ConnectionConfig::default().proto, Proto::Http1);
    let global = ClientGlobalConfig::default();
    assert_eq!(global.max_idle_connections, 0);
    assert!(!global.retry_enabled);
    assert!(ClientConfig::default().default_headers.is_empty());
    assert_eq!(Builder::new(), Builder::default());
}

#[test]
fn the_last_word_on_a_setting_counts() {
    let mut builder = Builder::new();
    builder.http2_client().max_idle_connections(3).http1_client().max_idle_connections(9);
    assert_eq!(builder.connection_config.proto, Proto::Http1);
    assert_eq!(builder.global_config.max_idle_connections, 9);
    assert!(!builder.global_config.retry_enabled);
    builder.http2_client();
    assert_eq!(builder.connection_config.proto, Proto::Http2);
    assert_eq!(builder.global_config.max_idle_connections, 9);
}

#[test]
fn both_connectors_are_configured() {
    let mut builder = Builder::new();
    builder.max_idle_connections(4);
    let client: TestClient = builder.build_http2();
    assert_eq!(client.shared.http_connector.http_connector.conn_config.proto, Proto::Http2);
    assert_eq!(client.shared.https_connector.http_connector.conn_config.proto, Proto::Http2);
    assert_eq!(client.shared.http_connector.global_config.max_idle_connections, 4);
    assert_eq!(client.shared.https_connector.global_config.max_idle_connections, 4);
    let client: TestClient = builder.build_http1();
    assert_eq!(client.shared.http_connector.http_connector.conn_config.proto, Proto::Http1);
    builder.http2_client();
    let client: TestClient = builder.build_http1();
    assert_eq!(client.shared.http_connector.http_connector.conn_config.proto, Proto::Http2);
}

#[test]
fn requests_have_their_method() {
    let client = TestClient::default();
    let uri = "http://example.com/";
    let requests = vec![
        ("GET", client.get(uri)),
        ("POST", client.post(uri)),
        ("PUT", client.put(uri)),
        ("PATCH", client.patch(uri)),
        ("DELETE", client.delete(uri)),
        ("HEAD", client.head(uri)),
        ("OPTIONS", client.request("OPTIONS", uri)),
        ("X-OWN", client.request("X-OWN", uri)),
    ];
    for (method, req) in requests {
        match req.head {
            Ok(head) => {
                assert_eq!(head.method, method);
                assert_eq!(head.uri, uri);
                assert_eq!(head.version, Version::Http11);
                assert!(head.headers.is_empty());
            }
            Err(_) => panic!(),
        }
    }
}

#[test]
fn requests_start_with_the_default_headers() {
    let client = client_with(&[("accept", "a"), ("x-id", "1"), ("accept", "b")]);
    match client.get("/path").head {
        Ok(head) => {
            assert_eq!(head.headers, client.shared.cfg.default_headers);
            assert_eq!(head.headers.len(), 3);
            let accepted: Vec<&http::HeaderValue> = head.headers.get_all("accept").iter().collect();
            assert_eq!(accepted, vec!["a", "b"]);
        }
        Err(_) => panic!(),
    }
}

#[test]
fn thousands_of_default_headers_have_room() {
    let mut client = TestClient::default();
    for i in 0..6554 {
        let name = format!("x-{}", i);
        let name = http::HeaderName::from_bytes(name.as_bytes()).unwrap();
        client.shared.cfg.default_headers.append(name, http::HeaderValue::from_static("1"));
    }
    match client.get("/").head {
        Ok(head) => assert_eq!(head.headers, client.shared.cfg.default_headers),
        Err(_) => panic!(),
    }
}

#[test]
fn methods_have_their_characters() {
    let client = TestClient::default();
    for method in ["M-SEARCH", "a!*+.^_`|~9", "averyveryverylongmethod"] {
        assert!(client.request(method, "/").head.is_ok());
    }
    for method in ["A#", "A$", "A'", "A/", "A:", "A@", "A[", "A{", "\u{e9}"] {
        assert!(matches!(client.request(method, "/").head, Err(RequestError::InvalidMethod)));
    }
}

#[test]
fn bad_requests_say_what_is_wrong() {
    let client = client_with(&[("accept", "a")]);
    assert!(matches!(client.request("", "/").head, Err(RequestError::InvalidMethod)));
    assert!(matches!(client.request("A B", "/").head, Err(RequestError::InvalidMethod)));
    assert!(matches!(client.request("A B", "::").head, Err(RequestError::InvalidMethod)));
    assert!(matches!(client.get("").head, Err(RequestError::InvalidUri)));
    assert!(matches!(client.get("http://a b/").head, Err(RequestError::InvalidUri)));
}

#[test]
fn request_without_room_for_a_header_fails() {
    let mut full = ClientRequest::new();
    let mut count = 0;
    while full.head.is_ok() {
        assert!(count <= 40_000);
        let name = format!("x-{}", count);
        let entry = HeaderEntry {
            name: http::HeaderName::from_bytes(name.as_bytes()).unwrap(),
            value: http::HeaderValue::from_static("1"),
        };
        full = full.header(&entry);
        count += 1;
    }
    assert!(matches!(full.head, Err(RequestError::TooManyHeaders)));
    assert!(matches!(full.method("GET").uri("/").head, Err(RequestError::TooManyHeaders)));
}

#[test]
fn new_request_is_for_the_root() {
    match ClientRequest::new().head {
        Ok(head) => {
            assert_eq!(head.method, "GET");
            assert_eq!(head.uri, "/");
            assert_eq!(head.version, Version::Http11);
            assert!(head.headers.is_empty());
            assert!(head.extensions.is_empty());
        }
        Err(_) => panic!(),
    }
}

#[test]
fn schemes_have_their_routes() {
    assert_eq!(route(Some("http".to_string())), Some(Route::Http));
    assert_eq!(route(Some("https".to_string())), Some(Route::Https));
    assert_eq!(route(Some("ftp".to_string())), None);
    assert_eq!(route(Some("HTTP".to_string())), None);
    assert_eq!(route(None), None);
}

#[test]
fn requests_go_through_the_connector_for_their_scheme() {
    let mut client = TestClient::default();
    let (tcp_pipe, mut tcp_recvr) = pipe();
    let (tls_pipe, mut tls_recvr) = pipe();
    assert!(matches!(
        client.send_request(&7, &request("http://a/").head),
        Dispatch { route: Route::Http, conn: None }
    ));
    assert!(matches!(
        client.send_request(&7, &request("https://a/").head),
        Dispatch { route: Route::Https, conn: None }
    ));

    let http = &mut client.shared.http_connector;
    let conn = http.connected(7, Ok::<_, &str>(tcp_pipe)).unwrap();
    conn.recycle(Some(&mut http.pool));
    let https = &mut client.shared.https_connector;
    let conn = https.connected(7, Ok::<_, &str>(tls_pipe)).unwrap();
    conn.recycle(Some(&mut https.pool));

    match client.send_request(&7, &request("HTTPS://a/path?q").head) {
        Dispatch { route: Route::Https, conn: Some(mut conn) } => {
            assert!(leads_to(&mut conn, &mut tls_recvr))
        }
        _ => panic!(),
    }
    match client.send_request(&7, &request("http://a:80").head) {
        Dispatch { route: Route::Http, conn: Some(mut conn) } => {
            assert!(leads_to(&mut conn, &mut tcp_recvr))
        }
        _ => panic!(),
    }
    assert!(matches!(
        client.send_request(&7, &request("http://a/").head),
        Dispatch { route: Route::Http, conn: None }
    ));
}

#[test]
fn other_requests_go_nowhere() {
    let mut client = TestClient::default();
    assert!(client.try_send_request(&7, &request("ftp://a/").head).is_none());
    assert!(client.try_send_request(&7, &request("/path").head).is_none());
    assert!(client.try_send_request(&7, &request("").head).is_none());
    assert!(matches!(
        client.try_send_request(&7, &request("https://a/").head),
        Some(Dispatch { route: Route::Https, conn: None })
    ));
    assert_eq!(request_route(&request("http://a/").head), Some(Route::Http));
    assert_eq!(request_route(&request("a:80").head), None);
}

#[test]
fn connection_failure_is_passed_on() {
    let connector = Tcp::new(ClientGlobalConfig::default(), ConnectionConfig::default());
    assert!(matches!(connector.connected(1, Err("refused")), Err("refused")));
}

#[test]
fn connector_hands_out_idle_connections() {
    let mut connector: PooledConnector<TcpConnector, u64, (), u32, &str> =
        PooledConnector::new(ClientGlobalConfig::default(), ConnectionConfig::default());
    assert!(connector.connect(&1).is_none());
    let (pipe, mut recvr) = pipe();
    let conn = connector.connected(1, Ok::<_, ()>(pipe)).unwrap();
    conn.recycle(Some(&mut connector.pool));
    assert!(connector.connect(&2).is_none());
    let mut conn = connector.connect(&1).unwrap();
    assert!(leads_to(&mut conn, &mut recvr));
    assert!(connector.connect(&1).is_none());
}

#[test]
fn connections_are_set_up_for_the_configured_version() {
    let connector = HttpConnector::new(ConnectionConfig { proto: Proto::Http1 });
    match connector.connect::<u32, &str>() {
        HttpSetup::Http1(setup) => {
            let (mut manager, mut pipe) = setup.finish("codec");
            assert_eq!(manager.handle, Some("codec"));
            assert!(matches!(pipe, PooledConnectionPipe::Http1(_)));
            assert!(pipe.send_request(request("/")).is_ok());
            assert_eq!(manager.req_rx.req_rx.try_recv().unwrap().req.body, 1);
        }
        HttpSetup::Http2(_) => panic!(),
    }
    let connector = HttpConnector::new(ConnectionConfig { proto: Proto::Http2 });
    match connector.connect::<u32, &str>() {
        HttpSetup::Http2(setup) => {
            let (mut manager, mut pipe) = setup.finish("handle");
            assert_eq!(manager.handle, "handle");
            assert!(matches!(pipe, PooledConnectionPipe::Http2(_)));
            assert!(pipe.send_request(request("/")).is_ok());
            assert_eq!(manager.req_rx.req_rx.try_recv().unwrap().req.body, 1);
        }
        HttpSetup::Http1(_) => panic!(),
    }
}

#[test]
fn all_bundled_roots_are_trusted() {
    let store = bundled_roots();
    let bundled = webpki_roots::TLS_SERVER_ROOTS.0;
    assert_eq!(store.len(), bundled.len());
    for (stored, anchor) in store.roots.iter().zip(bundled.iter()) {
        let expected = rustls::OwnedTrustAnchor::from_subject_spki_name_constraints(
            anchor.subject,
            anchor.spki,
            anchor.name_constraints,
        );
        assert_eq!(format!("{:?}", stored), format!("{:?}", expected));
    }
}

#[test]
fn tls_connector_has_a_default_and_clones() {
    let connector = TlsConnector::default();
    let other = connector.clone();
    let _both = vec![connector, other];
}
