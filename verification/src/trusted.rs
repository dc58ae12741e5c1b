//! Outside types and functions, with the contracts that the proofs of this crate rest on.
//!
//! Nothing in this file is proved. Each item says which outside function it stands for and what
//! is claimed of it.
use std::collections::{HashMap, VecDeque};

use monoio_rustls::TlsConnector as RustlsConnector;
use rustls::ClientConfig as RustlsConfig;
use vstd::prelude::*;

use crate::client::pool::{sweep_queue, IdleConnection};

verus! {

/// `bytes::Bytes`: an immutable run of bytes.
#[verifier::external_type_specification]
#[verifier::external_body]
pub struct ExBytes(bytes::Bytes);

/// The bytes that a `bytes::Bytes` holds.
pub uninterp spec fn bytes_content(b: bytes::Bytes) -> Seq<u8>;

/// `bytes::Bytes::new` makes a run without any byte.
pub assume_specification[ bytes::Bytes::new ]() -> (b: bytes::Bytes)
    ensures
        bytes_content(b) == Seq::<u8>::empty(),
;

/// `http::HeaderMap`: a multimap from header names to header values.
#[verifier::external_type_specification]
#[verifier::external_body]
#[verifier::reject_recursive_types(T)]
pub struct ExHeaderMap<T>(http::HeaderMap<T>);

/// `http::HeaderValue`: the value of one header.
#[verifier::external_type_specification]
#[verifier::external_body]
pub struct ExHeaderValue(http::HeaderValue);

/// `http::HeaderName`: the name of one header, in lower case.
#[verifier::external_type_specification]
#[verifier::external_body]
pub struct ExHeaderName(http::HeaderName);

/// `http::Extensions`: values that travel with a message and are never sent.
#[verifier::external_type_specification]
#[verifier::external_body]
pub struct ExExtensions(http::Extensions);

/// The values that a header map holds under each name, in the order in which they were appended.
pub uninterp spec fn header_values(m: http::HeaderMap) -> Map<Seq<char>, Seq<Seq<u8>>>;

/// A header name as a header map stores it: lower-case letters and hyphens.
pub open spec fn is_stored_name(name: Seq<char>) -> bool {
    &&& 0 < name.len() <= 64
    &&& forall|i: int| 0 <= i < name.len() ==> ('a' <= #[trigger] name[i] <= 'z' || name[i] == '-')
}

/// The text of a header name.
pub uninterp spec fn header_name(name: http::HeaderName) -> Seq<char>;

/// The bytes of a header value.
pub uninterp spec fn header_value(value: http::HeaderValue) -> Seq<u8>;

/// A header map with one more value at the end of those under `name`.
pub open spec fn with_value(
    values: Map<Seq<char>, Seq<Seq<u8>>>,
    name: Seq<char>,
    value: Seq<u8>,
) -> Map<Seq<char>, Seq<Seq<u8>>> {
    let there = if values.contains_key(name) {
        values[name]
    } else {
        Seq::empty()
    };
    values.insert(name, there.push(value))
}

/// One header.
pub struct HeaderEntry {
    pub name: http::HeaderName,
    pub value: http::HeaderValue,
}

/// A header map with the headers of `entries` at the end, in order.
pub open spec fn with_entries(
    values: Map<Seq<char>, Seq<Seq<u8>>>,
    entries: Seq<HeaderEntry>,
) -> Map<Seq<char>, Seq<Seq<u8>>>
    decreases entries.len(),
{
    if entries.len() == 0 {
        values
    } else {
        with_value(
            with_entries(values, entries.drop_last()),
            header_name(entries.last().name),
            header_value(entries.last().value),
        )
    }
}

/// `http::HeaderMap::new` makes a map without headers.
#[verifier::external_body]
pub(crate) fn header_map_new() -> (m: http::HeaderMap)
    ensures
        header_values(m) == (Map::<Seq<char>, Seq<Seq<u8>>>::empty()),
{
    http::HeaderMap::new()
}

/// `http::HeaderMap::iter` goes through all headers, the values under one name in their order.
/// So a map without headers to which they are all appended is the same map.
#[verifier::external_body]
pub(crate) fn header_entries(m: &http::HeaderMap) -> (entries: Vec<HeaderEntry>)
    ensures
        with_entries(Map::empty(), entries@) == header_values(*m),
{
    m.iter().map(|(name, value)| HeaderEntry { name: name.clone(), value: value.clone() }).collect()
}

/// The error of a header map that has no room for one more header.
#[verifier::external_type_specification]
#[verifier::external_body]
pub struct ExMaxSizeReached(http::header::MaxSizeReached);

/// Whether a header map has room for one more header, whatever it holds and however it was made.
pub open spec fn has_room(values: Map<Seq<char>, Seq<Seq<u8>>>) -> bool {
    values.dom().len() < 6554
}

/// `http::HeaderMap::try_append` puts a value after those that are there under the same name, or
/// keeps the headers as they are where it has no room.
///
/// It refuses only where its table, which has at most 32768 slots, would have to grow beyond that:
/// where all usable slots are taken, or where a fifth of the slots are and names collide too often.
/// So it never refuses below 6554 names. From there on, whether it does rests on how the names
/// collide and how the map was made, which is not stated.
#[verifier::external_body]
pub(crate) fn header_append(
    m: &mut http::HeaderMap,
    name: &http::HeaderName,
    value: &http::HeaderValue,
) -> (appended: Result<bool, http::header::MaxSizeReached>)
    ensures
        match appended {
            Ok(_) => header_values(*final(m)) == with_value(
                header_values(*old(m)),
                header_name(*name),
                header_value(*value),
            ),
            Err(_) => header_values(*final(m)) == header_values(*old(m)),
        },
        has_room(header_values(*old(m))) ==> appended is Ok,
{
    m.try_append(name, value.clone())
}

/// The characters that `http` takes in a method.
pub open spec fn is_method_char(c: char) -> bool {
    ||| 'a' <= c <= 'z'
    ||| 'A' <= c <= 'Z'
    ||| '0' <= c <= '9'
    ||| c == '!' || c == '*' || c == '+' || c == '-' || c == '.'
    ||| c == '^' || c == '_' || c == '`' || c == '|' || c == '~'
}

/// Whether a text is an HTTP method: it has characters, and all of them may stand in one.
pub open spec fn is_method(text: Seq<char>) -> bool {
    text.len() > 0 && forall|i: int| 0 <= i < text.len() ==> is_method_char(#[trigger] text[i])
}

/// `http::Method::try_from` takes a text for a method, or rejects it.
#[verifier::external_body]
pub(crate) fn check_method(text: &str) -> (ok: bool)
    ensures
        ok == is_method(text@),
{
    http::Method::try_from(text).is_ok()
}

/// The scheme of a text that is a URI, where it has one; nothing of a text that is no URI.
pub uninterp spec fn uri_scheme(text: Seq<char>) -> Option<Option<Seq<char>>>;

/// `http::Uri::try_from` takes a text for a URI, or rejects it; `http::Uri::scheme_str` is the
/// scheme of a URI.
#[verifier::external_body]
pub(crate) fn parse_uri_scheme(text: &str) -> (parsed: Option<Option<String>>)
    ensures
        match parsed {
            Some(Some(scheme)) => uri_scheme(text@) == Some(Some(scheme@)),
            Some(None) => uri_scheme(text@) == Some(None::<Seq<char>>),
            None => uri_scheme(text@) is None,
        },
{
    http::Uri::try_from(text).ok().map(|uri| uri.scheme_str().map(str::to_string))
}

/// `http::Extensions::new` makes a set without values.
pub assume_specification[ http::Extensions::new ]() -> (extensions: http::Extensions)
;

/// `http::HeaderMap::get` returns the first value under a name, and nothing where there is none.
#[verifier::external_body]
pub(crate) fn header_first(m: &http::HeaderMap, name: &str) -> (r: Option<Vec<u8>>)
    requires
        is_stored_name(name@),
    ensures
        match r {
            Some(v) => header_values(*m).contains_key(name@) && header_values(*m)[name@].len() > 0
                && v@ == header_values(*m)[name@][0],
            None => !header_values(*m).contains_key(name@),
        },
{
    m.get(name).map(|v| v.as_bytes().to_vec())
}

/// The sending half of a `local_sync` one-shot channel.
#[verifier::external_type_specification]
#[verifier::external_body]
#[verifier::reject_recursive_types(T)]
pub struct ExOneshotSender<T>(local_sync::oneshot::Sender<T>);

/// The receiving half of a `local_sync` one-shot channel.
#[verifier::external_type_specification]
#[verifier::external_body]
#[verifier::reject_recursive_types(T)]
pub struct ExOneshotReceiver<T>(local_sync::oneshot::Receiver<T>);

/// The error of a one-shot receiver whose sender is gone.
#[verifier::external_type_specification]
#[verifier::external_body]
pub struct ExRecvError(local_sync::oneshot::error::RecvError);

/// The sending half of a `local_sync` unbounded channel.
#[verifier::external_type_specification]
#[verifier::external_body]
#[verifier::reject_recursive_types(T)]
pub struct ExTx<T>(local_sync::mpsc::unbounded::Tx<T>);

/// The receiving half of a `local_sync` unbounded channel.
#[verifier::external_type_specification]
#[verifier::external_body]
#[verifier::reject_recursive_types(T)]
pub struct ExRx<T>(local_sync::mpsc::unbounded::Rx<T>);

/// The error of an unbounded sender whose receiver is gone.
#[verifier::external_type_specification]
#[verifier::external_body]
pub struct ExSendError(local_sync::mpsc::SendError);

/// The error of a one-shot receiver that is asked before a value is there.
#[verifier::external_type_specification]
#[verifier::external_body]
pub struct ExTryRecvError(local_sync::oneshot::error::TryRecvError);

/// `local_sync::oneshot::channel` makes the two halves of a new channel for one value.
/// Nothing more is stated of them than that this call made them.
pub assume_specification<T>[ local_sync::oneshot::channel::<T> ]() -> (halves: (
    local_sync::oneshot::Sender<T>,
    local_sync::oneshot::Receiver<T>,
))
;

/// `local_sync::oneshot::Sender::send` hands the value back where the receiver is gone.
pub assume_specification<T>[ local_sync::oneshot::Sender::<T>::send ](
    tx: local_sync::oneshot::Sender<T>,
    t: T,
) -> (sent: Result<(), T>)
    ensures
        sent matches Err(back) ==> back == t,
;

/// `local_sync::oneshot::Receiver::try_recv` takes the value, if it is there. What it finds rests
/// on what the sender has done, so nothing is stated of it.
pub assume_specification<T>[ local_sync::oneshot::Receiver::<T>::try_recv ](
    rx: &mut local_sync::oneshot::Receiver<T>,
) -> (got: Result<T, local_sync::oneshot::error::TryRecvError>)
;

/// `local_sync::mpsc::unbounded::channel` makes the two halves of a new channel.
/// Nothing more is stated of them than that this call made them.
pub assume_specification<T>[ local_sync::mpsc::unbounded::channel::<T> ]() -> (halves: (
    local_sync::mpsc::unbounded::Tx<T>,
    local_sync::mpsc::unbounded::Rx<T>,
))
;

/// `local_sync::mpsc::unbounded::Tx::send` queues a value. Whether it can rests on whether the
/// receiver still is there, so nothing is stated of the outcome.
pub assume_specification<T>[ local_sync::mpsc::unbounded::Tx::<T>::send ](
    tx: &local_sync::mpsc::unbounded::Tx<T>,
    value: T,
) -> (sent: Result<(), local_sync::mpsc::SendError>)
;

/// Cloning a `local_sync::mpsc::unbounded::Tx` gives another handle on the same channel.
pub assume_specification<T>[ <local_sync::mpsc::unbounded::Tx<T> as Clone>::clone ](
    tx: &local_sync::mpsc::unbounded::Tx<T>,
) -> (other: local_sync::mpsc::unbounded::Tx<T>)
    ensures
        other == *tx,
;

/// `local_sync::mpsc::unbounded::Tx::same_channel` tells whether two handles are on the same channel.
pub assume_specification<T>[ local_sync::mpsc::unbounded::Tx::<T>::same_channel ](
    tx: &local_sync::mpsc::unbounded::Tx<T>,
    other: &local_sync::mpsc::unbounded::Tx<T>,
) -> (same: bool)
    ensures
        same == (*tx == *other),
;

/// `std::time::Instant`: a point in time on a clock that never goes back.
#[verifier::external_type_specification]
#[verifier::external_body]
pub struct ExInstant(std::time::Instant);

/// `std::time::Instant::now` reads the clock. Nothing is stated of what it shows.
pub assume_specification[ std::time::Instant::now ]() -> (now: std::time::Instant)
;

/// `std::time::Instant::elapsed`, in nanoseconds. Nothing is stated of how much time has passed.
#[verifier::external_body]
pub(crate) fn nanos_since(origin: &std::time::Instant) -> (nanos: u128) {
    origin.elapsed().as_nanos()
}

/// `std::collections::HashMap::get_mut` lends the value under a key, and nothing where there is
/// none. What is written to the value is then under the key; nothing else changes.
#[verifier::external_body]
pub(crate) fn map_get_mut<'a, K: std::hash::Hash + Eq, V>(
    map: &'a mut HashMap<K, V>,
    key: &K,
) -> (value: Option<&'a mut V>)
    ensures
        vstd::std_specs::hash::obeys_key_model::<K>() ==> match value {
            Some(v) => {
                &&& old(map)@.contains_key(*key)
                &&& *v == old(map)@[*key]
                &&& final(map)@ == old(map)@.insert(*key, *final(v))
            },
            None => !old(map)@.contains_key(*key) && final(map)@ == old(map)@,
        },
{
    map.get_mut(key)
}

/// `std::collections::HashMap::retain` shows each queue to [`sweep_queue`], which may change it,
/// and keeps the queues for which that returns `true`.
#[verifier::external_body]
pub(crate) fn map_sweep<K, B, E>(
    map: &mut HashMap<K, VecDeque<IdleConnection<B, E>>>,
    now: u128,
    dur: u128,
)
    ensures
        vstd::std_specs::hash::obeys_key_model::<K>() ==> {
            &&& forall|k: K| #[trigger]
                final(map)@.contains_key(k) <==> old(map)@.contains_key(k)
                    && crate::client::pool::live(old(map)@[k]@, now, dur).len() > 0
            &&& forall|k: K| #[trigger]
                final(map)@.contains_key(k) ==> final(map)@[k]@ == crate::client::pool::live(
                    old(map)@[k]@,
                    now,
                    dur,
                )
        },
{
    map.retain(|_, queue| sweep_queue(queue, now, dur));
}

/// `rustls::RootCertStore`: the certificates that a TLS client trusts.
#[verifier::external_type_specification]
#[verifier::external_body]
pub struct ExRootCertStore(rustls::RootCertStore);

/// `rustls::ClientConfig`: how a TLS client opens connections.
#[verifier::external_type_specification]
#[verifier::external_body]
pub struct ExRustlsConfig(RustlsConfig);

/// `monoio_rustls::TlsConnector`: what opens TLS connections over others.
#[verifier::external_type_specification]
#[verifier::external_body]
pub struct ExRustlsConnector(RustlsConnector);

/// A trust anchor: the subject, the public key and, where there are any, the name constraints of a
/// certificate that is trusted.
pub struct TrustAnchor {
    pub subject: Vec<u8>,
    pub spki: Vec<u8>,
    pub name_constraints: Option<Vec<u8>>,
}

/// The bytes of a [`TrustAnchor`].
pub type AnchorView = (Seq<u8>, Seq<u8>, Option<Seq<u8>>);

impl View for TrustAnchor {
    type V = AnchorView;

    open spec fn view(&self) -> AnchorView {
        (
            self.subject@,
            self.spki@,
            match self.name_constraints {
                Some(constraints) => Some(constraints@),
                None => None,
            },
        )
    }
}

/// The trust anchors that come with `webpki_roots`, by their place in its list.
pub uninterp spec fn bundled_anchor(index: int) -> Option<AnchorView>;

/// An element of the list `webpki_roots::TLS_SERVER_ROOTS`; nothing past its end.
#[verifier::external_body]
pub(crate) fn bundled_anchor_at(index: usize) -> (anchor: Option<TrustAnchor>)
    ensures
        match anchor {
            Some(a) => bundled_anchor(index as int) == Some(a@) && index < usize::MAX,
            None => bundled_anchor(index as int) is None,
        },
{
    webpki_roots::TLS_SERVER_ROOTS.0.get(index).map(
        |anchor| TrustAnchor {
            subject: anchor.subject.to_vec(),
            spki: anchor.spki.to_vec(),
            name_constraints: anchor.name_constraints.map(|c| c.to_vec()),
        },
    )
}

/// The trust anchors in a store, in the order in which they were added.
pub uninterp spec fn store_anchors(store: rustls::RootCertStore) -> Seq<AnchorView>;

/// `rustls::RootCertStore::empty` makes a store that trusts nobody.
pub assume_specification[ rustls::RootCertStore::empty ]() -> (store: rustls::RootCertStore)
    ensures
        store_anchors(store) == Seq::<AnchorView>::empty(),
;

/// `rustls::RootCertStore::add_trust_anchors` adds an anchor, which
/// `rustls::OwnedTrustAnchor::from_subject_spki_name_constraints` makes, after those that are there.
#[verifier::external_body]
pub(crate) fn store_add(store: &mut rustls::RootCertStore, anchor: TrustAnchor)
    ensures
        store_anchors(*final(store)) == store_anchors(*old(store)).push(anchor@),
{
    store.add_trust_anchors(
        std::iter::once(
            rustls::OwnedTrustAnchor::from_subject_spki_name_constraints(
                anchor.subject,
                anchor.spki,
                anchor.name_constraints,
            ),
        ),
    );
}

/// The trust anchors that a configuration was made with, and to which it holds servers.
pub uninterp spec fn config_anchors(config: RustlsConfig) -> Seq<AnchorView>;

/// `rustls::ClientConfig::builder`, with the safe defaults, a store of trust anchors and no client
/// certificate, makes a configuration that holds servers to these anchors.
#[verifier::external_body]
pub(crate) fn tls_config(store: rustls::RootCertStore) -> (config: RustlsConfig)
    ensures
        config_anchors(config) == store_anchors(store),
{
    RustlsConfig::builder()
        .with_safe_defaults()
        .with_root_certificates(store)
        .with_no_client_auth()
}

/// The trust anchors to which a connector holds servers.
pub uninterp spec fn connector_anchors(connector: RustlsConnector) -> Seq<AnchorView>;

/// `monoio_rustls::TlsConnector::from` makes a connector that opens connections as the
/// configuration says.
#[verifier::external_body]
pub(crate) fn tls_connector(config: RustlsConfig) -> (connector: RustlsConnector)
    ensures
        connector_anchors(connector) == config_anchors(config),
{
    RustlsConnector::from(config)
}

/// Clones of a `monoio_rustls::TlsConnector` share its configuration.
pub assume_specification[ <RustlsConnector as Clone>::clone ](
    connector: &RustlsConnector,
) -> (other: RustlsConnector)
    ensures
        connector_anchors(other) == connector_anchors(*connector),
;

} // verus!
