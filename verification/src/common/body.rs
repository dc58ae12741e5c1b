//! Message bodies: where their data comes from and how it is framed.
use bytes::Bytes;
use local_sync::{mpsc, oneshot};
use vstd::prelude::*;

verus! {

/// How much data a body has to send.
#[derive(Debug, Clone, Copy, PartialEq, Eq, Structural)]
pub enum StreamHint {
    /// No data.
    Empty,
    /// One chunk of data.
    Fixed,
    /// Any number of chunks.
    Stream,
}

/// A message body. How its next chunk is awaited is up to the runtime that drives it.
pub trait Body {
    type Data;

    type Error;

    fn stream_hint(&self) -> StreamHint;
}

/// A message body that is polled in place. Every such body is a [`Body`].
pub trait OwnedBody {
    type Data;

    type Error;

    fn stream_hint(&self) -> StreamHint;
}

impl<T: OwnedBody> Body for T {
    type Data = <T as OwnedBody>::Data;

    type Error = <T as OwnedBody>::Error;

    /// The hint of the polled body itself.
    fn stream_hint(&self) -> (hint: StreamHint)
        ensures
            call_ensures(<T as OwnedBody>::stream_hint, (self,), hint),
    {
        <T as OwnedBody>::stream_hint(self)
    }
}

/// The receiving end of an HTTP/1 payload: the connection manager reads the chunks off the
/// connection and sends them here.
///
/// `drop_tx` and `drop_rx` are the two ends of a channel that tells when the payload is given up.
#[verifier::reject_recursive_types(E)]
pub struct FramedPayloadRecvr<E> {
    pub data_rx: mpsc::unbounded::Rx<Option<Result<Bytes, E>>>,
    pub drop_tx: Option<oneshot::Sender<()>>,
    pub drop_rx: Option<oneshot::Receiver<()>>,
    pub hint: StreamHint,
}

impl<E> Body for FramedPayloadRecvr<E> {
    type Data = Bytes;

    type Error = E;

    fn stream_hint(&self) -> (hint: StreamHint)
        ensures
            hint == self.hint,
    {
        self.hint
    }
}

/// The receiving end of an HTTP/2 stream.
pub struct RecvStream<S> {
    pub stream: S,
}

impl<S: Body> Body for RecvStream<S> {
    type Data = <S as Body>::Data;

    type Error = <S as Body>::Error;

    fn stream_hint(&self) -> (hint: StreamHint)
        ensures
            call_ensures(<S as Body>::stream_hint, (&self.stream,), hint),
    {
        <S as Body>::stream_hint(&self.stream)
    }
}

/// The error of a body that comes over HTTP/1 or HTTP/2.
#[derive(Debug)]
pub enum HttpError<E, H> {
    /// The HTTP/1 payload failed.
    H1(E),
    /// The HTTP/2 stream failed.
    H2(H),
}

/// A body of any origin.
#[verifier::reject_recursive_types(E)]
pub enum HttpBody<S, E> {
    /// Data that is at hand, until it is taken.
    Ready(Option<Bytes>),
    /// An HTTP/1 payload.
    H1(FramedPayloadRecvr<E>),
    /// An HTTP/2 stream.
    H2(RecvStream<S>),
}

/// What [`HttpBody::next_data`] leads to.
pub enum NextData<E, H> {
    /// The chunk, or the end of the body, is here.
    Now(Option<Result<Bytes, HttpError<E, H>>>),
    /// The chunk comes from the HTTP/1 payload: hand what it yields to [`h1_data`].
    FromH1,
    /// The chunk comes from the HTTP/2 stream: hand what it yields to [`h2_data`].
    FromH2,
}

impl<S, E> vstd::std_specs::convert::FromSpecImpl<FramedPayloadRecvr<E>> for HttpBody<S, E> {
    open spec fn obeys_from_spec() -> bool {
        true
    }

    open spec fn from_spec(p: FramedPayloadRecvr<E>) -> Self {
        HttpBody::H1(p)
    }
}

impl<S, E> From<FramedPayloadRecvr<E>> for HttpBody<S, E> {
    fn from(p: FramedPayloadRecvr<E>) -> (body: Self) {
        HttpBody::H1(p)
    }
}

impl<S, E> vstd::std_specs::convert::FromSpecImpl<RecvStream<S>> for HttpBody<S, E> {
    open spec fn obeys_from_spec() -> bool {
        true
    }

    open spec fn from_spec(p: RecvStream<S>) -> Self {
        HttpBody::H2(p)
    }
}

impl<S, E> From<RecvStream<S>> for HttpBody<S, E> {
    fn from(p: RecvStream<S>) -> (body: Self) {
        HttpBody::H2(p)
    }
}

impl<S, E> Default for HttpBody<S, E> {
    fn default() -> (body: Self)
        ensures
            body == HttpBody::<S, E>::Ready(None),
    {
        HttpBody::Ready(None)
    }
}

impl<S: Body, E> HttpBody<S, E> {
    /// Where the next chunk comes from.
    pub open spec fn next(self) -> NextData<E, <S as Body>::Error> {
        match self {
            HttpBody::Ready(Some(data)) => NextData::Now(Some(Ok(data))),
            HttpBody::Ready(None) => NextData::Now(None),
            HttpBody::H1(_) => NextData::FromH1,
            HttpBody::H2(_) => NextData::FromH2,
        }
    }

    /// The body once its next chunk was asked for.
    pub open spec fn rest(self) -> HttpBody<S, E> {
        match self {
            HttpBody::Ready(_) => HttpBody::Ready(None),
            _ => self,
        }
    }

    /// Takes the data of a ready body; of any other body, says where the next chunk comes from.
    pub fn next_data(&mut self) -> (next: NextData<E, <S as Body>::Error>)
        ensures
            next == old(self).next(),
            *final(self) == old(self).rest(),
    {
        match self {
            HttpBody::Ready(data) => match data.take() {
                Some(b) => NextData::Now(Some(Ok(b))),
                None => NextData::Now(None),
            },
            HttpBody::H1(_) => NextData::FromH1,
            HttpBody::H2(_) => NextData::FromH2,
        }
    }
}

impl<S: Body, E> Body for HttpBody<S, E> {
    type Data = Bytes;

    type Error = HttpError<E, <S as Body>::Error>;

    /// Ready data is one chunk; otherwise the payload or the stream knows.
    fn stream_hint(&self) -> (hint: StreamHint)
        ensures
            match self {
                HttpBody::Ready(_) => hint == StreamHint::Fixed,
                HttpBody::H1(p) => hint == p.hint,
                HttpBody::H2(p) => call_ensures(<S as Body>::stream_hint, (&p.stream,), hint),
            },
    {
        match self {
            HttpBody::Ready(_) => StreamHint::Fixed,
            HttpBody::H1(p) => p.stream_hint(),
            HttpBody::H2(p) => p.stream_hint(),
        }
    }
}

/// What an HTTP/1 payload yields, as a chunk of an [`HttpBody`].
pub fn h1_data<E, H>(data: Option<Result<Bytes, E>>) -> (chunk: Option<
    Result<Bytes, HttpError<E, H>>,
>)
    ensures
        chunk == (match data {
            Some(Ok(b)) => Some(Ok(b)),
            Some(Err(e)) => Some(Err(HttpError::<E, H>::H1(e))),
            None => None,
        }),
{
    match data {
        Some(Ok(b)) => Some(Ok(b)),
        Some(Err(e)) => Some(Err(HttpError::H1(e))),
        None => None,
    }
}

/// What an HTTP/2 stream yields, as a chunk of an [`HttpBody`].
pub fn h2_data<E, H>(data: Option<Result<Bytes, H>>) -> (chunk: Option<
    Result<Bytes, HttpError<E, H>>,
>)
    ensures
        chunk == (match data {
            Some(Ok(b)) => Some(Ok(b)),
            Some(Err(e)) => Some(Err(HttpError::<E, H>::H2(e))),
            None => None,
        }),
{
    match data {
        Some(Ok(b)) => Some(Ok(b)),
        Some(Err(e)) => Some(Err(HttpError::H2(e))),
        None => None,
    }
}

/// A body whose data is at hand yields that data once, and then nothing.
pub proof fn law_ready_yields_once<S: Body, E>(data: Bytes)
    ensures
        ({
            let body = HttpBody::<S, E>::Ready(Some(data));
            &&& body.next() == NextData::<E, <S as Body>::Error>::Now(Some(Ok(data)))
            &&& body.rest().next() == NextData::<E, <S as Body>::Error>::Now(None)
            &&& body.rest().rest() == body.rest()
        }),
{
}

} // verus!
