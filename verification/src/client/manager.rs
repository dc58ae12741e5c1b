//! The managers of connections: each takes requests off a channel, one connection's worth, and
//! sees that each gets its reply.
//!
//! What a connection does is awaited outside; a manager decides what to do next from what the
//! connection answers.
use bytes::Bytes;
use local_sync::{mpsc, oneshot};
use vstd::prelude::*;

use super::stream_task::{StreamState, StreamTask};
use super::transaction::{Reply, SingleRecvr, Transaction};
use crate::common::body::{FramedPayloadRecvr, RecvStream, StreamHint};
use crate::common::{FromParts, IntoParts, Request, Response, ResponseHead};
use crate::error::{Error, IoErrorKind};

verus! {

/// What an HTTP/1 manager waits for.
#[verifier::reject_recursive_types(B)]
#[verifier::reject_recursive_types(E)]
pub enum Http1Stage<B, E> {
    /// A request.
    Waiting,
    /// The end of sending a request whose reply goes here.
    Sending(oneshot::Sender<Result<Response<B>, Error<E>>>),
    /// The head of the response to a request whose reply goes here.
    Reading(oneshot::Sender<Result<Response<B>, Error<E>>>),
    /// The next chunk of a response body, which goes here.
    Streaming(mpsc::unbounded::Tx<Option<Result<Bytes, E>>>),
    /// Nothing: the manager is over.
    Stopped,
}

/// An answer to an [`Http1Action`].
#[verifier::reject_recursive_types(B)]
#[verifier::reject_recursive_types(E)]
pub enum Http1Event<B, E> {
    /// A request; nothing where no user is left.
    Request(Option<Transaction<B, E>>),
    /// Whether the request was written.
    Sent(Result<(), E>),
    /// A response and where its body goes; nothing where the peer closed the connection.
    Response(
        Option<Result<(Response<B>, mpsc::unbounded::Tx<Option<Result<Bytes, E>>>), E>>,
    ),
    /// A chunk of the response body; nothing at its end.
    Data(Option<Result<Bytes, E>>),
}

/// What is to be done with the channel or the connection.
pub enum Http1Action<B> {
    /// Wait for a request.
    Recv,
    /// Write and flush a request.
    Send(Request<B>),
    /// Wait for the head of a response.
    Read,
    /// Wait for a chunk of the response body.
    NextData,
    /// Stop, and drop the connection.
    Stop,
}

/// What an answer leads to: a reply to give, a chunk to pass on to the reader of the response
/// body, and then something to do.
#[verifier::reject_recursive_types(B)]
#[verifier::reject_recursive_types(E)]
pub struct Http1Step<B, E> {
    pub reply: Option<Reply<B, E>>,
    pub forward: Option<Result<Bytes, E>>,
    pub action: Http1Action<B>,
}

impl<B, E> Http1Stage<B, E> {
    /// Whether `event` answers what the manager waits for.
    pub open spec fn awaits(self, event: Http1Event<B, E>) -> bool {
        match event {
            Http1Event::Request(_) => self is Waiting,
            Http1Event::Sent(_) => self is Sending,
            Http1Event::Response(_) => self is Reading,
            Http1Event::Data(_) => self is Streaming,
        }
    }

    /// What an awaited event leads to.
    pub open spec fn after(self, event: Http1Event<B, E>) -> (Http1Stage<B, E>, Http1Step<B, E>) {
        match (self, event) {
            (_, Http1Event::Request(Some(t))) => (
                Http1Stage::Sending(t.resp_tx),
                Http1Step { reply: None, forward: None, action: Http1Action::Send(t.req) },
            ),
            (_, Http1Event::Request(None)) => (
                Http1Stage::Stopped,
                Http1Step { reply: None, forward: None, action: Http1Action::Stop },
            ),
            (Http1Stage::Sending(resp_tx), Http1Event::Sent(Ok(_))) => (
                Http1Stage::Reading(resp_tx),
                Http1Step { reply: None, forward: None, action: Http1Action::Read },
            ),
            (Http1Stage::Sending(resp_tx), Http1Event::Sent(Err(e))) => (
                Http1Stage::Waiting,
                Http1Step {
                    reply: Some(Reply { resp_tx, result: Err(Error::H1Encode(e)) }),
                    forward: None,
                    action: Http1Action::Recv,
                },
            ),
            (Http1Stage::Reading(resp_tx), Http1Event::Response(Some(Ok((resp, data_tx))))) => (
                Http1Stage::Streaming(data_tx),
                Http1Step {
                    reply: Some(Reply { resp_tx, result: Ok(resp) }),
                    forward: None,
                    action: Http1Action::NextData,
                },
            ),
            (Http1Stage::Reading(resp_tx), Http1Event::Response(Some(Err(e)))) => (
                Http1Stage::Stopped,
                Http1Step {
                    reply: Some(Reply { resp_tx, result: Err(Error::H1Decode(e)) }),
                    forward: None,
                    action: Http1Action::Stop,
                },
            ),
            (Http1Stage::Reading(resp_tx), Http1Event::Response(None)) => (
                Http1Stage::Stopped,
                Http1Step {
                    reply: Some(
                        Reply { resp_tx, result: Err(Error::Io(IoErrorKind::UnexpectedEof)) },
                    ),
                    forward: None,
                    action: Http1Action::Stop,
                },
            ),
            (_, Http1Event::Data(Some(chunk))) => (
                self,
                Http1Step { reply: None, forward: Some(chunk), action: Http1Action::NextData },
            ),
            (_, Http1Event::Data(None)) => (
                Http1Stage::Waiting,
                Http1Step { reply: None, forward: None, action: Http1Action::Recv },
            ),
            _ => arbitrary(),
        }
    }

    /// Takes the answer to the action before, and says what to do next.
    pub fn step(self, event: Http1Event<B, E>) -> (next: (Http1Stage<B, E>, Http1Step<B, E>))
        requires
            self.awaits(event),
        ensures
            next == self.after(event),
    {
        match (self, event) {
            (Http1Stage::Waiting, Http1Event::Request(Some(t))) => {
                let (req, resp_tx) = t.parts();
                (
                    Http1Stage::Sending(resp_tx),
                    Http1Step { reply: None, forward: None, action: Http1Action::Send(req) },
                )
            },
            (Http1Stage::Waiting, Http1Event::Request(None)) => (
                Http1Stage::Stopped,
                Http1Step { reply: None, forward: None, action: Http1Action::Stop },
            ),
            (Http1Stage::Sending(resp_tx), Http1Event::Sent(Ok(_))) => (
                Http1Stage::Reading(resp_tx),
                Http1Step { reply: None, forward: None, action: Http1Action::Read },
            ),
            (Http1Stage::Sending(resp_tx), Http1Event::Sent(Err(e))) => (
                Http1Stage::Waiting,
                Http1Step {
                    reply: Some(Reply { resp_tx, result: Err(Error::H1Encode(e)) }),
                    forward: None,
                    action: Http1Action::Recv,
                },
            ),
            (Http1Stage::Reading(resp_tx), Http1Event::Response(Some(Ok((resp, data_tx))))) => (
                Http1Stage::Streaming(data_tx),
                Http1Step {
                    reply: Some(Reply { resp_tx, result: Ok(resp) }),
                    forward: None,
                    action: Http1Action::NextData,
                },
            ),
            (Http1Stage::Reading(resp_tx), Http1Event::Response(Some(Err(e)))) => (
                Http1Stage::Stopped,
                Http1Step {
                    reply: Some(Reply { resp_tx, result: Err(Error::H1Decode(e)) }),
                    forward: None,
                    action: Http1Action::Stop,
                },
            ),
            (Http1Stage::Reading(resp_tx), Http1Event::Response(None)) => (
                Http1Stage::Stopped,
                Http1Step {
                    reply: Some(
                        Reply { resp_tx, result: Err(Error::Io(IoErrorKind::UnexpectedEof)) },
                    ),
                    forward: None,
                    action: Http1Action::Stop,
                },
            ),
            (Http1Stage::Streaming(data_tx), Http1Event::Data(Some(chunk))) => (
                Http1Stage::Streaming(data_tx),
                Http1Step { reply: None, forward: Some(chunk), action: Http1Action::NextData },
            ),
            (Http1Stage::Streaming(_), Http1Event::Data(None)) => (
                Http1Stage::Waiting,
                Http1Step { reply: None, forward: None, action: Http1Action::Recv },
            ),
            _ => unreached(),
        }
    }
}

/// Manages an HTTP/1 connection: one request at a time. `H` is the connection.
#[verifier::reject_recursive_types(B)]
#[verifier::reject_recursive_types(E)]
pub struct Http1ConnManager<H, B, E> {
    pub req_rx: SingleRecvr<B, E>,
    pub handle: Option<H>,
    pub stage: Http1Stage<B, E>,
}

impl<H, B, E> Http1ConnManager<H, B, E> {
    pub fn new(req_rx: SingleRecvr<B, E>, handle: H) -> (manager: Self)
        ensures
            manager == (Http1ConnManager {
                req_rx,
                handle: Some(handle),
                stage: Http1Stage::<B, E>::Waiting,
            }),
    {
        Http1ConnManager { req_rx, handle: Some(handle), stage: Http1Stage::Waiting }
    }

    /// Takes the connection out. The first thing to do is to wait for a request.
    pub fn begin(&mut self) -> (begun: (H, Http1Action<B>))
        requires
            old(self).handle is Some,
        ensures
            Some(begun.0) == old(self).handle,
            begun.1 is Recv,
            *final(self) == (Http1ConnManager { handle: None::<H>, ..*old(self) }),
    {
        let codec = self.handle.take().unwrap();
        (codec, Http1Action::Recv)
    }

    /// Drives the manager on: takes the answer to the action before, and says what to do next.
    pub fn drive(&mut self, event: Http1Event<B, E>) -> (step: Http1Step<B, E>)
        requires
            old(self).stage.awaits(event),
        ensures
            (final(self).stage, step) == old(self).stage.after(event),
            final(self).req_rx == old(self).req_rx,
            final(self).handle == old(self).handle,
    {
        let mut stage: Http1Stage<B, E> = Http1Stage::Stopped;
        std::mem::swap(&mut stage, &mut self.stage);
        let (stage, step) = stage.step(event);
        self.stage = stage;
        step
    }

    /// Takes a decoded response, gives it a body that this manager will feed, and goes on.
    pub fn respond(
        &mut self,
        response: Option<Result<(ResponseHead, StreamHint), E>>,
    ) -> (step: Http1Step<B, E>) where B: From<FramedPayloadRecvr<E>>
        requires
            old(self).stage is Reading,
        ensures
            final(self).req_rx == old(self).req_rx,
            final(self).handle == old(self).handle,
            match response {
                Some(Ok((head, hint))) => exists|resp: Response<B>, data_tx|
                    is_framed(resp, head, hint, data_tx) && (final(self).stage, step)
                        == #[trigger] old(self).stage.after(
                        Http1Event::Response(Some(Ok((resp, data_tx)))),
                    ),
                Some(Err(e)) => (final(self).stage, step) == old(self).stage.after(
                    Http1Event::Response(Some(Err(e))),
                ),
                None => (final(self).stage, step) == old(self).stage.after(
                    Http1Event::Response(None),
                ),
            },
    {
        match response {
            Some(Ok((head, hint))) => {
                let (resp, data_tx) = framed_response(head, hint);
                self.drive(Http1Event::Response(Some(Ok((resp, data_tx)))))
            },
            Some(Err(e)) => self.drive(Http1Event::Response(Some(Err(e)))),
            None => self.drive(Http1Event::Response(None)),
        }
    }

    /// Does what a step asks of the channels, and returns what it asks of the connection.
    /// Neither a reply nor a chunk that nobody waits for any more matters.
    pub fn perform(&self, step: Http1Step<B, E>) -> (action: Http1Action<B>)
        ensures
            action == step.action,
            step.reply matches Some(reply) ==> exists|outcome|
                super::transaction::was_given(reply.resp_tx, reply.result, outcome),
            step.forward matches Some(chunk) ==> (self.stage matches Http1Stage::Streaming(data_tx)
                ==> exists|outcome|
                super::transaction::was_sent(data_tx, Some(chunk), outcome)),
    {
        if let Some(reply) = step.reply {
            let outcome = reply.deliver();
            assert(super::transaction::was_given(reply.resp_tx, reply.result, outcome));
        }
        if let Some(chunk) = step.forward {
            if let Http1Stage::Streaming(data_tx) = &self.stage {
                let outcome = data_tx.send(Some(chunk));
                assert(super::transaction::was_sent(*data_tx, Some(chunk), outcome));
            }
        }
        step.action
    }
}

/// Whether a response has the head `head`, and a body made from a payload with the hint `hint`, whose
/// data comes from `data_tx`, and which has both ends of its drop channel.
pub open spec fn is_framed<B: From<FramedPayloadRecvr<E>>, E>(
    resp: Response<B>,
    head: ResponseHead,
    hint: StreamHint,
    data_tx: mpsc::unbounded::Tx<Option<Result<Bytes, E>>>,
) -> bool {
    resp.head == head && exists|payload: FramedPayloadRecvr<E>|
        {
            &&& #[trigger] call_ensures(B::from, (payload,), resp.body)
            &&& payload.hint == hint
            &&& super::transaction::is_channel(data_tx, payload.data_rx)
            &&& payload.drop_tx matches Some(drop_tx)
            &&& payload.drop_rx matches Some(drop_rx)
            &&& super::transaction::is_oneshot(drop_tx, drop_rx)
        }
}

/// A response whose body comes over a new channel.
pub fn framed_response<B: From<FramedPayloadRecvr<E>>, E>(
    head: ResponseHead,
    hint: StreamHint,
) -> (framed: (Response<B>, mpsc::unbounded::Tx<Option<Result<Bytes, E>>>))
    ensures
        is_framed::<B, E>(framed.0, head, hint, framed.1),
{
    let (data_tx, data_rx) = mpsc::unbounded::channel::<Option<Result<Bytes, E>>>();
    let (drop_tx, drop_rx) = oneshot::channel::<()>();
    let payload = FramedPayloadRecvr {
        data_rx,
        drop_tx: Some(drop_tx),
        drop_rx: Some(drop_rx),
        hint,
    };
    let ghost given = payload;
    let resp = Response::from_parts(head, B::from(payload));
    assert(call_ensures(B::from, (given,), resp.body));
    (resp, data_tx)
}

/// What an HTTP/2 manager waits for.
#[verifier::reject_recursive_types(B)]
#[verifier::reject_recursive_types(E)]
pub enum Http2Stage<B, E> {
    /// A request.
    Waiting,
    /// Room on the connection for a request.
    Readying(Transaction<B, E>),
    /// The stream over which this body goes, and whose response is the reply.
    Opening(B, oneshot::Sender<Result<Response<B>, Error<E>>>),
    /// Nothing: the manager is over.
    Stopped,
}

/// An answer to an [`Http2Action`]. `F` is a response to come, `W` the stream for a body.
#[verifier::reject_recursive_types(B)]
#[verifier::reject_recursive_types(E)]
pub enum Http2Event<F, W, B, E> {
    /// A request; nothing where no user is left.
    Request(Option<Transaction<B, E>>),
    /// There is room for a request.
    Ready,
    /// The head of the request was sent, or the connection failed.
    Opened(Result<(F, W), E>),
}

/// What is to be done with the channel or the connection.
pub enum Http2Action {
    /// Wait for a request.
    Recv,
    /// Wait until there is room on the connection.
    Ready,
    /// Send the head of a request; with `end_of_stream`, no body follows.
    Open { request: Request<()>, end_of_stream: bool },
    /// Stop.
    Stop,
}

/// A request under way: its body is to be sent by a task of its own, and the response that
/// comes is to be awaited by another, which replies with what [`h2_result`] makes of it.
#[verifier::reject_recursive_types(B)]
#[verifier::reject_recursive_types(E)]
pub struct Http2Exchange<F, W, B, E> {
    pub task: StreamTask<W, B>,
    pub resp_fut: F,
    pub resp_tx: oneshot::Sender<Result<Response<B>, Error<E>>>,
}

/// What an answer leads to: a reply to give, an exchange to start, and then something to do.
#[verifier::reject_recursive_types(B)]
#[verifier::reject_recursive_types(E)]
pub struct Http2Step<F, W, B, E> {
    pub reply: Option<Reply<B, E>>,
    pub exchange: Option<Http2Exchange<F, W, B, E>>,
    pub action: Http2Action,
}

impl<B, E> Http2Stage<B, E> {
    /// Whether `event` answers what the manager waits for.
    pub open spec fn awaits<F, W>(self, event: Http2Event<F, W, B, E>) -> bool {
        match event {
            Http2Event::Request(_) => self is Waiting,
            Http2Event::Ready => self is Readying,
            Http2Event::Opened(_) => self is Opening,
        }
    }

    /// What an awaited event leads to.
    pub open spec fn after<F, W>(self, event: Http2Event<F, W, B, E>) -> (
        Http2Stage<B, E>,
        Http2Step<F, W, B, E>,
    ) {
        match (self, event) {
            (_, Http2Event::Request(Some(t))) => (
                Http2Stage::Readying(t),
                Http2Step { reply: None, exchange: None, action: Http2Action::Ready },
            ),
            (_, Http2Event::Request(None)) => (
                Http2Stage::Stopped,
                Http2Step { reply: None, exchange: None, action: Http2Action::Stop },
            ),
            (Http2Stage::Readying(t), Http2Event::Ready) => (
                Http2Stage::Opening(t.req.body, t.resp_tx),
                Http2Step {
                    reply: None,
                    exchange: None,
                    action: Http2Action::Open {
                        request: Request { head: t.req.head, body: () },
                        end_of_stream: false,
                    },
                },
            ),
            (Http2Stage::Opening(body, resp_tx), Http2Event::Opened(Ok((resp_fut, pipe)))) => (
                Http2Stage::Waiting,
                Http2Step {
                    reply: None,
                    exchange: Some(
                        Http2Exchange {
                            task: StreamTask {
                                stream_pipe: pipe,
                                body,
                                state: StreamState::initial(),
                            },
                            resp_fut,
                            resp_tx,
                        },
                    ),
                    action: Http2Action::Recv,
                },
            ),
            (Http2Stage::Opening(_, resp_tx), Http2Event::Opened(Err(e))) => (
                Http2Stage::Stopped,
                Http2Step {
                    reply: Some(Reply { resp_tx, result: Err(Error::H2(e)) }),
                    exchange: None,
                    action: Http2Action::Stop,
                },
            ),
            _ => arbitrary(),
        }
    }

    /// Takes the answer to the action before, and says what to do next.
    pub fn step<F, W>(self, event: Http2Event<F, W, B, E>) -> (next: (
        Http2Stage<B, E>,
        Http2Step<F, W, B, E>,
    ))
        requires
            self.awaits(event),
        ensures
            next == self.after(event),
    {
        match (self, event) {
            (Http2Stage::Waiting, Http2Event::Request(Some(t))) => (
                Http2Stage::Readying(t),
                Http2Step { reply: None, exchange: None, action: Http2Action::Ready },
            ),
            (Http2Stage::Waiting, Http2Event::Request(None)) => (
                Http2Stage::Stopped,
                Http2Step { reply: None, exchange: None, action: Http2Action::Stop },
            ),
            (Http2Stage::Readying(t), Http2Event::Ready) => {
                let (req, resp_tx) = t.parts();
                let (head, body) = req.into_parts();
                (
                    Http2Stage::Opening(body, resp_tx),
                    Http2Step {
                        reply: None,
                        exchange: None,
                        action: Http2Action::Open {
                            request: Request::from_parts(head, ()),
                            end_of_stream: false,
                        },
                    },
                )
            },
            (Http2Stage::Opening(body, resp_tx), Http2Event::Opened(Ok((resp_fut, pipe)))) => (
                Http2Stage::Waiting,
                Http2Step {
                    reply: None,
                    exchange: Some(
                        Http2Exchange { task: StreamTask::new(pipe, body), resp_fut, resp_tx },
                    ),
                    action: Http2Action::Recv,
                },
            ),
            (Http2Stage::Opening(_, resp_tx), Http2Event::Opened(Err(e))) => (
                Http2Stage::Stopped,
                Http2Step {
                    reply: Some(Reply { resp_tx, result: Err(Error::H2(e)) }),
                    exchange: None,
                    action: Http2Action::Stop,
                },
            ),
            _ => unreached(),
        }
    }
}

/// Manages an HTTP/2 connection: many requests at a time. `H` is the handle on the connection.
#[verifier::reject_recursive_types(B)]
#[verifier::reject_recursive_types(E)]
pub struct Http2ConnManager<H, B, E> {
    pub req_rx: SingleRecvr<B, E>,
    pub handle: H,
    pub stage: Http2Stage<B, E>,
}

impl<H, B, E> Http2ConnManager<H, B, E> {
    pub fn new(req_rx: SingleRecvr<B, E>, handle: H) -> (manager: Self)
        ensures
            manager == (Http2ConnManager { req_rx, handle, stage: Http2Stage::<B, E>::Waiting }),
    {
        Http2ConnManager { req_rx, handle, stage: Http2Stage::Waiting }
    }

    /// Drives the manager on: takes the answer to the action before, and says what to do next.
    pub fn drive<F, W>(&mut self, event: Http2Event<F, W, B, E>) -> (step: Http2Step<F, W, B, E>)
        requires
            old(self).stage.awaits(event),
        ensures
            (final(self).stage, step) == old(self).stage.after(event),
            final(self).req_rx == old(self).req_rx,
            final(self).handle == old(self).handle,
    {
        let mut stage: Http2Stage<B, E> = Http2Stage::Stopped;
        std::mem::swap(&mut stage, &mut self.stage);
        let (stage, step) = stage.step(event);
        self.stage = stage;
        step
    }
}

/// What an HTTP/2 response, once it is there, means for the request.
pub fn h2_result<S, B: From<RecvStream<S>>, E>(
    response: Result<(ResponseHead, RecvStream<S>), E>,
) -> (result: Result<Response<B>, Error<E>>)
    ensures
        match response {
            Ok((head, stream)) => result matches Ok(resp) && resp.head == head && call_ensures(
                B::from,
                (stream,),
                resp.body,
            ),
            Err(e) => result == Err::<Response<B>, Error<E>>(Error::H2(e)),
        },
{
    match response {
        Ok((head, stream)) => Ok(Response::from_parts(head, B::from(stream))),
        Err(e) => Err(Error::H2(e)),
    }
}

/// A manager of either kind.
#[verifier::reject_recursive_types(B)]
#[verifier::reject_recursive_types(E)]
pub enum ConnectionManager<H1, H2, B, E> {
    Http1(Http1ConnManager<H1, B, E>),
    Http2(Http2ConnManager<H2, B, E>),
}

impl<H1, H2, B, E> ConnectionManager<H1, H2, B, E> {
    /// The manager to drive. An HTTP/2 manager is not driven through here.
    pub fn drive(&mut self) -> (manager: Option<&mut Http1ConnManager<H1, B, E>>)
        ensures
            match *old(self) {
                ConnectionManager::Http1(conn) => {
                    &&& manager matches Some(m)
                    &&& *m == conn
                    &&& *final(self) == ConnectionManager::<H1, H2, B, E>::Http1(*final(m))
                },
                ConnectionManager::Http2(_) => manager is None && *final(self) == *old(self),
            },
    {
        match self {
            ConnectionManager::Http1(conn) => Some(conn),
            ConnectionManager::Http2(_) => None,
        }
    }
}

/// What an HTTP/1 manager waits for after it was given `events`.
pub open spec fn h1_stage_after<B, E>(events: Seq<Http1Event<B, E>>) -> Http1Stage<B, E>
    decreases events.len(),
{
    if events.len() == 0 {
        Http1Stage::Waiting
    } else {
        h1_stage_after(events.drop_last()).after(events.last()).0
    }
}

/// What the last of `events` leads an HTTP/1 manager to.
pub open spec fn h1_last_step<B, E>(events: Seq<Http1Event<B, E>>) -> Http1Step<B, E> {
    h1_stage_after(events.drop_last()).after(events.last()).1
}

/// Whether each of `events` answers the action of an HTTP/1 manager before it.
pub open spec fn is_h1_history<B, E>(events: Seq<Http1Event<B, E>>) -> bool
    decreases events.len(),
{
    events.len() > 0 ==> {
        &&& is_h1_history(events.drop_last())
        &&& h1_stage_after(events.drop_last()).awaits(events.last())
    }
}

/// Where the replies to the requests that came are awaited, in the order of the requests.
pub open spec fn h1_asked<B, E>(events: Seq<Http1Event<B, E>>) -> Seq<
    oneshot::Sender<Result<Response<B>, Error<E>>>,
>
    decreases events.len(),
{
    if events.len() == 0 {
        Seq::empty()
    } else {
        match events.last() {
            Http1Event::Request(Some(t)) => h1_asked(events.drop_last()).push(t.resp_tx),
            _ => h1_asked(events.drop_last()),
        }
    }
}

/// Where replies were given, in order.
pub open spec fn h1_replied<B, E>(events: Seq<Http1Event<B, E>>) -> Seq<
    oneshot::Sender<Result<Response<B>, Error<E>>>,
>
    decreases events.len(),
{
    if events.len() == 0 {
        Seq::empty()
    } else {
        match h1_last_step(events).reply {
            Some(reply) => h1_replied(events.drop_last()).push(reply.resp_tx),
            None => h1_replied(events.drop_last()),
        }
    }
}

/// The chunks of response bodies that came over the connection, in order.
pub open spec fn h1_chunks<B, E>(events: Seq<Http1Event<B, E>>) -> Seq<Result<Bytes, E>>
    decreases events.len(),
{
    if events.len() == 0 {
        Seq::empty()
    } else {
        match events.last() {
            Http1Event::Data(Some(chunk)) => h1_chunks(events.drop_last()).push(chunk),
            _ => h1_chunks(events.drop_last()),
        }
    }
}

/// The chunks that were passed on, in order.
pub open spec fn h1_forwarded<B, E>(events: Seq<Http1Event<B, E>>) -> Seq<Result<Bytes, E>>
    decreases events.len(),
{
    if events.len() == 0 {
        Seq::empty()
    } else {
        match h1_last_step(events).forward {
            Some(chunk) => h1_forwarded(events.drop_last()).push(chunk),
            None => h1_forwarded(events.drop_last()),
        }
    }
}

/// An HTTP/1 manager replies to each request once, in the order of the requests, and takes no
/// request while one has no reply.
pub proof fn law_h1_one_reply_each<B, E>(events: Seq<Http1Event<B, E>>)
    requires
        is_h1_history(events),
    ensures
        h1_asked(events) == (match h1_stage_after(events) {
            Http1Stage::Sending(resp_tx) => h1_replied(events).push(resp_tx),
            Http1Stage::Reading(resp_tx) => h1_replied(events).push(resp_tx),
            _ => h1_replied(events),
        }),
    decreases events.len(),
{
    if events.len() > 0 {
        law_h1_one_reply_each(events.drop_last());
    }
}

/// An HTTP/1 manager passes on each chunk that it reads, in order, and each goes where the body of
/// the last response is awaited.
pub proof fn law_h1_chunks_forwarded<B, E>(events: Seq<Http1Event<B, E>>)
    requires
        is_h1_history(events),
    ensures
        h1_forwarded(events) == h1_chunks(events),
        events.len() > 0 && h1_last_step(events).forward is Some ==> h1_stage_after(
            events,
        ) is Streaming && h1_stage_after(events) == h1_stage_after(events.drop_last()),
    decreases events.len(),
{
    if events.len() > 0 {
        law_h1_chunks_forwarded(events.drop_last());
    }
}

/// An HTTP/1 manager stops only where no user is left, or where the connection gave no proper
/// response; it then waits for nothing. A request that could not be written does not stop it.
pub proof fn law_h1_stops<B, E>(events: Seq<Http1Event<B, E>>, event: Http1Event<B, E>)
    requires
        is_h1_history(events),
    ensures
        h1_stage_after(events) is Stopped <==> events.len() > 0 && (match events.last() {
            Http1Event::Request(None) => true,
            Http1Event::Response(None) => true,
            Http1Event::Response(Some(Err(_))) => true,
            _ => false,
        }),
        h1_stage_after(events) is Stopped ==> !is_h1_history(events.push(event)),
{
    assert(events.push(event).drop_last() =~= events);
}

/// What an HTTP/2 manager waits for after it was given `events`.
pub open spec fn h2_stage_after<F, W, B, E>(events: Seq<Http2Event<F, W, B, E>>) -> Http2Stage<
    B,
    E,
>
    decreases events.len(),
{
    if events.len() == 0 {
        Http2Stage::Waiting
    } else {
        h2_stage_after(events.drop_last()).after(events.last()).0
    }
}

/// What the last of `events` leads an HTTP/2 manager to.
pub open spec fn h2_last_step<F, W, B, E>(events: Seq<Http2Event<F, W, B, E>>) -> Http2Step<
    F,
    W,
    B,
    E,
> {
    h2_stage_after(events.drop_last()).after(events.last()).1
}

/// Whether each of `events` answers the action of an HTTP/2 manager before it.
pub open spec fn is_h2_history<F, W, B, E>(events: Seq<Http2Event<F, W, B, E>>) -> bool
    decreases events.len(),
{
    events.len() > 0 ==> {
        &&& is_h2_history(events.drop_last())
        &&& h2_stage_after(events.drop_last()).awaits(events.last())
    }
}

/// Where the replies to the requests that came are awaited, in the order of the requests.
pub open spec fn h2_asked<F, W, B, E>(events: Seq<Http2Event<F, W, B, E>>) -> Seq<
    oneshot::Sender<Result<Response<B>, Error<E>>>,
>
    decreases events.len(),
{
    if events.len() == 0 {
        Seq::empty()
    } else {
        match events.last() {
            Http2Event::Request(Some(t)) => h2_asked(events.drop_last()).push(t.resp_tx),
            _ => h2_asked(events.drop_last()),
        }
    }
}

/// Where a reply was given, or an exchange started that will reply, in order.
pub open spec fn h2_served<F, W, B, E>(events: Seq<Http2Event<F, W, B, E>>) -> Seq<
    oneshot::Sender<Result<Response<B>, Error<E>>>,
>
    decreases events.len(),
{
    if events.len() == 0 {
        Seq::empty()
    } else {
        let replied = match h2_last_step(events).reply {
            Some(reply) => h2_served(events.drop_last()).push(reply.resp_tx),
            None => h2_served(events.drop_last()),
        };
        match h2_last_step(events).exchange {
            Some(exchange) => replied.push(exchange.resp_tx),
            None => replied,
        }
    }
}

/// The bodies of the requests that came, in order.
pub open spec fn h2_bodies<F, W, B, E>(events: Seq<Http2Event<F, W, B, E>>) -> Seq<B>
    decreases events.len(),
{
    if events.len() == 0 {
        Seq::empty()
    } else {
        match events.last() {
            Http2Event::Request(Some(t)) => h2_bodies(events.drop_last()).push(t.req.body),
            _ => h2_bodies(events.drop_last()),
        }
    }
}

/// The bodies that tasks were started to send, in order.
pub open spec fn h2_bodies_started<F, W, B, E>(events: Seq<Http2Event<F, W, B, E>>) -> Seq<B>
    decreases events.len(),
{
    if events.len() == 0 {
        Seq::empty()
    } else {
        match h2_last_step(events).exchange {
            Some(exchange) => h2_bodies_started(events.drop_last()).push(exchange.task.body),
            None => h2_bodies_started(events.drop_last()),
        }
    }
}

/// An HTTP/2 manager serves each request once, in order: it replies with an error, or starts one
/// exchange that replies. At most one request waits to be served.
pub proof fn law_h2_serves_each_once<F, W, B, E>(events: Seq<Http2Event<F, W, B, E>>)
    requires
        is_h2_history(events),
    ensures
        h2_asked(events) == (match h2_stage_after(events) {
            Http2Stage::Readying(t) => h2_served(events).push(t.resp_tx),
            Http2Stage::Opening(_, resp_tx) => h2_served(events).push(resp_tx),
            _ => h2_served(events),
        }),
    decreases events.len(),
{
    if events.len() > 0 {
        law_h2_serves_each_once(events.drop_last());
    }
}

/// The exchange that an HTTP/2 manager starts for a request sends the body of that request.
/// Only the request at hand, or the one that stopped the manager, has no exchange.
pub proof fn law_h2_bodies_sent<F, W, B, E>(events: Seq<Http2Event<F, W, B, E>>)
    requires
        is_h2_history(events),
    ensures
        match h2_stage_after(events) {
            Http2Stage::Waiting => h2_bodies(events) == h2_bodies_started(events),
            Http2Stage::Readying(t) => h2_bodies(events) == h2_bodies_started(events).push(
                t.req.body,
            ),
            Http2Stage::Opening(body, _) => h2_bodies(events) == h2_bodies_started(events).push(
                body,
            ),
            Http2Stage::Stopped => h2_bodies(events) == h2_bodies_started(events) || h2_bodies(
                events,
            ).drop_last() == h2_bodies_started(events),
        },
    decreases events.len(),
{
    if events.len() > 0 {
        law_h2_bodies_sent(events.drop_last());
        if h2_stage_after(events) is Stopped && events.last() is Opened {
            assert(h2_bodies(events).drop_last() =~= h2_bodies_started(events));
        }
    }
}

/// An HTTP/2 manager stops only where no user is left, or where the connection failed; it then
/// waits for nothing.
pub proof fn law_h2_stops<F, W, B, E>(
    events: Seq<Http2Event<F, W, B, E>>,
    event: Http2Event<F, W, B, E>,
)
    requires
        is_h2_history(events),
    ensures
        h2_stage_after(events) is Stopped <==> events.len() > 0 && (match events.last() {
            Http2Event::Request(None) => true,
            Http2Event::Opened(Err(_)) => true,
            _ => false,
        }),
        h2_stage_after(events) is Stopped ==> !is_h2_history(events.push(event)),
{
    assert(events.push(event).drop_last() =~= events);
}

} // verus!
