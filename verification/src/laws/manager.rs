//! Laws on running connections.
use bytes::Bytes;
use local_sync::{mpsc, oneshot};
use vstd::prelude::*;

use crate::client::manager::{
    framed_response, h2_result, ConnectionManager, Http1Action, Http1ConnManager, Http1Event,
    Http1Stage, Http1Step, Http2Action, Http2ConnManager, Http2Event, Http2Stage, Http2Step,
};
use crate::client::stream_task::{StreamStage, StreamState};
use crate::client::transaction::{SingleRecvr, Transaction};
use crate::common::body::{FramedPayloadRecvr, RecvStream, StreamHint};
use crate::common::{Request, Response, ResponseHead};
use crate::error::{Error, IoErrorKind};

verus! {

/// A new HTTP/1 manager has its connection and its channel, and waits for a request. It begins by
/// taking the connection out, and by waiting.
pub proof fn law_h1_begins<H, B, E>(req_rx: SingleRecvr<B, E>, handle: H)
    ensures
        forall|manager: Http1ConnManager<H, B, E>| #[trigger]
            call_ensures(Http1ConnManager::<H, B, E>::new, (req_rx, handle), manager) ==> {
                &&& manager.req_rx == req_rx
                &&& manager.handle == Some(handle)
                &&& manager.stage is Waiting
            },
        forall|manager: &mut Http1ConnManager<H, B, E>, begun: (H, Http1Action<B>)|
            manager.handle == Some(handle) && #[trigger] call_ensures(
                Http1ConnManager::<H, B, E>::begin,
                (manager,),
                begun,
            ) ==> {
                &&& begun.0 == handle
                &&& begun.1 is Recv
                &&& final(manager).handle is None
                &&& final(manager).stage == manager.stage
                &&& final(manager).req_rx == manager.req_rx
            },
        forall|manager: &mut Http1ConnManager<H, B, E>|
            manager.handle is Some ==> #[trigger] call_requires(
                Http1ConnManager::<H, B, E>::begin,
                (manager,),
            ),
{
}

/// An HTTP/1 manager that waits takes every request and writes it as it came. It then waits for the
/// end of writing, to reply where the request asked. Without a request it stops, and replies to
/// nobody.
pub proof fn law_h1_writes_the_request<H, B, E>(t: Transaction<B, E>)
    ensures
        forall|manager: &mut Http1ConnManager<H, B, E>, request: Option<Transaction<B, E>>|
            manager.stage is Waiting ==> #[trigger] call_requires(
                Http1ConnManager::<H, B, E>::drive,
                (manager, Http1Event::<B, E>::Request(request)),
            ),
        forall|manager: &mut Http1ConnManager<H, B, E>, step: Http1Step<B, E>|
            manager.stage is Waiting && #[trigger] call_ensures(
                Http1ConnManager::<H, B, E>::drive,
                (manager, Http1Event::<B, E>::Request(Some(t))),
                step,
            ) ==> {
                &&& step.action == Http1Action::<B>::Send(t.req)
                &&& step.reply is None
                &&& step.forward is None
                &&& final(manager).stage == Http1Stage::<B, E>::Sending(t.resp_tx)
            },
        forall|manager: &mut Http1ConnManager<H, B, E>, step: Http1Step<B, E>|
            manager.stage is Waiting && #[trigger] call_ensures(
                Http1ConnManager::<H, B, E>::drive,
                (manager, Http1Event::<B, E>::Request(None)),
                step,
            ) ==> {
                &&& step.action is Stop
                &&& step.reply is None
                &&& step.forward is None
                &&& final(manager).stage is Stopped
            },
{
}

/// An HTTP/1 manager that has written a request reads the response. Where it could not write it, it
/// replies with why, and waits for the next request.
pub proof fn law_h1_reads_after_writing<H, B, E>(
    resp_tx: oneshot::Sender<Result<Response<B>, Error<E>>>,
    e: E,
)
    ensures
        forall|manager: &mut Http1ConnManager<H, B, E>, sent: Result<(), E>|
            manager.stage is Sending ==> #[trigger] call_requires(
                Http1ConnManager::<H, B, E>::drive,
                (manager, Http1Event::<B, E>::Sent(sent)),
            ),
        forall|manager: &mut Http1ConnManager<H, B, E>, step: Http1Step<B, E>|
            manager.stage == Http1Stage::<B, E>::Sending(resp_tx) && #[trigger] call_ensures(
                Http1ConnManager::<H, B, E>::drive,
                (manager, Http1Event::<B, E>::Sent(Ok(()))),
                step,
            ) ==> {
                &&& step.action is Read
                &&& step.reply is None
                &&& step.forward is None
                &&& final(manager).stage == Http1Stage::<B, E>::Reading(resp_tx)
            },
        forall|manager: &mut Http1ConnManager<H, B, E>, step: Http1Step<B, E>|
            manager.stage == Http1Stage::<B, E>::Sending(resp_tx) && #[trigger] call_ensures(
                Http1ConnManager::<H, B, E>::drive,
                (manager, Http1Event::<B, E>::Sent(Err(e))),
                step,
            ) ==> {
                &&& step.action is Recv
                &&& step.reply matches Some(reply)
                &&& reply.resp_tx == resp_tx
                &&& reply.result == Err::<Response<B>, Error<E>>(Error::H1Encode(e))
                &&& step.forward is None
                &&& final(manager).stage is Waiting
            },
{
}

/// An HTTP/1 manager that is given a decoded response replies with that very response, whatever its
/// status, its version and its headers, and goes on to its body.
pub proof fn law_h1_response_is_the_reply<H, B, E>(
    resp_tx: oneshot::Sender<Result<Response<B>, Error<E>>>,
    resp: Response<B>,
    data_tx: mpsc::unbounded::Tx<Option<Result<Bytes, E>>>,
)
    ensures
        forall|
            manager: &mut Http1ConnManager<H, B, E>,
            response: Option<
                Result<(Response<B>, mpsc::unbounded::Tx<Option<Result<Bytes, E>>>), E>,
            >,
        |
            manager.stage is Reading ==> #[trigger] call_requires(
                Http1ConnManager::<H, B, E>::drive,
                (manager, Http1Event::<B, E>::Response(response)),
            ),
        forall|manager: &mut Http1ConnManager<H, B, E>, step: Http1Step<B, E>|
            manager.stage == Http1Stage::<B, E>::Reading(resp_tx) && #[trigger] call_ensures(
                Http1ConnManager::<H, B, E>::drive,
                (manager, Http1Event::<B, E>::Response(Some(Ok((resp, data_tx))))),
                step,
            ) ==> {
                &&& step.reply matches Some(reply)
                &&& reply.resp_tx == resp_tx
                &&& reply.result == Ok::<Response<B>, Error<E>>(resp)
                &&& step.forward is None
                &&& step.action is NextData
                &&& final(manager).stage == Http1Stage::<B, E>::Streaming(data_tx)
            },
        forall|
            stage: Http1Stage<B, E>,
            next: (Http1Stage<B, E>, Http1Step<B, E>),
        |
            stage == Http1Stage::<B, E>::Reading(resp_tx) && #[trigger] call_ensures(
                Http1Stage::<B, E>::step,
                (stage, Http1Event::<B, E>::Response(Some(Ok((resp, data_tx))))),
                next,
            ) ==> {
                &&& next.1.reply matches Some(reply)
                &&& reply.resp_tx == resp_tx
                &&& reply.result == Ok::<Response<B>, Error<E>>(resp)
            },
{
}

/// An HTTP/1 manager replies with an error of the response only where the response could not be
/// decoded, or where the peer closed the connection; then it stops.
pub proof fn law_h1_failed_response<H, B, E>(
    resp_tx: oneshot::Sender<Result<Response<B>, Error<E>>>,
    e: E,
)
    ensures
        forall|manager: &mut Http1ConnManager<H, B, E>, step: Http1Step<B, E>|
            manager.stage == Http1Stage::<B, E>::Reading(resp_tx) && #[trigger] call_ensures(
                Http1ConnManager::<H, B, E>::drive,
                (manager, Http1Event::<B, E>::Response(Some(Err(e)))),
                step,
            ) ==> {
                &&& step.reply matches Some(reply)
                &&& reply.resp_tx == resp_tx
                &&& reply.result == Err::<Response<B>, Error<E>>(Error::H1Decode(e))
                &&& step.forward is None
                &&& step.action is Stop
                &&& final(manager).stage is Stopped
            },
        forall|manager: &mut Http1ConnManager<H, B, E>, step: Http1Step<B, E>|
            manager.stage == Http1Stage::<B, E>::Reading(resp_tx) && #[trigger] call_ensures(
                Http1ConnManager::<H, B, E>::drive,
                (manager, Http1Event::<B, E>::Response(None)),
                step,
            ) ==> {
                &&& step.reply matches Some(reply)
                &&& reply.resp_tx == resp_tx
                &&& reply.result == Err::<Response<B>, Error<E>>(
                    Error::Io(IoErrorKind::UnexpectedEof),
                )
                &&& step.forward is None
                &&& step.action is Stop
                &&& final(manager).stage is Stopped
            },
{
}

/// An HTTP/1 manager passes each chunk of a response body on as it came, data or error, to where
/// the body is awaited, and asks for the next. At the end of the body it passes nothing on, and waits
/// for the next request.
pub proof fn law_h1_chunk_is_passed_on<H, B, E>(
    data_tx: mpsc::unbounded::Tx<Option<Result<Bytes, E>>>,
    chunk: Result<Bytes, E>,
)
    ensures
        forall|manager: &mut Http1ConnManager<H, B, E>, data: Option<Result<Bytes, E>>|
            manager.stage is Streaming ==> #[trigger] call_requires(
                Http1ConnManager::<H, B, E>::drive,
                (manager, Http1Event::<B, E>::Data(data)),
            ),
        forall|manager: &mut Http1ConnManager<H, B, E>, step: Http1Step<B, E>|
            manager.stage == Http1Stage::<B, E>::Streaming(data_tx) && #[trigger] call_ensures(
                Http1ConnManager::<H, B, E>::drive,
                (manager, Http1Event::<B, E>::Data(Some(chunk))),
                step,
            ) ==> {
                &&& step.forward == Some(chunk)
                &&& step.reply is None
                &&& step.action is NextData
                &&& final(manager).stage == Http1Stage::<B, E>::Streaming(data_tx)
            },
        forall|manager: &mut Http1ConnManager<H, B, E>, step: Http1Step<B, E>|
            manager.stage == Http1Stage::<B, E>::Streaming(data_tx) && #[trigger] call_ensures(
                Http1ConnManager::<H, B, E>::drive,
                (manager, Http1Event::<B, E>::Data(None)),
                step,
            ) ==> {
                &&& step.forward is None
                &&& step.reply is None
                &&& step.action is Recv
                &&& final(manager).stage is Waiting
            },
{
}

/// Driving an HTTP/1 manager touches neither its channel nor its connection.
pub proof fn law_h1_keeps_its_ends<H, B, E>(event: Http1Event<B, E>)
    ensures
        forall|manager: &mut Http1ConnManager<H, B, E>, step: Http1Step<B, E>| #[trigger]
            call_ensures(Http1ConnManager::<H, B, E>::drive, (manager, event), step) ==> {
                &&& final(manager).req_rx == manager.req_rx
                &&& final(manager).handle == manager.handle
            },
{
}

/// The reply of an HTTP/1 manager to a response that was decoded has the head that was decoded,
/// whatever it is, and a body that the manager feeds: its data, its hint and both ends of its drop
/// channel are of one response.
pub proof fn law_h1_responds<H, B: From<FramedPayloadRecvr<E>>, E>(
    resp_tx: oneshot::Sender<Result<Response<B>, Error<E>>>,
    head: ResponseHead,
    hint: StreamHint,
    e: E,
)
    ensures
        forall|
            manager: &mut Http1ConnManager<H, B, E>,
            response: Option<Result<(ResponseHead, StreamHint), E>>,
        |
            manager.stage is Reading ==> #[trigger] call_requires(
                Http1ConnManager::<H, B, E>::respond,
                (manager, response),
            ),
        forall|manager: &mut Http1ConnManager<H, B, E>, step: Http1Step<B, E>|
            manager.stage == Http1Stage::<B, E>::Reading(resp_tx) && #[trigger] call_ensures(
                Http1ConnManager::<H, B, E>::respond,
                (manager, Some(Ok::<(ResponseHead, StreamHint), E>((head, hint)))),
                step,
            ) ==> {
                &&& step.action is NextData
                &&& step.forward is None
                &&& step.reply matches Some(reply)
                &&& reply.resp_tx == resp_tx
                &&& reply.result matches Ok(resp)
                &&& resp.head == head
                &&& final(manager).stage matches Http1Stage::Streaming(data_tx)
                &&& is_fed(resp.body, hint, data_tx)
            },
        forall|manager: &mut Http1ConnManager<H, B, E>, step: Http1Step<B, E>|
            manager.stage == Http1Stage::<B, E>::Reading(resp_tx) && #[trigger] call_ensures(
                Http1ConnManager::<H, B, E>::respond,
                (manager, Some(Err::<(ResponseHead, StreamHint), E>(e))),
                step,
            ) ==> {
                &&& step.action is Stop
                &&& step.forward is None
                &&& step.reply matches Some(reply)
                &&& reply.resp_tx == resp_tx
                &&& reply.result == Err::<Response<B>, Error<E>>(Error::H1Decode(e))
                &&& final(manager).stage is Stopped
            },
        forall|manager: &mut Http1ConnManager<H, B, E>, step: Http1Step<B, E>|
            manager.stage == Http1Stage::<B, E>::Reading(resp_tx) && #[trigger] call_ensures(
                Http1ConnManager::<H, B, E>::respond,
                (manager, None::<Result<(ResponseHead, StreamHint), E>>),
                step,
            ) ==> {
                &&& step.action is Stop
                &&& step.forward is None
                &&& step.reply matches Some(reply)
                &&& reply.resp_tx == resp_tx
                &&& reply.result == Err::<Response<B>, Error<E>>(
                    Error::Io(IoErrorKind::UnexpectedEof),
                )
                &&& final(manager).stage is Stopped
            },
        forall|framed: (Response<B>, mpsc::unbounded::Tx<Option<Result<Bytes, E>>>)| #[trigger]
            call_ensures(framed_response::<B, E>, (head, hint), framed) ==> framed.0.head == head
                && is_fed(framed.0.body, hint, framed.1),
{
}

/// Whether a body is made of a payload with this hint, whose data comes from `data_tx`, and which
/// holds both ends of one drop channel.
pub open spec fn is_fed<B: From<FramedPayloadRecvr<E>>, E>(
    body: B,
    hint: StreamHint,
    data_tx: mpsc::unbounded::Tx<Option<Result<Bytes, E>>>,
) -> bool {
    exists|payload: FramedPayloadRecvr<E>|
        {
            &&& #[trigger] call_ensures(B::from, (payload,), body)
            &&& payload.hint == hint
            &&& call_ensures(
                mpsc::unbounded::channel::<Option<Result<Bytes, E>>>,
                (),
                (data_tx, payload.data_rx),
            )
            &&& payload.drop_tx matches Some(drop_tx)
            &&& payload.drop_rx matches Some(drop_rx)
            &&& call_ensures(oneshot::channel::<()>, (), (drop_tx, drop_rx))
        }
}

/// What a step of an HTTP/1 manager asks for is done: the reply is sent where the request asked, the
/// chunk where the body is awaited, and what is left to do is what the step says.
pub proof fn law_h1_performs<H, B, E>(manager: Http1ConnManager<H, B, E>, step: Http1Step<B, E>)
    ensures
        forall|action: Http1Action<B>| #[trigger]
            call_ensures(Http1ConnManager::<H, B, E>::perform, (&manager, step), action) ==> {
                &&& action == step.action
                &&& step.reply matches Some(reply) ==> exists|outcome| #[trigger]
                    call_ensures(
                        oneshot::Sender::<Result<Response<B>, Error<E>>>::send,
                        (reply.resp_tx, reply.result),
                        outcome,
                    )
                &&& step.forward matches Some(chunk) ==> (manager.stage
                    matches Http1Stage::Streaming(data_tx) ==> exists|outcome| #[trigger]
                    call_ensures(
                        mpsc::unbounded::Tx::<Option<Result<Bytes, E>>>::send,
                        (&data_tx, Some(chunk)),
                        outcome,
                    ))
            },
{
    assert forall|action: Http1Action<B>| #[trigger]
        call_ensures(Http1ConnManager::<H, B, E>::perform, (&manager, step), action) implies {
        &&& step.reply matches Some(reply) ==> exists|outcome| #[trigger]
            call_ensures(
                oneshot::Sender::<Result<Response<B>, Error<E>>>::send,
                (reply.resp_tx, reply.result),
                outcome,
            )
        &&& step.forward matches Some(chunk) ==> (manager.stage
            matches Http1Stage::Streaming(data_tx) ==> exists|outcome| #[trigger]
            call_ensures(
                mpsc::unbounded::Tx::<Option<Result<Bytes, E>>>::send,
                (&data_tx, Some(chunk)),
                outcome,
            ))
    } by {
        if let Some(reply) = step.reply {
            let outcome = choose|outcome|
                crate::client::transaction::was_given(reply.resp_tx, reply.result, outcome);
            assert(crate::client::transaction::was_given(reply.resp_tx, reply.result, outcome));
        }
        if let Some(chunk) = step.forward {
            if let Http1Stage::Streaming(data_tx) = manager.stage {
                let outcome = choose|outcome|
                    crate::client::transaction::was_sent(data_tx, Some(chunk), outcome);
                assert(crate::client::transaction::was_sent(data_tx, Some(chunk), outcome));
            }
        }
    }
}

/// A new HTTP/2 manager has its handle and its channel, and waits for a request.
pub proof fn law_h2_begins<H, B, E>(req_rx: SingleRecvr<B, E>, handle: H)
    ensures
        forall|manager: Http2ConnManager<H, B, E>| #[trigger]
            call_ensures(Http2ConnManager::<H, B, E>::new, (req_rx, handle), manager) ==> {
                &&& manager.req_rx == req_rx
                &&& manager.handle == handle
                &&& manager.stage is Waiting
            },
{
}

/// An HTTP/2 manager that waits takes every request, and waits until there is room for it. Without a
/// request it stops.
pub proof fn law_h2_takes_the_request<H, F, W, B, E>(t: Transaction<B, E>)
    ensures
        forall|manager: &mut Http2ConnManager<H, B, E>, request: Option<Transaction<B, E>>|
            manager.stage is Waiting ==> #[trigger] call_requires(
                Http2ConnManager::<H, B, E>::drive::<F, W>,
                (manager, Http2Event::<F, W, B, E>::Request(request)),
            ),
        forall|manager: &mut Http2ConnManager<H, B, E>, step: Http2Step<F, W, B, E>|
            manager.stage is Waiting && #[trigger] call_ensures(
                Http2ConnManager::<H, B, E>::drive::<F, W>,
                (manager, Http2Event::<F, W, B, E>::Request(Some(t))),
                step,
            ) ==> {
                &&& step.action is Ready
                &&& step.reply is None
                &&& step.exchange is None
                &&& final(manager).stage == Http2Stage::<B, E>::Readying(t)
            },
        forall|manager: &mut Http2ConnManager<H, B, E>, step: Http2Step<F, W, B, E>|
            manager.stage is Waiting && #[trigger] call_ensures(
                Http2ConnManager::<H, B, E>::drive::<F, W>,
                (manager, Http2Event::<F, W, B, E>::Request(None)),
                step,
            ) ==> {
                &&& step.action is Stop
                &&& step.reply is None
                &&& step.exchange is None
                &&& final(manager).stage is Stopped
            },
{
}

/// The stream for a request is opened with the head of that request, whatever it says, and is left
/// open: the body alone ends it. The body and the place for the reply are kept for it.
pub proof fn law_h2_opens_the_stream<H, F, W, B, E>(t: Transaction<B, E>)
    ensures
        forall|manager: &mut Http2ConnManager<H, B, E>|
            manager.stage is Readying ==> #[trigger] call_requires(
                Http2ConnManager::<H, B, E>::drive::<F, W>,
                (manager, Http2Event::<F, W, B, E>::Ready),
            ),
        forall|manager: &mut Http2ConnManager<H, B, E>, step: Http2Step<F, W, B, E>|
            manager.stage == Http2Stage::<B, E>::Readying(t) && #[trigger] call_ensures(
                Http2ConnManager::<H, B, E>::drive::<F, W>,
                (manager, Http2Event::<F, W, B, E>::Ready),
                step,
            ) ==> {
                &&& step.action matches Http2Action::Open { request, end_of_stream }
                &&& request.head == t.req.head
                &&& !end_of_stream
                &&& step.reply is None
                &&& step.exchange is None
                &&& final(manager).stage == Http2Stage::<B, E>::Opening(t.req.body, t.resp_tx)
            },
{
}

/// Once the stream for a request is open, its body is sent over that stream, from the start, and the
/// response that comes is for where the request asked. The manager waits for the next request.
pub proof fn law_h2_starts_the_exchange<H, F, W, B, E>(
    body: B,
    resp_tx: oneshot::Sender<Result<Response<B>, Error<E>>>,
    resp_fut: F,
    pipe: W,
)
    ensures
        forall|manager: &mut Http2ConnManager<H, B, E>, opened: Result<(F, W), E>|
            manager.stage is Opening ==> #[trigger] call_requires(
                Http2ConnManager::<H, B, E>::drive::<F, W>,
                (manager, Http2Event::<F, W, B, E>::Opened(opened)),
            ),
        forall|manager: &mut Http2ConnManager<H, B, E>, step: Http2Step<F, W, B, E>|
            manager.stage == Http2Stage::<B, E>::Opening(body, resp_tx) && #[trigger] call_ensures(
                Http2ConnManager::<H, B, E>::drive::<F, W>,
                (manager, Http2Event::<F, W, B, E>::Opened(Ok((resp_fut, pipe)))),
                step,
            ) ==> {
                &&& step.exchange matches Some(exchange)
                &&& exchange.task.body == body
                &&& exchange.task.stream_pipe == pipe
                &&& exchange.task.state == (StreamState {
                    data_done: false,
                    stage: StreamStage::Capacity,
                })
                &&& exchange.resp_fut == resp_fut
                &&& exchange.resp_tx == resp_tx
                &&& step.reply is None
                &&& step.action is Recv
                &&& final(manager).stage is Waiting
            },
{
}

/// Where the stream for a request cannot be opened, the reply says why, and the manager stops.
pub proof fn law_h2_fails<H, F, W, B, E>(
    body: B,
    resp_tx: oneshot::Sender<Result<Response<B>, Error<E>>>,
    e: E,
)
    ensures
        forall|manager: &mut Http2ConnManager<H, B, E>, step: Http2Step<F, W, B, E>|
            manager.stage == Http2Stage::<B, E>::Opening(body, resp_tx) && #[trigger] call_ensures(
                Http2ConnManager::<H, B, E>::drive::<F, W>,
                (manager, Http2Event::<F, W, B, E>::Opened(Err(e))),
                step,
            ) ==> {
                &&& step.reply matches Some(reply)
                &&& reply.resp_tx == resp_tx
                &&& reply.result == Err::<Response<B>, Error<E>>(Error::H2(e))
                &&& step.exchange is None
                &&& step.action is Stop
                &&& final(manager).stage is Stopped
            },
{
}

/// Driving an HTTP/2 manager touches neither its channel nor its handle.
pub proof fn law_h2_keeps_its_ends<H, F, W, B, E>(event: Http2Event<F, W, B, E>)
    ensures
        forall|manager: &mut Http2ConnManager<H, B, E>, step: Http2Step<F, W, B, E>| #[trigger]
            call_ensures(Http2ConnManager::<H, B, E>::drive::<F, W>, (manager, event), step) ==> {
                &&& final(manager).req_rx == manager.req_rx
                &&& final(manager).handle == manager.handle
            },
{
}

/// An HTTP/2 response is the result of its request, whatever its head, with a body that is made of
/// its stream; an error is the result where there is no response.
pub proof fn law_h2_response_is_the_result<S, B: From<RecvStream<S>>, E>(
    head: ResponseHead,
    stream: RecvStream<S>,
    e: E,
)
    ensures
        forall|result: Result<Response<B>, Error<E>>| #[trigger]
            call_ensures(
                h2_result::<S, B, E>,
                (Ok::<(ResponseHead, RecvStream<S>), E>((head, stream)),),
                result,
            ) ==> {
                &&& result matches Ok(resp)
                &&& resp.head == head
                &&& call_ensures(B::from, (stream,), resp.body)
            },
        forall|result: Result<Response<B>, Error<E>>| #[trigger]
            call_ensures(
                h2_result::<S, B, E>,
                (Err::<(ResponseHead, RecvStream<S>), E>(e),),
                result,
            ) ==> result == Err::<Response<B>, Error<E>>(Error::H2(e)),
{
}

/// Of the two kinds of managers, the HTTP/1 manager is driven, and no other.
pub proof fn law_http1_is_driven<H1, H2, B, E>()
    ensures
        forall|
            manager: &mut ConnectionManager<H1, H2, B, E>,
            driven: Option<&mut Http1ConnManager<H1, B, E>>,
        | #[trigger]
            call_ensures(ConnectionManager::<H1, H2, B, E>::drive, (manager,), driven) ==> {
                &&& driven is Some <==> *manager is Http1
                &&& driven matches Some(m) ==> *manager == ConnectionManager::<H1, H2, B, E>::Http1(
                    *m,
                ) && *final(manager) == ConnectionManager::<H1, H2, B, E>::Http1(*final(m))
                &&& driven is None ==> *final(manager) == *manager
            },
{
}

/// A manager does what its stage alone would do.
pub proof fn law_manager_follows_its_stage<H, F, W, B, E>(
    first: Http1Event<B, E>,
    second: Http2Event<F, W, B, E>,
)
    ensures
        forall|
            manager: &mut Http1ConnManager<H, B, E>,
            step: Http1Step<B, E>,
            next: (Http1Stage<B, E>, Http1Step<B, E>),
        | #[trigger]
            call_ensures(Http1ConnManager::<H, B, E>::drive, (manager, first), step)
                && #[trigger] call_ensures(
                Http1Stage::<B, E>::step,
                (manager.stage, first),
                next,
            ) ==> final(manager).stage == next.0 && step == next.1,
        forall|
            manager: &mut Http2ConnManager<H, B, E>,
            step: Http2Step<F, W, B, E>,
            next: (Http2Stage<B, E>, Http2Step<F, W, B, E>),
        | #[trigger]
            call_ensures(Http2ConnManager::<H, B, E>::drive::<F, W>, (manager, second), step)
                && #[trigger] call_ensures(
                Http2Stage::<B, E>::step::<F, W>,
                (manager.stage, second),
                next,
            ) ==> final(manager).stage == next.0 && step == next.1,
{
}

/// Whatever an HTTP/1 manager is told in its turn, it replies with an error only where the request
/// could not be written, the response could not be decoded, or the peer closed the connection.
pub proof fn law_h1_errors_have_a_cause<H, B, E>(event: Http1Event<B, E>)
    ensures
        forall|manager: &mut Http1ConnManager<H, B, E>, step: Http1Step<B, E>|
            (match event {
                Http1Event::Request(_) => manager.stage is Waiting,
                Http1Event::Sent(_) => manager.stage is Sending,
                Http1Event::Response(_) => manager.stage is Reading,
                Http1Event::Data(_) => manager.stage is Streaming,
            }) && #[trigger] call_ensures(
                Http1ConnManager::<H, B, E>::drive,
                (manager, event),
                step,
            ) && (step.reply matches Some(reply) && reply.result is Err) ==> (match event {
                Http1Event::Sent(sent) => sent is Err,
                Http1Event::Response(response) => match response {
                    Some(decoded) => decoded is Err,
                    None => true,
                },
                _ => false,
            }),
{
}

} // verus!
