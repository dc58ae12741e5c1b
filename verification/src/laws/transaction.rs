//! Laws on requests on their way to a connection, and replies on their way back.
use local_sync::{mpsc, oneshot};
use vstd::prelude::*;

use crate::client::transaction::{
    request_channel, settle, submitted, MultiSender, PooledConnectionPipe, Reply, SingleRecvr,
    SingleSender, Transaction,
};
use crate::common::{Request, Response};
use crate::error::{Error, IoErrorKind};

verus! {

/// A transaction has the request that it was opened for, and comes apart into that and the place for
/// the reply, which is where the reply is then read.
pub proof fn law_transaction_has_its_request<B, E>(
    req: Request<B>,
    resp_tx: oneshot::Sender<Result<Response<B>, Error<E>>>,
)
    ensures
        forall|
            opened: (Transaction<B, E>, oneshot::Receiver<Result<Response<B>, Error<E>>>),
        | #[trigger]
            call_ensures(Transaction::<B, E>::open, (req,), opened) ==> {
                &&& opened.0.req == req
                &&& call_ensures(
                    oneshot::channel::<Result<Response<B>, Error<E>>>,
                    (),
                    (opened.0.resp_tx, opened.1),
                )
            },
        forall|parts: (Request<B>, oneshot::Sender<Result<Response<B>, Error<E>>>)| #[trigger]
            call_ensures(
                Transaction::<B, E>::parts,
                (Transaction::<B, E> { req, resp_tx },),
                parts,
            ) ==> parts.0 == req && parts.1 == resp_tx,
{
}

/// The two ends of a request channel are of one channel. A sender that becomes one of many is on the
/// same channel, and so is each of its clones.
pub proof fn law_ends_are_of_one_channel<B, E>(single: SingleSender<B, E>, many: MultiSender<B, E>)
    ensures
        forall|channel: (SingleSender<B, E>, SingleRecvr<B, E>)| #[trigger]
            call_ensures(request_channel::<B, E>, (), channel) ==> call_ensures(
                mpsc::unbounded::channel::<Transaction<B, E>>,
                (),
                (channel.0.req_tx, channel.1.req_rx),
            ),
        forall|sender: MultiSender<B, E>| #[trigger]
            call_ensures(SingleSender::<B, E>::into_multi_sender, (single,), sender)
                ==> sender.req_tx == single.req_tx,
        forall|sender: MultiSender<B, E>| #[trigger]
            call_ensures(<MultiSender<B, E> as Clone>::clone, (&many,), sender) ==> sender.req_tx
                == many.req_tx,
{
}

/// A transaction is sent into the channel of the pipe, as it is, and the outcome is an error exactly
/// where that failed.
pub proof fn law_transaction_is_sent<B, E>(
    tx: mpsc::unbounded::Tx<Transaction<B, E>>,
    pipe: PooledConnectionPipe<B, E>,
    transaction: Transaction<B, E>,
)
    requires
        pipe == PooledConnectionPipe::Http1(SingleSender { req_tx: tx }) || pipe
            == PooledConnectionPipe::Http2(MultiSender { req_tx: tx }),
    ensures
        forall|res: Result<(), Error<E>>| #[trigger]
            call_ensures(PooledConnectionPipe::<B, E>::submit, (&pipe, transaction), res)
                ==> exists|sent: Result<(), mpsc::SendError>| #[trigger]
                call_ensures(
                    mpsc::unbounded::Tx::<Transaction<B, E>>::send,
                    (&tx, transaction),
                    sent,
                ) && (sent is Ok <==> res is Ok),
        forall|res: Result<(), Error<E>>| #[trigger]
            call_ensures(PooledConnectionPipe::<B, E>::submit, (&pipe, transaction), res)
                ==> (res matches Err(e) ==> e is ConnManagerReqSendError),
{
    assert forall|res: Result<(), Error<E>>| #[trigger]
        call_ensures(
            PooledConnectionPipe::<B, E>::submit,
            (&pipe, transaction),
            res,
        ) implies exists|sent: Result<(), mpsc::SendError>| #[trigger]
        call_ensures(mpsc::unbounded::Tx::<Transaction<B, E>>::send, (&tx, transaction), sent) && (
        sent is Ok <==> res is Ok) by {
        let sent = choose|sent: Result<(), mpsc::SendError>| #[trigger]
            crate::client::transaction::was_sent(pipe.req_tx(), transaction, sent) && res
                == crate::client::transaction::outcome_of::<E>(sent);
        assert(call_ensures(
            mpsc::unbounded::Tx::<Transaction<B, E>>::send,
            (&tx, transaction),
            sent,
        ));
    }
}

/// A request is sent into the channel of the pipe, as it is, with a new place for its reply. What
/// comes back is where that reply is read, or an error exactly where the sending failed. The pipe
/// stays as it is.
pub proof fn law_request_is_sent<B, E>(
    tx: mpsc::unbounded::Tx<Transaction<B, E>>,
    pipe: PooledConnectionPipe<B, E>,
    req: Request<B>,
)
    requires
        pipe == PooledConnectionPipe::Http1(SingleSender { req_tx: tx }) || pipe
            == PooledConnectionPipe::Http2(MultiSender { req_tx: tx }),
    ensures
        forall|
            p: &mut PooledConnectionPipe<B, E>,
            res: Result<oneshot::Receiver<Result<Response<B>, Error<E>>>, Error<E>>,
        |
            *p == pipe && #[trigger] call_ensures(
                PooledConnectionPipe::<B, E>::send_request,
                (p, req),
                res,
            ) ==> *final(p) == pipe && is_on_its_way(tx, req, res),
{
    assert forall|
        p: &mut PooledConnectionPipe<B, E>,
        res: Result<oneshot::Receiver<Result<Response<B>, Error<E>>>, Error<E>>,
    |
        *p == pipe && #[trigger] call_ensures(
            PooledConnectionPipe::<B, E>::send_request,
            (p, req),
            res,
        ) implies *final(p) == pipe && is_on_its_way(tx, req, res) by {
        lemma_on_its_way(tx, req, res);
    }
}

/// Whether a request was sent into a channel: with a place for the reply that is read at `res`, or
/// with an error where the sending failed.
pub open spec fn is_on_its_way<B, E>(
    tx: mpsc::unbounded::Tx<Transaction<B, E>>,
    req: Request<B>,
    res: Result<oneshot::Receiver<Result<Response<B>, Error<E>>>, Error<E>>,
) -> bool {
    exists|
        resp_tx: oneshot::Sender<Result<Response<B>, Error<E>>>,
        resp_rx: oneshot::Receiver<Result<Response<B>, Error<E>>>,
        sent: Result<(), mpsc::SendError>,
    |
        {
            &&& #[trigger] call_ensures(
                oneshot::channel::<Result<Response<B>, Error<E>>>,
                (),
                (resp_tx, resp_rx),
            )
            &&& #[trigger] call_ensures(
                mpsc::unbounded::Tx::<Transaction<B, E>>::send,
                (&tx, Transaction { req, resp_tx }),
                sent,
            )
            &&& sent is Ok ==> res == Ok::<_, Error<E>>(resp_rx)
            &&& sent is Err ==> (res matches Err(e) && e is ConnManagerReqSendError)
        }
}

/// A request that is submitted is on its way.
pub(crate) proof fn lemma_on_its_way<B, E>(
    tx: mpsc::unbounded::Tx<Transaction<B, E>>,
    req: Request<B>,
    res: Result<oneshot::Receiver<Result<Response<B>, Error<E>>>, Error<E>>,
)
    requires
        crate::client::transaction::is_submitted(tx, req, res),
    ensures
        is_on_its_way(tx, req, res),
{
    let (t, resp_rx, sent) = choose|
        t: Transaction<B, E>,
        resp_rx: oneshot::Receiver<Result<Response<B>, Error<E>>>,
        sent: Result<(), mpsc::SendError>,
    |
        {
            &&& t.req == req
            &&& #[trigger] crate::client::transaction::is_oneshot(t.resp_tx, resp_rx)
            &&& #[trigger] crate::client::transaction::was_sent(tx, t, sent)
            &&& res == (match sent {
                Ok(_) => Ok(resp_rx),
                Err(_) => Err(Error::<E>::ConnManagerReqSendError),
            })
        };
    let resp_tx = t.resp_tx;
    assert(t == (Transaction { req, resp_tx }));
    assert(call_ensures(
        oneshot::channel::<Result<Response<B>, Error<E>>>,
        (),
        (resp_tx, resp_rx),
    ));
    assert(call_ensures(
        mpsc::unbounded::Tx::<Transaction<B, E>>::send,
        (&tx, Transaction { req, resp_tx }),
        sent,
    ));
}

/// The reply of a manager is the outcome of the request, whatever it is; a request that is dropped
/// without a reply, or that could not be submitted, has an error of its own.
pub proof fn law_reply_is_the_outcome<B, E>(
    result: Result<Response<B>, Error<E>>,
    lost: oneshot::error::RecvError,
    closed: mpsc::SendError,
)
    ensures
        forall|res: Result<Response<B>, Error<E>>| #[trigger]
            call_ensures(
                settle::<B, E>,
                (Ok::<Result<Response<B>, Error<E>>, oneshot::error::RecvError>(result),),
                res,
            ) ==> res == result,
        forall|res: Result<Response<B>, Error<E>>| #[trigger]
            call_ensures(
                settle::<B, E>,
                (Err::<Result<Response<B>, Error<E>>, oneshot::error::RecvError>(lost),),
                res,
            ) ==> res == Err::<Response<B>, Error<E>>(Error::ConnManagerRespRecvError),
        forall|res: Result<(), Error<E>>| #[trigger]
            call_ensures(submitted::<E>, (Ok::<(), mpsc::SendError>(()),), res) ==> res is Ok,
        forall|res: Result<(), Error<E>>| #[trigger]
            call_ensures(submitted::<E>, (Err::<(), mpsc::SendError>(closed),), res) ==> res == Err::<
                (),
                Error<E>,
            >(Error::ConnManagerReqSendError),
{
}

/// A reply is sent to where it is awaited, as it is. Where nobody awaits it, it comes back.
pub proof fn law_reply_is_delivered<B, E>(reply: Reply<B, E>)
    ensures
        forall|sent: Result<(), Result<Response<B>, Error<E>>>| #[trigger]
            call_ensures(Reply::<B, E>::deliver, (reply,), sent) ==> {
                &&& call_ensures(
                    oneshot::Sender::<Result<Response<B>, Error<E>>>::send,
                    (reply.resp_tx, reply.result),
                    sent,
                )
                &&& sent matches Err(back) ==> back == reply.result
            },
{
}

/// The message of an error.
pub proof fn law_eof_has_its_message(kind: IoErrorKind)
    ensures
        forall|text: &'static str| #[trigger]
            call_ensures(IoErrorKind::message, (&kind,), text) ==> text@
                == "unexpected eof when read response"@,
{
}

} // verus!
