//! The way of a request from the client to the manager of a connection, and of the reply back.
use local_sync::{mpsc, oneshot};
use vstd::prelude::*;

use crate::common::{Request, Response};
use crate::error::Error;

verus! {

/// Whether these are the two ends of one channel.
pub open spec fn is_channel<T>(tx: mpsc::unbounded::Tx<T>, rx: mpsc::unbounded::Rx<T>) -> bool {
    call_ensures(mpsc::unbounded::channel::<T>, (), (tx, rx))
}

/// Whether these are the two ends of one channel for one value.
pub open spec fn is_oneshot<T>(tx: oneshot::Sender<T>, rx: oneshot::Receiver<T>) -> bool {
    call_ensures(oneshot::channel::<T>, (), (tx, rx))
}

/// Whether `value` was sent into a channel, with this outcome.
pub open spec fn was_sent<T>(
    tx: mpsc::unbounded::Tx<T>,
    value: T,
    outcome: Result<(), mpsc::SendError>,
) -> bool {
    call_ensures(mpsc::unbounded::Tx::<T>::send, (&tx, value), outcome)
}

/// Whether `value` was sent into a channel for one value, with this outcome.
pub open spec fn was_given<T>(tx: oneshot::Sender<T>, value: T, outcome: Result<(), T>) -> bool {
    call_ensures(oneshot::Sender::<T>::send, (tx, value), outcome)
}

/// A request, and where its reply goes.
#[verifier::reject_recursive_types(B)]
#[verifier::reject_recursive_types(E)]
pub struct Transaction<B, E> {
    pub req: Request<B>,
    pub resp_tx: oneshot::Sender<Result<Response<B>, Error<E>>>,
}

impl<B, E> Transaction<B, E> {
    pub fn parts(self) -> (parts: (
        Request<B>,
        oneshot::Sender<Result<Response<B>, Error<E>>>,
    ))
        ensures
            parts == (self.req, self.resp_tx),
    {
        (self.req, self.resp_tx)
    }
}

/// The end of a request channel that a connection manager reads.
#[verifier::reject_recursive_types(B)]
#[verifier::reject_recursive_types(E)]
pub struct SingleRecvr<B, E> {
    pub req_rx: mpsc::unbounded::Rx<Transaction<B, E>>,
}

/// The end of a request channel that one user writes.
#[verifier::reject_recursive_types(B)]
#[verifier::reject_recursive_types(E)]
pub struct SingleSender<B, E> {
    pub req_tx: mpsc::unbounded::Tx<Transaction<B, E>>,
}

/// The end of a request channel that many users write.
#[verifier::reject_recursive_types(B)]
#[verifier::reject_recursive_types(E)]
pub struct MultiSender<B, E> {
    pub req_tx: mpsc::unbounded::Tx<Transaction<B, E>>,
}

impl<B, E> SingleSender<B, E> {
    pub fn into_multi_sender(self) -> (sender: MultiSender<B, E>)
        ensures
            sender.req_tx == self.req_tx,
    {
        MultiSender { req_tx: self.req_tx }
    }
}

impl<B, E> Clone for MultiSender<B, E> {
    fn clone(&self) -> (sender: Self)
        ensures
            sender == *self,
    {
        MultiSender { req_tx: self.req_tx.clone() }
    }
}

/// A new request channel.
pub fn request_channel<B, E>() -> (channel: (SingleSender<B, E>, SingleRecvr<B, E>))
    ensures
        is_channel(channel.0.req_tx, channel.1.req_rx),
{
    let (req_tx, req_rx) = mpsc::unbounded::channel::<Transaction<B, E>>();
    (SingleSender { req_tx }, SingleRecvr { req_rx })
}

/// A reply, and where it goes.
#[verifier::reject_recursive_types(B)]
#[verifier::reject_recursive_types(E)]
pub struct Reply<B, E> {
    pub resp_tx: oneshot::Sender<Result<Response<B>, Error<E>>>,
    pub result: Result<Response<B>, Error<E>>,
}

impl<B, E> Reply<B, E> {
    /// Sends the reply. Where nobody waits for it any more, it comes back.
    pub fn deliver(self) -> (sent: Result<(), Result<Response<B>, Error<E>>>)
        ensures
            was_given(self.resp_tx, self.result, sent),
            sent matches Err(back) ==> back == self.result,
    {
        self.resp_tx.send(self.result)
    }
}

/// The way to the manager of a pooled connection.
#[verifier::reject_recursive_types(B)]
#[verifier::reject_recursive_types(E)]
pub enum PooledConnectionPipe<B, E> {
    Http1(SingleSender<B, E>),
    Http2(MultiSender<B, E>),
}

impl<B, E> Transaction<B, E> {
    /// Gives a request a place for its reply.
    pub fn open(req: Request<B>) -> (opened: (
        Self,
        oneshot::Receiver<Result<Response<B>, Error<E>>>,
    ))
        ensures
            opened.0.req == req,
            is_oneshot(opened.0.resp_tx, opened.1),
    {
        let (resp_tx, resp_rx) = oneshot::channel::<Result<Response<B>, Error<E>>>();
        (Transaction { req, resp_tx }, resp_rx)
    }
}

impl<B, E> PooledConnectionPipe<B, E> {
    /// The channel that leads to the manager.
    pub open spec fn req_tx(self) -> mpsc::unbounded::Tx<Transaction<B, E>> {
        match self {
            PooledConnectionPipe::Http1(s) => s.req_tx,
            PooledConnectionPipe::Http2(s) => s.req_tx,
        }
    }

    /// Hands a transaction to the manager. Whether that works is up to the manager.
    pub fn submit(&self, transaction: Transaction<B, E>) -> (res: Result<(), Error<E>>)
        ensures
            exists|sent: Result<(), mpsc::SendError>| #[trigger]
                was_sent(self.req_tx(), transaction, sent) && res == outcome_of::<E>(sent),
    {
        let ghost given = transaction;
        let sent = match self {
            PooledConnectionPipe::Http1(s) => s.req_tx.send(transaction),
            PooledConnectionPipe::Http2(s) => s.req_tx.send(transaction),
        };
        assert(was_sent(self.req_tx(), given, sent));
        submitted(sent)
    }

    /// Sends a request to the manager, and returns where the reply will come.
    /// [`settle`] turns what comes there into the outcome of the request.
    pub fn send_request(&mut self, req: Request<B>) -> (res: Result<
        oneshot::Receiver<Result<Response<B>, Error<E>>>,
        Error<E>,
    >)
        ensures
            *final(self) == *old(self),
            is_submitted(old(self).req_tx(), req, res),
    {
        let (transaction, resp_rx) = Transaction::open(req);
        match self.submit(transaction) {
            Ok(_) => Ok(resp_rx),
            Err(e) => Err(e),
        }
    }
}

/// What the outcome of sending a transaction means for the request.
pub open spec fn outcome_of<E>(sent: Result<(), mpsc::SendError>) -> Result<(), Error<E>> {
    match sent {
        Ok(_) => Ok(()),
        Err(_) => Err(Error::ConnManagerReqSendError),
    }
}

/// Whether `req` was sent into a channel, with a new place for its reply: `res` is where the reply
/// comes, or why it will not.
pub open spec fn is_submitted<B, E>(
    tx: mpsc::unbounded::Tx<Transaction<B, E>>,
    req: Request<B>,
    res: Result<oneshot::Receiver<Result<Response<B>, Error<E>>>, Error<E>>,
) -> bool {
    exists|
        transaction: Transaction<B, E>,
        resp_rx: oneshot::Receiver<Result<Response<B>, Error<E>>>,
        sent: Result<(), mpsc::SendError>,
    |
        {
            &&& transaction.req == req
            &&& #[trigger] is_oneshot(transaction.resp_tx, resp_rx)
            &&& #[trigger] was_sent(tx, transaction, sent)
            &&& res == (match sent {
                Ok(_) => Ok(resp_rx),
                Err(_) => Err(Error::<E>::ConnManagerReqSendError),
            })
        }
}

/// What the fate of a transaction on its way to the manager means for the request.
pub fn submitted<E>(sent: Result<(), mpsc::SendError>) -> (res: Result<(), Error<E>>)
    ensures
        res == outcome_of::<E>(sent),
{
    match sent {
        Ok(_) => Ok(()),
        Err(_) => Err(Error::ConnManagerReqSendError),
    }
}

/// What comes out of a request: the reply of the manager, or an error where the manager dropped
/// the request.
pub fn settle<B, E>(
    reply: Result<Result<Response<B>, Error<E>>, oneshot::error::RecvError>,
) -> (res: Result<Response<B>, Error<E>>)
    ensures
        res == (match reply {
            Ok(result) => result,
            Err(_) => Err(Error::<E>::ConnManagerRespRecvError),
        }),
{
    match reply {
        Ok(result) => result,
        Err(_) => Err(Error::ConnManagerRespRecvError),
    }
}

} // verus!
