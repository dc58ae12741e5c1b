//! Laws on reading bodies.
use bytes::Bytes;
use vstd::prelude::*;

use crate::common::body::{
    h1_data, h2_data, Body, FramedPayloadRecvr, HttpBody, HttpError, NextData, OwnedBody,
    RecvStream, StreamHint,
};

verus! {

/// The next chunk of a body that comes over HTTP/1 is what its payload yields, whatever the payload
/// hints at, and asking for it leaves the body as it is.
pub proof fn law_payload_is_read<S: Body, E>(payload: FramedPayloadRecvr<E>)
    ensures
        forall|body: &mut HttpBody<S, E>, next: NextData<E, <S as Body>::Error>|
            *body == HttpBody::<S, E>::H1(payload) && #[trigger] call_ensures(
                HttpBody::<S, E>::next_data,
                (body,),
                next,
            ) ==> next is FromH1 && *final(body) == HttpBody::<S, E>::H1(payload),
{
}

/// The next chunk of a body that comes over HTTP/2 is what its stream yields, whatever the stream,
/// and asking for it leaves the body as it is.
pub proof fn law_stream_is_read<S: Body, E>(stream: RecvStream<S>)
    ensures
        forall|body: &mut HttpBody<S, E>, next: NextData<E, <S as Body>::Error>|
            *body == HttpBody::<S, E>::H2(stream) && #[trigger] call_ensures(
                HttpBody::<S, E>::next_data,
                (body,),
                next,
            ) ==> next is FromH2 && *final(body) == HttpBody::<S, E>::H2(stream),
{
}

/// The next chunk of a body whose data is at hand is that data, all of it, and then the body has
/// none. The end is there exactly where there is no data.
pub proof fn law_data_at_hand_is_read<S: Body, E>(data: Option<Bytes>)
    ensures
        forall|body: &mut HttpBody<S, E>, next: NextData<E, <S as Body>::Error>|
            *body == HttpBody::<S, E>::Ready(data) && #[trigger] call_ensures(
                HttpBody::<S, E>::next_data,
                (body,),
                next,
            ) ==> {
                &&& next matches NextData::Now(chunk)
                &&& chunk is Some <==> data is Some
                &&& chunk matches Some(result) ==> result matches Ok(bytes) && Some(bytes) == data
                &&& *final(body) == HttpBody::<S, E>::Ready(None)
            },
{
}

/// What a payload yields, a body over HTTP/1 yields: the same bytes, the same error, the same end.
pub proof fn law_payload_is_passed_on<E, H>(bytes: Bytes, e: E)
    ensures
        forall|chunk: Option<Result<Bytes, HttpError<E, H>>>| #[trigger]
            call_ensures(h1_data::<E, H>, (Some(Ok::<Bytes, E>(bytes)),), chunk) ==> chunk
                == Some(Ok::<Bytes, HttpError<E, H>>(bytes)),
        forall|chunk: Option<Result<Bytes, HttpError<E, H>>>| #[trigger]
            call_ensures(h1_data::<E, H>, (Some(Err::<Bytes, E>(e)),), chunk) ==> chunk
                == Some(Err::<Bytes, HttpError<E, H>>(HttpError::H1(e))),
        forall|chunk: Option<Result<Bytes, HttpError<E, H>>>| #[trigger]
            call_ensures(h1_data::<E, H>, (None::<Result<Bytes, E>>,), chunk) ==> chunk is None,
{
}

/// What a stream yields, a body over HTTP/2 yields: the same bytes, the same error, the same end.
pub proof fn law_stream_is_passed_on<E, H>(bytes: Bytes, e: H)
    ensures
        forall|chunk: Option<Result<Bytes, HttpError<E, H>>>| #[trigger]
            call_ensures(h2_data::<E, H>, (Some(Ok::<Bytes, H>(bytes)),), chunk) ==> chunk
                == Some(Ok::<Bytes, HttpError<E, H>>(bytes)),
        forall|chunk: Option<Result<Bytes, HttpError<E, H>>>| #[trigger]
            call_ensures(h2_data::<E, H>, (Some(Err::<Bytes, H>(e)),), chunk) ==> chunk
                == Some(Err::<Bytes, HttpError<E, H>>(HttpError::H2(e))),
        forall|chunk: Option<Result<Bytes, HttpError<E, H>>>| #[trigger]
            call_ensures(h2_data::<E, H>, (None::<Result<Bytes, H>>,), chunk) ==> chunk is None,
{
}

/// The hint of a body is that of where its data comes from; data at hand is one chunk, also once it
/// was read.
pub proof fn law_hint_is_of_the_source<S: Body, E>(
    payload: FramedPayloadRecvr<E>,
    stream: RecvStream<S>,
    data: Option<Bytes>,
)
    ensures
        forall|hint: StreamHint| #[trigger]
            call_ensures(
                <FramedPayloadRecvr<E> as Body>::stream_hint,
                (&payload,),
                hint,
            ) ==> hint == payload.hint,
        forall|hint: StreamHint| #[trigger]
            call_ensures(<RecvStream<S> as Body>::stream_hint, (&stream,), hint) ==> call_ensures(
                <S as Body>::stream_hint,
                (&stream.stream,),
                hint,
            ),
        forall|hint: StreamHint| #[trigger]
            call_ensures(
                <HttpBody<S, E> as Body>::stream_hint,
                (&HttpBody::<S, E>::H1(payload),),
                hint,
            ) ==> hint == payload.hint,
        forall|hint: StreamHint| #[trigger]
            call_ensures(
                <HttpBody<S, E> as Body>::stream_hint,
                (&HttpBody::<S, E>::H2(stream),),
                hint,
            ) ==> call_ensures(<S as Body>::stream_hint, (&stream.stream,), hint),
        forall|hint: StreamHint| #[trigger]
            call_ensures(
                <HttpBody<S, E> as Body>::stream_hint,
                (&HttpBody::<S, E>::Ready(data),),
                hint,
            ) ==> hint is Fixed,
{
}

/// The hint of a body that is polled in place is its own.
pub proof fn law_hint_of_polled_body<T: OwnedBody>(body: T)
    ensures
        forall|hint: StreamHint| #[trigger]
            call_ensures(<T as Body>::stream_hint, (&body,), hint) ==> call_ensures(
                <T as OwnedBody>::stream_hint,
                (&body,),
                hint,
            ),
{
}

/// A body that is made of a payload or of a stream has that payload or that stream, whatever it is;
/// one that is made of nothing has no data.
pub proof fn law_body_is_made_of_its_source<S, E>(
    payload: FramedPayloadRecvr<E>,
    stream: RecvStream<S>,
)
    ensures
        forall|body: HttpBody<S, E>| #[trigger]
            call_ensures(
                <HttpBody<S, E> as From<FramedPayloadRecvr<E>>>::from,
                (payload,),
                body,
            ) ==> body == HttpBody::<S, E>::H1(payload),
        forall|body: HttpBody<S, E>| #[trigger]
            call_ensures(<HttpBody<S, E> as From<RecvStream<S>>>::from, (stream,), body) ==> body
                == HttpBody::<S, E>::H2(stream),
        forall|body: HttpBody<S, E>| #[trigger]
            call_ensures(<HttpBody<S, E> as Default>::default, (), body) ==> body
                == HttpBody::<S, E>::Ready(None),
{
}

} // verus!
