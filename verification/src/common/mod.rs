//! What HTTP/1 and HTTP/2 messages have in common.
use bytes::Bytes;
use http::HeaderMap;
use vstd::prelude::*;

pub mod body;

verus! {

/// A message that is put together from its head and its body.
pub trait FromParts<P, B = Bytes>: Sized {
    fn from_parts(parts: P, body: B) -> Self;
}

/// A message that comes apart into its head and its body.
pub trait IntoParts: Sized {
    type Parts;

    type Body;

    fn into_parts(self) -> (Self::Parts, Self::Body);
}

/// A message whose headers can be read and changed.
pub trait BorrowHeaderMap {
    fn header_map(&self) -> &HeaderMap;

    fn header_map_mut(&mut self) -> &mut HeaderMap;
}

/// A version of HTTP.
#[derive(Debug, Clone, Copy, PartialEq, Eq, Structural)]
pub enum Version {
    Http09,
    Http10,
    Http11,
    H2,
    H3,
}

/// What stands before the body of a request.
pub struct RequestHead {
    pub method: String,
    pub uri: String,
    pub version: Version,
    pub headers: HeaderMap,
    pub extensions: http::Extensions,
}

/// What stands before the body of a response.
pub struct ResponseHead {
    pub status: u16,
    pub version: Version,
    pub headers: HeaderMap,
    pub extensions: http::Extensions,
}

/// A request.
pub struct Request<B> {
    pub head: RequestHead,
    pub body: B,
}

/// A response.
pub struct Response<B> {
    pub head: ResponseHead,
    pub body: B,
}

impl<B> FromParts<RequestHead, B> for Request<B> {
    fn from_parts(parts: RequestHead, body: B) -> (req: Self)
        ensures
            req == (Request { head: parts, body }),
    {
        Request { head: parts, body }
    }
}

impl<B> IntoParts for Request<B> {
    type Parts = RequestHead;

    type Body = B;

    fn into_parts(self) -> (parts: (RequestHead, B))
        ensures
            parts == (self.head, self.body),
    {
        (self.head, self.body)
    }
}

impl<B> BorrowHeaderMap for Request<B> {
    fn header_map(&self) -> (headers: &HeaderMap)
        ensures
            *headers == self.head.headers,
    {
        &self.head.headers
    }

    fn header_map_mut(&mut self) -> (headers: &mut HeaderMap)
        ensures
            *headers == old(self).head.headers,
            *final(self) == (Request {
                head: RequestHead { headers: *final(headers), ..old(self).head },
                body: old(self).body,
            }),
    {
        &mut self.head.headers
    }
}

impl<B> FromParts<ResponseHead, B> for Response<B> {
    fn from_parts(parts: ResponseHead, body: B) -> (resp: Self)
        ensures
            resp == (Response { head: parts, body }),
    {
        Response { head: parts, body }
    }
}

impl<B> IntoParts for Response<B> {
    type Parts = ResponseHead;

    type Body = B;

    fn into_parts(self) -> (parts: (ResponseHead, B))
        ensures
            parts == (self.head, self.body),
    {
        (self.head, self.body)
    }
}

impl<B> BorrowHeaderMap for Response<B> {
    fn header_map(&self) -> (headers: &HeaderMap)
        ensures
            *headers == self.head.headers,
    {
        &self.head.headers
    }

    fn header_map_mut(&mut self) -> (headers: &mut HeaderMap)
        ensures
            *headers == old(self).head.headers,
            *final(self) == (Response {
                head: ResponseHead { headers: *final(headers), ..old(self).head },
                body: old(self).body,
            }),
    {
        &mut self.head.headers
    }
}

/// A request that is put together comes apart into the same head and body.
pub proof fn law_request_round_trip<B>(
    head: RequestHead,
    body: B,
    req: Request<B>,
    parts: (RequestHead, B),
)
    requires
        call_ensures(<Request<B> as FromParts<RequestHead, B>>::from_parts, (head, body), req),
        call_ensures(<Request<B> as IntoParts>::into_parts, (req,), parts),
    ensures
        parts == (head, body),
{
}

/// A response that is put together comes apart into the same head and body.
pub proof fn law_response_round_trip<B>(
    head: ResponseHead,
    body: B,
    resp: Response<B>,
    parts: (ResponseHead, B),
)
    requires
        call_ensures(<Response<B> as FromParts<ResponseHead, B>>::from_parts, (head, body), resp),
        call_ensures(<Response<B> as IntoParts>::into_parts, (resp,), parts),
    ensures
        parts == (head, body),
{
}

} // verus!
