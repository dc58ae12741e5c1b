//! Laws on putting messages together and taking them apart.
use http::HeaderMap;
use vstd::prelude::*;

use crate::common::{
    BorrowHeaderMap, FromParts, IntoParts, Request, RequestHead, Response, ResponseHead,
};

verus! {

/// A request has the head and the body that it is put together from.
pub proof fn law_request_has_its_parts<B>(head: RequestHead, body: B)
    ensures
        forall|req: Request<B>| #[trigger]
            call_ensures(<Request<B> as FromParts<RequestHead, B>>::from_parts, (head, body), req)
                ==> req.head == head && req.body == body,
{
}

/// A request comes apart into its head and its body.
pub proof fn law_request_comes_apart<B>(req: Request<B>)
    ensures
        forall|parts: (RequestHead, B)| #[trigger]
            call_ensures(<Request<B> as IntoParts>::into_parts, (req,), parts) ==> parts.0
                == req.head && parts.1 == req.body,
{
}

/// A response has the head and the body that it is put together from.
pub proof fn law_response_has_its_parts<B>(head: ResponseHead, body: B)
    ensures
        forall|resp: Response<B>| #[trigger]
            call_ensures(
                <Response<B> as FromParts<ResponseHead, B>>::from_parts,
                (head, body),
                resp,
            ) ==> resp.head == head && resp.body == body,
{
}

/// A response comes apart into its head and its body.
pub proof fn law_response_comes_apart<B>(resp: Response<B>)
    ensures
        forall|parts: (ResponseHead, B)| #[trigger]
            call_ensures(<Response<B> as IntoParts>::into_parts, (resp,), parts) ==> parts.0
                == resp.head && parts.1 == resp.body,
{
}

/// The headers that a message lends are its own; what is written to them is then its headers, and
/// nothing else of it changes.
pub proof fn law_headers_are_lent<B>()
    ensures
        forall|req: Request<B>, headers: &HeaderMap| #[trigger]
            call_ensures(<Request<B> as BorrowHeaderMap>::header_map, (&req,), headers)
                ==> *headers == req.head.headers,
        forall|resp: Response<B>, headers: &HeaderMap| #[trigger]
            call_ensures(<Response<B> as BorrowHeaderMap>::header_map, (&resp,), headers)
                ==> *headers == resp.head.headers,
        forall|req: &mut Request<B>, headers: &mut HeaderMap| #[trigger]
            call_ensures(<Request<B> as BorrowHeaderMap>::header_map_mut, (req,), headers) ==> {
                &&& *headers == req.head.headers
                &&& final(req).head.headers == *final(headers)
                &&& final(req).head.method == req.head.method
                &&& final(req).head.uri == req.head.uri
                &&& final(req).head.version == req.head.version
                &&& final(req).head.extensions == req.head.extensions
                &&& final(req).body == req.body
            },
        forall|resp: &mut Response<B>, headers: &mut HeaderMap| #[trigger]
            call_ensures(<Response<B> as BorrowHeaderMap>::header_map_mut, (resp,), headers) ==> {
                &&& *headers == resp.head.headers
                &&& final(resp).head.headers == *final(headers)
                &&& final(resp).head.status == resp.head.status
                &&& final(resp).head.version == resp.head.version
                &&& final(resp).head.extensions == resp.head.extensions
                &&& final(resp).body == resp.body
            },
{
}

} // verus!
