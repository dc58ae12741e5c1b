//! Requests that are being put together.
use vstd::prelude::*;

use crate::common::{RequestHead, Version};
use crate::trusted::{check_method, header_append, header_map_new, parse_uri_scheme, HeaderEntry};

verus! {

/// Why a request cannot be put together.
#[derive(Debug, Clone, Copy, PartialEq, Eq, Structural)]
pub enum RequestError {
    /// The text is no method.
    InvalidMethod,
    /// The text is no URI.
    InvalidUri,
    /// There is no room for one more header.
    TooManyHeaders,
}

/// A request that is being put together. The first thing that goes wrong stays.
pub struct ClientRequest {
    pub head: Result<RequestHead, RequestError>,
}

impl ClientRequest {
    /// A request for `/` without headers and without extensions.
    pub fn new() -> (req: Self)
        ensures
            req.head matches Ok(head) && {
                &&& head.method@ == "GET"@
                &&& head.uri@ == "/"@
                &&& head.version == Version::Http11
                &&& crate::trusted::header_values(head.headers) == Map::<
                    Seq<char>,
                    Seq<Seq<u8>>,
                >::empty()
                &&& call_ensures(http::Extensions::new, (), head.extensions)
            },
    {
        ClientRequest {
            head: Ok(
                RequestHead {
                    method: "GET".to_owned(),
                    uri: "/".to_owned(),
                    version: Version::Http11,
                    headers: header_map_new(),
                    extensions: http::Extensions::new(),
                },
            ),
        }
    }

    /// The request with another method.
    pub fn method(self, method: &str) -> (req: Self)
        ensures
            match self.head {
                Ok(head) => if crate::trusted::is_method(method@) {
                    req.head matches Ok(h) && h.method@ == method@ && h == (RequestHead {
                        method: h.method,
                        ..head
                    })
                } else {
                    req.head == Err::<RequestHead, RequestError>(RequestError::InvalidMethod)
                },
                Err(e) => req == self,
            },
    {
        match self.head {
            Ok(head) => if check_method(method) {
                ClientRequest { head: Ok(RequestHead { method: method.to_owned(), ..head }) }
            } else {
                ClientRequest { head: Err(RequestError::InvalidMethod) }
            },
            Err(e) => ClientRequest { head: Err(e) },
        }
    }

    /// The request with another URI.
    pub fn uri(self, uri: &str) -> (req: Self)
        ensures
            match self.head {
                Ok(head) => if crate::trusted::uri_scheme(uri@) is Some {
                    req.head matches Ok(h) && h.uri@ == uri@ && h == (RequestHead {
                        uri: h.uri,
                        ..head
                    })
                } else {
                    req.head == Err::<RequestHead, RequestError>(RequestError::InvalidUri)
                },
                Err(e) => req == self,
            },
    {
        match self.head {
            Ok(head) => match parse_uri_scheme(uri) {
                Some(_) => ClientRequest { head: Ok(RequestHead { uri: uri.to_owned(), ..head }) },
                None => ClientRequest { head: Err(RequestError::InvalidUri) },
            },
            Err(e) => ClientRequest { head: Err(e) },
        }
    }

    /// The request with one more header. A request of few headers always takes one more.
    pub fn header(self, entry: &HeaderEntry) -> (req: Self)
        ensures
            match self.head {
                Ok(head) => match req.head {
                    Ok(h) => h == (RequestHead { headers: h.headers, ..head })
                        && crate::trusted::header_values(h.headers) == crate::trusted::with_value(
                        crate::trusted::header_values(head.headers),
                        crate::trusted::header_name(entry.name),
                        crate::trusted::header_value(entry.value),
                    ),
                    Err(e) => e == RequestError::TooManyHeaders && !crate::trusted::has_room(
                        crate::trusted::header_values(head.headers),
                    ),
                },
                Err(e) => req == self,
            },
    {
        match self.head {
            Ok(head) => {
                let mut head = head;
                match header_append(&mut head.headers, &entry.name, &entry.value) {
                    Ok(_) => ClientRequest { head: Ok(head) },
                    Err(_) => ClientRequest { head: Err(RequestError::TooManyHeaders) },
                }
            },
            Err(e) => ClientRequest { head: Err(e) },
        }
    }
}

} // verus!
