//! The errors of the client.
use vstd::prelude::*;

verus! {

/// The kind of an input or output error that the client itself raises.
#[derive(Debug, Clone, Copy, PartialEq, Eq, Structural)]
pub enum IoErrorKind {
    /// The peer closed the connection where a response was due.
    UnexpectedEof,
}

impl IoErrorKind {
    /// The text that goes with the kind.
    pub fn message(&self) -> (text: &'static str)
        ensures
            text@ == "unexpected eof when read response"@,
    {
        match self {
            IoErrorKind::UnexpectedEof => "unexpected eof when read response",
        }
    }
}

/// Why a request got no response. `E` is the error type of the transport.
#[derive(Debug)]
pub enum Error<E> {
    /// The request could not be written to an HTTP/1 connection.
    H1Encode(E),
    /// The response could not be read off an HTTP/1 connection.
    H1Decode(E),
    /// The HTTP/2 connection failed.
    H2(E),
    /// The connection failed.
    Io(IoErrorKind),
    /// The connection manager no longer takes requests.
    ConnManagerReqSendError,
    /// The connection manager gave the request up without a reply.
    ConnManagerRespRecvError,
}

} // verus!
