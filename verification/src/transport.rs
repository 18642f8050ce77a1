//! The two transports that a session can be carried by.

use vstd::prelude::*;

verus! {

/// What a session, or a stream of it, is carried by.
#[derive(Clone, Copy, PartialEq, Eq, Debug, Structural)]
pub enum Transport {
    /// QUIC, for browsers with WebTransport.
    Quinn,
    /// A WebSocket, for browsers without.
    WebSocket,
}

/// What a transport answered to a call: a result of its own, or an error of its own.
/// The errors of a WebSocket are given by their text.
pub enum Reply<Q, E, W> {
    Quinn(Result<Q, E>),
    WebSocket(Result<W, String>),
}

impl<Q, E, W> Reply<Q, E, W> {
    /// The transport that answered.
    pub open spec fn transport(self) -> Transport {
        match self {
            Reply::Quinn(_) => Transport::Quinn,
            Reply::WebSocket(_) => Transport::WebSocket,
        }
    }
}

/// An answer is of the transport that gave it.
pub proof fn law_answer_has_one_transport<Q, E, W>(reply: Reply<Q, E, W>)
    ensures
        reply.transport() == Transport::Quinn <==> reply is Quinn,
        reply.transport() == Transport::WebSocket <==> reply is WebSocket,
{
}

} // verus!
