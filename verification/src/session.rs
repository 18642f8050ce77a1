//! A WebTransport session over QUIC or over a WebSocket, behind one type.
//!
//! Calls on a session are made in two parts. The call itself goes to the transport,
//! and takes its time; what the transport answers is then given to the method of the
//! same name here, which says what the answer means to the caller.

use vstd::prelude::*;
use vstd::string::*;
use bytes::Bytes;
use web_transport_quinn::RecvStream as QuinnRecvStream;
use web_transport_quinn::SendStream as QuinnSendStream;
use web_transport_quinn::Session as QuinnSession;
use web_transport_quinn::SessionError as QuinnSessionError;
use web_transport_ws::RecvStream as WsRecvStream;
use web_transport_ws::SendStream as WsSendStream;
use web_transport_ws::Session as WsSession;
use crate::error::{labelled, SessionError};
use crate::recv_stream::RecvStream;
use crate::send_stream::SendStream;
use crate::transport::{Reply, Transport};

verus! {

/// A session, over QUIC or over a WebSocket.
pub enum Session {
    /// Over QUIC.
    Quinn(QuinnSession),
    /// Over a WebSocket.
    WebSocket(WsSession),
}

/// The call that closes a session.
pub enum CloseCall {
    /// Close this QUIC session, with a code and with a reason in bytes.
    Quinn(QuinnSession, u32, Vec<u8>),
    /// Close this WebSocket session, with a code and a reason.
    WebSocket(WsSession, u32, String),
}

/// What a transport answers when it opens or accepts a bidirectional stream.
pub type BiReply = Reply<
    (QuinnSendStream, QuinnRecvStream),
    QuinnSessionError,
    (WsSendStream, WsRecvStream),
>;

/// The two halves of a bidirectional stream, or the error, that the answer stands
/// for.
pub open spec fn bi_result(reply: BiReply) -> Result<(SendStream, RecvStream), SessionError> {
    match reply {
        Reply::Quinn(Ok(halves)) => Ok((SendStream::Quinn(halves.0), RecvStream::Quinn(halves.1))),
        Reply::Quinn(Err(e)) => Err(SessionError::Quinn(e)),
        Reply::WebSocket(Ok(halves)) => Ok(
            (SendStream::WebSocket(halves.0), RecvStream::WebSocket(halves.1)),
        ),
        Reply::WebSocket(Err(detail)) => Err(SessionError::WebSocket(detail)),
    }
}

/// What a transport answers when the peer creates a unidirectional stream.
pub type RecvReply = Reply<QuinnRecvStream, QuinnSessionError, WsRecvStream>;

/// What a transport answers when it opens a unidirectional stream.
pub type SendReply = Reply<QuinnSendStream, QuinnSessionError, WsSendStream>;

/// The stream, or the error, that the answer stands for.
pub open spec fn recv_result(reply: RecvReply) -> Result<RecvStream, SessionError> {
    match reply {
        Reply::Quinn(Ok(stream)) => Ok(RecvStream::Quinn(stream)),
        Reply::Quinn(Err(e)) => Err(SessionError::Quinn(e)),
        Reply::WebSocket(Ok(stream)) => Ok(RecvStream::WebSocket(stream)),
        Reply::WebSocket(Err(detail)) => Err(SessionError::WebSocket(detail)),
    }
}

/// The stream, or the error, that the answer stands for.
pub open spec fn send_result(reply: SendReply) -> Result<SendStream, SessionError> {
    match reply {
        Reply::Quinn(Ok(stream)) => Ok(SendStream::Quinn(stream)),
        Reply::Quinn(Err(e)) => Err(SessionError::Quinn(e)),
        Reply::WebSocket(Ok(stream)) => Ok(SendStream::WebSocket(stream)),
        Reply::WebSocket(Err(detail)) => Err(SessionError::WebSocket(detail)),
    }
}

/// What comes of a datagram that was handed to a QUIC session.
pub open spec fn sent_result(reply: Result<(), QuinnSessionError>) -> Result<(), SessionError> {
    match reply {
        Ok(()) => Ok(()),
        Err(e) => Err(SessionError::Quinn(e)),
    }
}

fn bi_streams(reply: BiReply) -> (res: Result<(SendStream, RecvStream), SessionError>)
    ensures
        res == bi_result(reply),
{
    match reply {
        Reply::Quinn(Ok((send, recv))) => Ok((SendStream::Quinn(send), RecvStream::Quinn(recv))),
        Reply::Quinn(Err(e)) => Err(SessionError::Quinn(e)),
        Reply::WebSocket(Ok((send, recv))) => Ok(
            (SendStream::WebSocket(send), RecvStream::WebSocket(recv)),
        ),
        Reply::WebSocket(Err(detail)) => Err(SessionError::WebSocket(detail)),
    }
}

impl Session {
    /// What carries the session.
    pub open spec fn transport(self) -> Transport {
        match self {
            Session::Quinn(_) => Transport::Quinn,
            Session::WebSocket(_) => Transport::WebSocket,
        }
    }

    /// Whether this is the call that closes the session, with this code and this reason.
    pub open spec fn is_closed_by(self, code: u32, reason: &str, call: CloseCall) -> bool {
        match self {
            Session::Quinn(session) => call matches CloseCall::Quinn(s, c, bytes) && s == session && c
                == code && bytes@ == reason.spec_bytes(),
            Session::WebSocket(session) => call matches CloseCall::WebSocket(s, c, text) && s
                == session && c == code && text@ == reason@,
        }
    }

    /// The peer has created a unidirectional stream, or the session broke.
    pub fn accept_uni(
        &self,
        reply: Reply<QuinnRecvStream, QuinnSessionError, WsRecvStream>,
    ) -> (res: Result<RecvStream, SessionError>)
        requires
            reply.transport() == self.transport(),
        ensures
            res == recv_result(reply),
            res == match reply {
                Reply::Quinn(Ok(stream)) => Ok(RecvStream::Quinn(stream)),
                Reply::Quinn(Err(e)) => Err(SessionError::Quinn(e)),
                Reply::WebSocket(Ok(stream)) => Ok(RecvStream::WebSocket(stream)),
                Reply::WebSocket(Err(detail)) => Err(SessionError::WebSocket(detail)),
            },
            res matches Ok(stream) ==> stream.transport() == self.transport(),
            res matches Err(e) ==> e.comes_from(self.transport()),
    {
        match reply {
            Reply::Quinn(Ok(stream)) => Ok(RecvStream::Quinn(stream)),
            Reply::Quinn(Err(e)) => Err(SessionError::Quinn(e)),
            Reply::WebSocket(Ok(stream)) => Ok(RecvStream::WebSocket(stream)),
            Reply::WebSocket(Err(detail)) => Err(SessionError::WebSocket(detail)),
        }
    }

    /// The peer has created a bidirectional stream, or the session broke.
    pub fn accept_bi(&self, reply: BiReply) -> (res: Result<(SendStream, RecvStream), SessionError>)
        requires
            reply.transport() == self.transport(),
        ensures
            res == bi_result(reply),
            res matches Ok(halves) ==> halves.0.transport() == self.transport()
                && halves.1.transport() == self.transport(),
            res matches Err(e) ==> e.comes_from(self.transport()),
    {
        bi_streams(reply)
    }

    /// A bidirectional stream has been opened, or the session broke.
    pub fn open_bi(&self, reply: BiReply) -> (res: Result<(SendStream, RecvStream), SessionError>)
        requires
            reply.transport() == self.transport(),
        ensures
            res == bi_result(reply),
            res matches Ok(halves) ==> halves.0.transport() == self.transport()
                && halves.1.transport() == self.transport(),
            res matches Err(e) ==> e.comes_from(self.transport()),
    {
        bi_streams(reply)
    }

    /// A unidirectional stream has been opened, or the session broke.
    pub fn open_uni(
        &self,
        reply: Reply<QuinnSendStream, QuinnSessionError, WsSendStream>,
    ) -> (res: Result<SendStream, SessionError>)
        requires
            reply.transport() == self.transport(),
        ensures
            res == send_result(reply),
            res == match reply {
                Reply::Quinn(Ok(stream)) => Ok(SendStream::Quinn(stream)),
                Reply::Quinn(Err(e)) => Err(SessionError::Quinn(e)),
                Reply::WebSocket(Ok(stream)) => Ok(SendStream::WebSocket(stream)),
                Reply::WebSocket(Err(detail)) => Err(SessionError::WebSocket(detail)),
            },
            res matches Ok(stream) ==> stream.transport() == self.transport(),
            res matches Err(e) ==> e.comes_from(self.transport()),
    {
        match reply {
            Reply::Quinn(Ok(stream)) => Ok(SendStream::Quinn(stream)),
            Reply::Quinn(Err(e)) => Err(SessionError::Quinn(e)),
            Reply::WebSocket(Ok(stream)) => Ok(SendStream::WebSocket(stream)),
            Reply::WebSocket(Err(detail)) => Err(SessionError::WebSocket(detail)),
        }
    }

    /// What to hand to the QUIC session in order to send a datagram: the payload, as
    /// it is. A WebSocket has no datagrams.
    pub open spec fn sendable(self, payload: Bytes) -> Result<Bytes, SessionError> {
        match self {
            Session::Quinn(_) => Ok(payload),
            Session::WebSocket(_) => Err(SessionError::DatagramsNotSupported),
        }
    }

    /// The largest datagram that can be sent, given what a QUIC session says it is.
    pub open spec fn largest(self, quic: Option<usize>) -> usize {
        match self {
            Session::Quinn(_) => quic.unwrap(),
            Session::WebSocket(_) => 0,
        }
    }

    /// The datagram that arrived, or the error, given what a QUIC session answered.
    pub open spec fn received(self, quic: Option<Result<Bytes, QuinnSessionError>>) -> Result<
        Bytes,
        SessionError,
    > {
        match self {
            Session::Quinn(_) => match quic.unwrap() {
                Ok(payload) => Ok(payload),
                Err(e) => Err(SessionError::Quinn(e)),
            },
            Session::WebSocket(_) => Err(SessionError::DatagramsNotSupported),
        }
    }

    /// What to hand to the QUIC session in order to send a datagram: the payload, as
    /// it is. A WebSocket has no datagrams.
    pub fn send_datagram(&self, payload: Bytes) -> (res: Result<Bytes, SessionError>)
        ensures
            res == self.sendable(payload),
            res matches Err(e) ==> e.comes_from(self.transport()),
    {
        match self {
            Session::Quinn(_) => Ok(payload),
            Session::WebSocket(_) => Err(SessionError::DatagramsNotSupported),
        }
    }

    /// The QUIC session has sent a datagram, or not.
    pub fn datagram_sent(&self, reply: Result<(), QuinnSessionError>) -> (res: Result<
        (),
        SessionError,
    >)
        requires
            self is Quinn,
        ensures
            res == sent_result(reply),
            res == match reply {
                Ok(()) => Ok(()),
                Err(e) => Err(SessionError::Quinn(e)),
            },
            res matches Err(e) ==> e.comes_from(self.transport()),
    {
        match reply {
            Ok(()) => Ok(()),
            Err(e) => Err(SessionError::Quinn(e)),
        }
    }

    /// The largest datagram that can be sent, given what a QUIC session says it is: for
    /// a WebSocket, which has none, zero.
    pub fn max_datagram_size(&self, quic: Option<usize>) -> (size: usize)
        requires
            self is Quinn ==> quic is Some,
        ensures
            size == self.largest(quic),
    {
        match (self, quic) {
            (Session::Quinn(_), Some(size)) => size,
            _ => 0,
        }
    }

    /// A datagram has arrived on a QUIC session, or the session broke. On a WebSocket
    /// none ever does.
    pub fn recv_datagram(&self, quic: Option<Result<Bytes, QuinnSessionError>>) -> (res: Result<
        Bytes,
        SessionError,
    >)
        requires
            self is Quinn ==> quic is Some,
        ensures
            res == self.received(quic),
            res matches Err(e) ==> e.comes_from(self.transport()),
    {
        match (self, quic) {
            (Session::Quinn(_), Some(Ok(payload))) => Ok(payload),
            (Session::Quinn(_), Some(Err(e))) => Err(SessionError::Quinn(e)),
            _ => Err(SessionError::DatagramsNotSupported),
        }
    }

    /// The call that closes the session at once, with a code and a reason: QUIC takes
    /// the reason in UTF-8.
    pub fn close(self, code: u32, reason: &str) -> (call: CloseCall)
        ensures
            self.is_closed_by(code, reason, call),
            self matches Session::Quinn(session) ==> (call matches CloseCall::Quinn(s, c, bytes) && s
                == session && c == code && bytes@ == reason.spec_bytes()),
            self matches Session::WebSocket(session) ==> (call matches CloseCall::WebSocket(s, c, text)
                && s == session && c == code && text@ == reason@),
    {
        match self {
            Session::Quinn(session) => CloseCall::Quinn(session, code, reason.as_bytes_vec()),
            Session::WebSocket(session) => CloseCall::WebSocket(session, code, reason.to_owned()),
        }
    }

    /// The session was closed, and the transport says why.
    pub fn closed(&self, why: Closed) -> (res: SessionError)
        requires
            why.transport() == self.transport(),
        ensures
            why.is_told_by(res),
            match why {
                Closed::Quinn(e) => res == SessionError::Quinn(e),
                Closed::WebSocket(end) => res matches SessionError::WebSocket(text) && text@
                    == end_text(end),
            },
            res.comes_from(self.transport()),
    {
        match why {
            Closed::Quinn(e) => SessionError::Quinn(e),
            Closed::WebSocket(Ok(())) => SessionError::WebSocket("Ok(())".to_owned()),
            Closed::WebSocket(Err(detail)) => SessionError::WebSocket(
                labelled(labelled("Err(", detail.as_str()).as_str(), ")"),
            ),
        }
    }
}

/// Why a session was closed, as its transport says: QUIC with an error, a WebSocket
/// with a result, whose error is given by its text.
pub enum Closed {
    Quinn(QuinnSessionError),
    WebSocket(Result<(), String>),
}

impl Closed {
    /// Whether this is the error that tells why the session was closed.
    pub open spec fn is_told_by(self, error: SessionError) -> bool {
        match self {
            Closed::Quinn(e) => error == SessionError::Quinn(e),
            Closed::WebSocket(end) => error matches SessionError::WebSocket(text) && text@
                == end_text(end),
        }
    }

    /// The transport that says so.
    pub open spec fn transport(self) -> Transport {
        match self {
            Closed::Quinn(_) => Transport::Quinn,
            Closed::WebSocket(_) => Transport::WebSocket,
        }
    }
}

/// The result that a WebSocket session ended with, written out.
pub open spec fn end_text(end: Result<(), String>) -> Seq<char> {
    match end {
        Ok(()) => "Ok(())"@,
        Err(detail) => "Err("@ + detail@ + ")"@,
    }
}

impl Clone for Session {
    /// Another handle on the same session.
    fn clone(&self) -> (res: Self)
        ensures
            res == *self,
    {
        match self {
            Session::Quinn(session) => Session::Quinn(session.clone()),
            Session::WebSocket(session) => Session::WebSocket(session.clone()),
        }
    }
}

impl From<QuinnSession> for Session {
    fn from(session: QuinnSession) -> (res: Self) {
        Session::Quinn(session)
    }
}

impl vstd::std_specs::convert::FromSpecImpl<QuinnSession> for Session {
    open spec fn obeys_from_spec() -> bool {
        true
    }

    open spec fn from_spec(session: QuinnSession) -> Self {
        Session::Quinn(session)
    }
}

impl From<WsSession> for Session {
    fn from(session: WsSession) -> (res: Self) {
        Session::WebSocket(session)
    }
}

impl vstd::std_specs::convert::FromSpecImpl<WsSession> for Session {
    open spec fn obeys_from_spec() -> bool {
        true
    }

    open spec fn from_spec(session: WsSession) -> Self {
        Session::WebSocket(session)
    }
}

/// Datagrams are a matter of QUIC alone: a WebSocket session sends none, receives
/// none, and says so beforehand with a size of zero.
pub proof fn law_no_datagrams_over_websocket(
    session: Session,
    payload: Bytes,
    size: Option<usize>,
    reply: Option<Result<Bytes, QuinnSessionError>>,
)
    requires
        session.transport() == Transport::WebSocket,
    ensures
        session.sendable(payload) == Err::<Bytes, SessionError>(SessionError::DatagramsNotSupported),
        session.received(reply) == Err::<Bytes, SessionError>(SessionError::DatagramsNotSupported),
        session.largest(size) == 0,
{
}

/// A QUIC session sends and receives datagrams as they are.
pub proof fn law_datagrams_over_quic(session: Session, payload: Bytes)
    requires
        session.transport() == Transport::Quinn,
    ensures
        session.sendable(payload) == Ok::<Bytes, SessionError>(payload),
        session.received(Some(Ok(payload))) == Ok::<Bytes, SessionError>(payload),
{
}

/// A stream that the transport gives is handed on as it is, on the transport that it came
/// from, whichever side opened it.
pub proof fn law_streams_are_handed_on(
    quic_send: QuinnSendStream,
    quic_recv: QuinnRecvStream,
    ws_send: WsSendStream,
    ws_recv: WsRecvStream,
)
    ensures
        recv_result(Reply::Quinn(Ok(quic_recv))) matches Ok(RecvStream::Quinn(s)) && s == quic_recv,
        recv_result(Reply::WebSocket(Ok(ws_recv))) matches Ok(RecvStream::WebSocket(s)) && s
            == ws_recv,
        send_result(Reply::Quinn(Ok(quic_send))) matches Ok(SendStream::Quinn(s)) && s == quic_send,
        send_result(Reply::WebSocket(Ok(ws_send))) matches Ok(SendStream::WebSocket(s)) && s
            == ws_send,
        bi_result(Reply::Quinn(Ok((quic_send, quic_recv)))) matches Ok(halves) && halves.0
            == SendStream::Quinn(quic_send) && halves.1 == RecvStream::Quinn(quic_recv),
        bi_result(Reply::WebSocket(Ok((ws_send, ws_recv)))) matches Ok(halves) && halves.0
            == SendStream::WebSocket(ws_send) && halves.1 == RecvStream::WebSocket(ws_recv),
{
}

/// A session that breaks gives the same error whatever was asked of it: that of its
/// transport, unchanged.
pub proof fn law_session_errors_are_handed_on(e: QuinnSessionError, detail: String)
    ensures
        recv_result(Reply::Quinn(Err(e))) == Err::<RecvStream, SessionError>(SessionError::Quinn(e)),
        send_result(Reply::Quinn(Err(e))) == Err::<SendStream, SessionError>(SessionError::Quinn(e)),
        bi_result(Reply::Quinn(Err(e))) == Err::<(SendStream, RecvStream), SessionError>(
            SessionError::Quinn(e),
        ),
        sent_result(Err(e)) == Err::<(), SessionError>(SessionError::Quinn(e)),
        recv_result(Reply::WebSocket(Err(detail))) == Err::<RecvStream, SessionError>(
            SessionError::WebSocket(detail),
        ),
        send_result(Reply::WebSocket(Err(detail))) == Err::<SendStream, SessionError>(
            SessionError::WebSocket(detail),
        ),
        bi_result(Reply::WebSocket(Err(detail))) == Err::<(SendStream, RecvStream), SessionError>(
            SessionError::WebSocket(detail),
        ),
{
}

/// What a session answers about datagrams is what its QUIC session answers, success and
/// failure and size alike, and over a WebSocket always the same, whatever is asked.
pub proof fn law_datagram_answers_are_handed_on(
    session: Session,
    payload: Bytes,
    size: usize,
    reply: Result<Bytes, QuinnSessionError>,
    anything: Option<usize>,
    any_reply: Option<Result<Bytes, QuinnSessionError>>,
)
    ensures
        session is Quinn ==> {
            &&& session.sendable(payload) matches Ok(handed) && handed == payload
            &&& session.largest(Some(size)) == size
            &&& reply matches Ok(arrived) ==> (session.received(Some(reply)) matches Ok(p) && p
                == arrived)
            &&& reply matches Err(e) ==> (session.received(Some(reply)) matches Err(
                SessionError::Quinn(f),
            ) && f == e)
            &&& sent_result(Ok(())) is Ok
        },
        session is WebSocket ==> {
            &&& session.sendable(payload) matches Err(SessionError::DatagramsNotSupported)
            &&& session.largest(anything) == 0
            &&& session.received(any_reply) matches Err(SessionError::DatagramsNotSupported)
        },
{
}

/// A session, and what says that it was closed, are of one transport.
pub proof fn law_session_has_one_transport(session: Session, why: Closed)
    ensures
        session.transport() == Transport::Quinn <==> session is Quinn,
        session.transport() == Transport::WebSocket <==> session is WebSocket,
        why.transport() == Transport::Quinn <==> why is Quinn,
        why.transport() == Transport::WebSocket <==> why is WebSocket,
{
}

/// A WebSocket session that ended badly is told apart from one that ended well, and what
/// happened stands in the text unchanged, between brackets.
pub proof fn law_end_is_written_out(detail: String)
    ensures
        end_text(Ok(())) == "Ok(())"@,
        end_text(Err(detail)).len() == detail@.len() + 5,
        end_text(Err(detail)).take(4) == "Err("@,
        end_text(Err(detail)).subrange(4, 4 + detail@.len() as int) == detail@,
        end_text(Err(detail)).last() == ')',
{
    reveal_strlit("Err(");
    reveal_strlit(")");
}

/// A session is closed on its own transport, with the code and the reason that are given:
/// all of the reason, and nothing else.
pub proof fn law_close_says_why(session: Session, code: u32, reason: &str, call: CloseCall)
    requires
        session.is_closed_by(code, reason, call),
    ensures
        call is Quinn <==> session is Quinn,
        call matches CloseCall::Quinn(s, c, bytes) ==> Session::Quinn(s) == session && c == code
            && bytes@ == reason.spec_bytes(),
        call matches CloseCall::WebSocket(s, c, text) ==> Session::WebSocket(s) == session && c
            == code && text@ == reason@,
{
}

/// Why a session was closed is told as its transport says it: over QUIC with the error
/// itself, and over a WebSocket with the result, written out.
pub proof fn law_end_is_told(why: Closed, error: SessionError)
    requires
        why.is_told_by(error),
    ensures
        why matches Closed::Quinn(e) ==> (error matches SessionError::Quinn(f) && f == e),
        why matches Closed::WebSocket(Ok(_)) ==> (error matches SessionError::WebSocket(text)
            && text@ == "Ok(())"@),
        why matches Closed::WebSocket(Err(detail)) ==> (error matches SessionError::WebSocket(text)
            && text@ == "Err("@ + detail@ + ")"@),
{
}

} // verus!
