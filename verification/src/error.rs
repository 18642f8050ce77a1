//! What can go wrong on a session or on one of its streams.

use vstd::prelude::*;
use web_transport_quinn::ReadError as QuinnReadError;
use web_transport_quinn::SessionError as QuinnSessionError;
use web_transport_quinn::WriteError as QuinnWriteError;
use crate::transport::Transport;

verus! {

/// Why an operation on a session failed.
#[derive(Debug)]
pub enum SessionError {
    /// The QUIC session reported this error.
    Quinn(QuinnSessionError),
    /// The WebSocket session failed; the text describes how.
    WebSocket(String),
    /// A datagram was asked of a WebSocket session, which has none.
    DatagramsNotSupported,
}

/// Why a write to a stream failed.
#[derive(Debug)]
pub enum WriteError {
    /// The QUIC stream reported this error.
    Quinn(QuinnWriteError),
    /// The WebSocket stream failed; the text describes how.
    WebSocket(String),
}

/// Why a read from a stream failed.
#[derive(Debug)]
pub enum ReadError {
    /// The QUIC stream reported this error.
    Quinn(QuinnReadError),
    /// The WebSocket stream failed; the text describes how.
    WebSocket(String),
}

/// What `web_transport_quinn::SessionError` displays as.
pub uninterp spec fn quinn_session_error_text(e: QuinnSessionError) -> Seq<char>;

/// What `web_transport_quinn::WriteError` displays as.
pub uninterp spec fn quinn_write_error_text(e: QuinnWriteError) -> Seq<char>;

/// What `web_transport_quinn::ReadError` displays as.
pub uninterp spec fn quinn_read_error_text(e: QuinnReadError) -> Seq<char>;

/// `Display` of `web_transport_quinn::SessionError`: its text, which depends on
/// the error alone.
#[verifier::external_body]
fn display_session_error(e: &QuinnSessionError) -> (text: String)
    ensures
        text@ == quinn_session_error_text(*e),
{
    format!("{}", e)
}

/// `Display` of `web_transport_quinn::WriteError`: its text, which depends on the
/// error alone.
#[verifier::external_body]
fn display_write_error(e: &QuinnWriteError) -> (text: String)
    ensures
        text@ == quinn_write_error_text(*e),
{
    format!("{}", e)
}

/// `Display` of `web_transport_quinn::ReadError`: its text, which depends on the
/// error alone.
#[verifier::external_body]
fn display_read_error(e: &QuinnReadError) -> (text: String)
    ensures
        text@ == quinn_read_error_text(*e),
{
    format!("{}", e)
}

/// `label` followed by `detail`.
pub fn labelled(label: &str, detail: &str) -> (text: String)
    ensures
        text@ == label@ + detail@,
{
    let mut text = label.to_owned();
    text.append(detail);
    text
}

impl SessionError {
    /// Whether this is an error of that transport.
    pub open spec fn comes_from(self, transport: Transport) -> bool {
        match self {
            SessionError::Quinn(_) => transport == Transport::Quinn,
            SessionError::WebSocket(_) => transport == Transport::WebSocket,
            SessionError::DatagramsNotSupported => transport == Transport::WebSocket,
        }
    }

    /// The message shown for this error.
    pub open spec fn text(self) -> Seq<char> {
        match self {
            SessionError::Quinn(e) => "quinn session error: "@ + quinn_session_error_text(e),
            SessionError::WebSocket(detail) => "websocket session error: "@ + detail@,
            SessionError::DatagramsNotSupported => "datagrams not supported over WebSocket"@,
        }
    }

    /// The message shown for this error.
    pub fn message(&self) -> (text: String)
        ensures
            text@ == self.text(),
    {
        match self {
            SessionError::Quinn(e) => labelled(
                "quinn session error: ",
                display_session_error(e).as_str(),
            ),
            SessionError::WebSocket(detail) => labelled("websocket session error: ", detail.as_str()),
            SessionError::DatagramsNotSupported => "datagrams not supported over WebSocket".to_owned(),
        }
    }
}

impl WriteError {
    /// Whether this is an error of that transport.
    pub open spec fn comes_from(self, transport: Transport) -> bool {
        match self {
            WriteError::Quinn(_) => transport == Transport::Quinn,
            WriteError::WebSocket(_) => transport == Transport::WebSocket,
        }
    }

    /// The message shown for this error.
    pub open spec fn text(self) -> Seq<char> {
        match self {
            WriteError::Quinn(e) => "quinn write error: "@ + quinn_write_error_text(e),
            WriteError::WebSocket(detail) => "websocket write error: "@ + detail@,
        }
    }

    /// The message shown for this error.
    pub fn message(&self) -> (text: String)
        ensures
            text@ == self.text(),
    {
        match self {
            WriteError::Quinn(e) => labelled("quinn write error: ", display_write_error(e).as_str()),
            WriteError::WebSocket(detail) => labelled("websocket write error: ", detail.as_str()),
        }
    }
}

impl ReadError {
    /// Whether this is an error of that transport.
    pub open spec fn comes_from(self, transport: Transport) -> bool {
        match self {
            ReadError::Quinn(_) => transport == Transport::Quinn,
            ReadError::WebSocket(_) => transport == Transport::WebSocket,
        }
    }

    /// The message shown for this error.
    pub open spec fn text(self) -> Seq<char> {
        match self {
            ReadError::Quinn(e) => "quinn read error: "@ + quinn_read_error_text(e),
            ReadError::WebSocket(detail) => "websocket read error: "@ + detail@,
        }
    }

    /// The message shown for this error.
    pub fn message(&self) -> (text: String)
        ensures
            text@ == self.text(),
    {
        match self {
            ReadError::Quinn(e) => labelled("quinn read error: ", display_read_error(e).as_str()),
            ReadError::WebSocket(detail) => labelled("websocket read error: ", detail.as_str()),
        }
    }
}

impl From<QuinnSessionError> for SessionError {
    fn from(e: QuinnSessionError) -> (res: Self) {
        SessionError::Quinn(e)
    }
}

impl vstd::std_specs::convert::FromSpecImpl<QuinnSessionError> for SessionError {
    open spec fn obeys_from_spec() -> bool {
        true
    }

    open spec fn from_spec(e: QuinnSessionError) -> Self {
        SessionError::Quinn(e)
    }
}

impl From<QuinnWriteError> for WriteError {
    fn from(e: QuinnWriteError) -> (res: Self) {
        WriteError::Quinn(e)
    }
}

impl vstd::std_specs::convert::FromSpecImpl<QuinnWriteError> for WriteError {
    open spec fn obeys_from_spec() -> bool {
        true
    }

    open spec fn from_spec(e: QuinnWriteError) -> Self {
        WriteError::Quinn(e)
    }
}

impl From<QuinnReadError> for ReadError {
    fn from(e: QuinnReadError) -> (res: Self) {
        ReadError::Quinn(e)
    }
}

impl vstd::std_specs::convert::FromSpecImpl<QuinnReadError> for ReadError {
    open spec fn obeys_from_spec() -> bool {
        true
    }

    open spec fn from_spec(e: QuinnReadError) -> Self {
        ReadError::Quinn(e)
    }
}

impl Clone for SessionError {
    fn clone(&self) -> (res: Self)
        ensures
            res == *self,
    {
        match self {
            SessionError::Quinn(e) => SessionError::Quinn(e.clone()),
            SessionError::WebSocket(detail) => SessionError::WebSocket(detail.clone()),
            SessionError::DatagramsNotSupported => SessionError::DatagramsNotSupported,
        }
    }
}

impl Clone for WriteError {
    fn clone(&self) -> (res: Self)
        ensures
            res == *self,
    {
        match self {
            WriteError::Quinn(e) => WriteError::Quinn(e.clone()),
            WriteError::WebSocket(detail) => WriteError::WebSocket(detail.clone()),
        }
    }
}

impl Clone for ReadError {
    fn clone(&self) -> (res: Self)
        ensures
            res == *self,
    {
        match self {
            ReadError::Quinn(e) => ReadError::Quinn(e.clone()),
            ReadError::WebSocket(detail) => ReadError::WebSocket(detail.clone()),
        }
    }
}

/// Every error is of one transport, and what a WebSocket cannot do is an error of it.
pub proof fn law_error_has_one_transport(session: SessionError, write: WriteError, read: ReadError)
    ensures
        session.comes_from(Transport::Quinn) <==> session is Quinn,
        session.comes_from(Transport::WebSocket) <==> !(session is Quinn),
        write.comes_from(Transport::Quinn) <==> write is Quinn,
        write.comes_from(Transport::WebSocket) <==> write is WebSocket,
        read.comes_from(Transport::Quinn) <==> read is Quinn,
        read.comes_from(Transport::WebSocket) <==> read is WebSocket,
{
}

/// The message of an error over a WebSocket says where it came from and then, unchanged,
/// what happened.
pub proof fn law_websocket_messages(detail: String)
    ensures
        SessionError::WebSocket(detail).text() == "websocket session error: "@ + detail@,
        WriteError::WebSocket(detail).text() == "websocket write error: "@ + detail@,
        ReadError::WebSocket(detail).text() == "websocket read error: "@ + detail@,
        SessionError::DatagramsNotSupported.text() == "datagrams not supported over WebSocket"@,
{
}

/// The message of an error over QUIC says where it came from and then what the transport
/// says of it.
pub proof fn law_quic_messages(
    session: QuinnSessionError,
    write: QuinnWriteError,
    read: QuinnReadError,
)
    ensures
        SessionError::Quinn(session).text() == "quinn session error: "@ + quinn_session_error_text(
            session,
        ),
        WriteError::Quinn(write).text() == "quinn write error: "@ + quinn_write_error_text(write),
        ReadError::Quinn(read).text() == "quinn read error: "@ + quinn_read_error_text(read),
{
}

} // verus!
