//! What the library carries from the transport crates without looking inside,
//! and the byte buffers it shares with them.

use vstd::prelude::*;
use bytes::Bytes;
use url::Url;
use web_transport_quinn::ReadError as QuinnReadError;
use web_transport_quinn::RecvStream as QuinnRecvStream;
use web_transport_quinn::SendStream as QuinnSendStream;
use web_transport_quinn::Session as QuinnSession;
use web_transport_quinn::SessionError as QuinnSessionError;
use web_transport_quinn::WriteError as QuinnWriteError;
use web_transport_ws::RecvStream as WsRecvStream;
use web_transport_ws::SendStream as WsSendStream;
use web_transport_ws::Session as WsSession;

verus! {

/// `web_transport_quinn::Session`: a WebTransport session over QUIC.
#[verifier::external_type_specification]
#[verifier::external_body]
pub struct ExQuinnSession(QuinnSession);

/// `web_transport_quinn::SendStream`: the sending half of a QUIC stream.
#[verifier::external_type_specification]
#[verifier::external_body]
pub struct ExQuinnSendStream(QuinnSendStream);

/// `web_transport_quinn::RecvStream`: the receiving half of a QUIC stream.
#[verifier::external_type_specification]
#[verifier::external_body]
pub struct ExQuinnRecvStream(QuinnRecvStream);

/// `web_transport_quinn::SessionError`: why a QUIC session failed.
#[verifier::external_type_specification]
#[verifier::external_body]
pub struct ExQuinnSessionError(QuinnSessionError);

/// `web_transport_quinn::WriteError`: why a write to a QUIC stream failed.
#[verifier::external_type_specification]
#[verifier::external_body]
pub struct ExQuinnWriteError(QuinnWriteError);

/// `web_transport_quinn::ReadError`: why a read from a QUIC stream failed.
#[verifier::external_type_specification]
#[verifier::external_body]
pub struct ExQuinnReadError(QuinnReadError);

/// `web_transport_ws::Session`: a WebTransport session emulated over a WebSocket.
#[verifier::external_type_specification]
#[verifier::external_body]
pub struct ExWsSession(WsSession);

/// `web_transport_ws::SendStream`: the sending half of a stream over a WebSocket.
#[verifier::external_type_specification]
#[verifier::external_body]
pub struct ExWsSendStream(WsSendStream);

/// `web_transport_ws::RecvStream`: the receiving half of a stream over a WebSocket.
#[verifier::external_type_specification]
#[verifier::external_body]
pub struct ExWsRecvStream(WsRecvStream);

/// `url::Url`: a parsed URL. The relay hands URLs on and never takes one apart.
#[verifier::external_type_specification]
#[verifier::external_body]
pub struct ExUrl(Url);

/// `bytes::Bytes`: a cheaply shared run of bytes. What it holds is named by
/// [`contents`].
#[verifier::external_type_specification]
#[verifier::external_body]
pub struct ExBytes(Bytes);

/// The bytes that a [`Bytes`] holds, from its current start to its end.
pub uninterp spec fn contents(b: Bytes) -> Seq<u8>;

/// `<Bytes as From<Vec<u8>>>::from`: the buffer holds exactly the bytes of the
/// vector, in order.
#[verifier::external_body]
pub(crate) fn bytes_from_vec(v: Vec<u8>) -> (b: Bytes)
    ensures
        contents(b) == v@,
{
    Bytes::from(v)
}

/// `Bytes::len`: how many bytes the buffer holds.
#[verifier::external_body]
pub(crate) fn bytes_len(b: &Bytes) -> (n: usize)
    ensures
        n == contents(*b).len(),
{
    b.len()
}

/// `<Bytes as Buf>::advance`: drops the first `n` bytes and keeps the others. It
/// panics when there are fewer than `n`, which the precondition rules out.
#[verifier::external_body]
pub(crate) fn bytes_advance(b: &mut Bytes, n: usize)
    requires
        n <= contents(*old(b)).len(),
    ensures
        contents(*final(b)) == contents(*old(b)).skip(n as int),
{
    bytes::Buf::advance(b, n)
}

/// How many bytes a buffer holds.
pub fn remaining(b: &Bytes) -> (n: usize)
    ensures
        n == contents(*b).len(),
{
    bytes_len(b)
}

/// `<url::Url as Clone>::clone`: an equal URL.
pub assume_specification[ <Url as Clone>::clone ](url: &Url) -> (res: Url)
    ensures
        res == *url,
;

/// `<web_transport_quinn::Session as Clone>::clone`: another handle on the same
/// session, equal to the first for every purpose of the library.
pub assume_specification[ <QuinnSession as Clone>::clone ](session: &QuinnSession) -> (res:
    QuinnSession)
    ensures
        res == *session,
;

/// `<web_transport_ws::Session as Clone>::clone`: another handle on the same
/// session, equal to the first for every purpose of the library.
pub assume_specification[ <WsSession as Clone>::clone ](session: &WsSession) -> (res: WsSession)
    ensures
        res == *session,
;

/// `<web_transport_quinn::SessionError as Clone>::clone`: an equal error.
pub assume_specification[ <QuinnSessionError as Clone>::clone ](e: &QuinnSessionError) -> (res:
    QuinnSessionError)
    ensures
        res == *e,
;

/// `<web_transport_quinn::WriteError as Clone>::clone`: an equal error.
pub assume_specification[ <QuinnWriteError as Clone>::clone ](e: &QuinnWriteError) -> (res:
    QuinnWriteError)
    ensures
        res == *e,
;

/// `<web_transport_quinn::ReadError as Clone>::clone`: an equal error.
pub assume_specification[ <QuinnReadError as Clone>::clone ](e: &QuinnReadError) -> (res:
    QuinnReadError)
    ensures
        res == *e,
;

} // verus!
