//! The sending half of a stream, over QUIC or over a WebSocket.

use vstd::prelude::*;
use bytes::Bytes;
use web_transport_quinn::SendStream as QuinnSendStream;
use web_transport_quinn::WriteError as QuinnWriteError;
use web_transport_ws::SendStream as WsSendStream;
use crate::error::WriteError;
use crate::outside::{bytes_advance, bytes_len, contents};
use crate::transport::{Reply, Transport};

verus! {

/// An outgoing stream of bytes to the peer.
pub enum SendStream {
    /// Over QUIC.
    Quinn(QuinnSendStream),
    /// Over a WebSocket.
    WebSocket(WsSendStream),
}

/// What a stream answers to a write: how many bytes it took.
pub type WriteReply = Reply<usize, QuinnWriteError, usize>;

/// The call that resets a stream.
pub enum ResetCall {
    /// Reset this QUIC stream with this code.
    Quinn(QuinnSendStream, u32),
    /// Reset this stream over a WebSocket with this code.
    WebSocket(WsSendStream, u32),
}

/// The call that sends a chunk, or what is left of it.
pub enum ChunkCall {
    /// Hand all of it to the QUIC stream, which sends it whole.
    Quinn(Bytes),
    /// Offer it to the stream over a WebSocket, which may take only part of it.
    WebSocket(Bytes),
}

/// What comes of offering a chunk.
pub enum ChunkStep {
    /// Offer this, which is left of it.
    Again(Bytes),
    /// The chunk is sent, or the stream broke.
    Done(Result<(), WriteError>),
}

/// How many bytes were taken, or the error, that the answer stands for.
pub open spec fn write_result(reply: WriteReply) -> Result<usize, WriteError> {
    match reply {
        Reply::Quinn(Ok(size)) => Ok(size),
        Reply::Quinn(Err(e)) => Err(WriteError::Quinn(e)),
        Reply::WebSocket(Ok(size)) => Ok(size),
        Reply::WebSocket(Err(detail)) => Err(WriteError::WebSocket(detail)),
    }
}

/// What comes of a chunk that was handed to a QUIC stream.
pub open spec fn sent_result(reply: Result<(), QuinnWriteError>) -> Result<(), WriteError> {
    match reply {
        Ok(()) => Ok(()),
        Err(e) => Err(WriteError::Quinn(e)),
    }
}

/// What is left of a chunk when so many bytes of it were taken, unless that was all.
pub open spec fn left_over(chunk: Seq<u8>, size: usize) -> Option<Seq<u8>> {
    if size < chunk.len() {
        Some(chunk.skip(size as int))
    } else {
        None
    }
}

/// Whether this is what comes of offering a chunk to a stream over a WebSocket that
/// answers like this.
pub open spec fn follows_offer(chunk: Bytes, reply: Result<usize, String>, step: ChunkStep) -> bool {
    match reply {
        Ok(size) => match left_over(contents(chunk), size) {
            Some(left) => step matches ChunkStep::Again(rest) && contents(rest) == left,
            None => step == ChunkStep::Done(Ok(())),
        },
        Err(detail) => step == ChunkStep::Done(Err(WriteError::WebSocket(detail))),
    }
}

impl SendStream {
    /// What carries the stream.
    pub open spec fn transport(self) -> Transport {
        match self {
            SendStream::Quinn(_) => Transport::Quinn,
            SendStream::WebSocket(_) => Transport::WebSocket,
        }
    }

    /// The call that sends a chunk on this stream.
    pub open spec fn chunk_call(self, chunk: Bytes) -> ChunkCall {
        match self {
            SendStream::Quinn(_) => ChunkCall::Quinn(chunk),
            SendStream::WebSocket(_) => ChunkCall::WebSocket(chunk),
        }
    }

    /// The priority to set on the QUIC stream, if it is one.
    pub open spec fn priority(self, order: i32) -> Option<i32> {
        match self {
            SendStream::Quinn(_) => Some(order),
            SendStream::WebSocket(_) => None,
        }
    }

    /// The call that resets the stream.
    pub open spec fn reset_call(self, code: u32) -> ResetCall {
        match self {
            SendStream::Quinn(stream) => ResetCall::Quinn(stream, code),
            SendStream::WebSocket(stream) => ResetCall::WebSocket(stream, code),
        }
    }

    /// Bytes have been offered to the stream, and it took some of them.
    pub fn write(&self, reply: WriteReply) -> (res: Result<usize, WriteError>)
        requires
            reply.transport() == self.transport(),
        ensures
            res == write_result(reply),
            res matches Err(e) ==> e.comes_from(self.transport()),
    {
        match reply {
            Reply::Quinn(Ok(size)) => Ok(size),
            Reply::Quinn(Err(e)) => Err(WriteError::Quinn(e)),
            Reply::WebSocket(Ok(size)) => Ok(size),
            Reply::WebSocket(Err(detail)) => Err(WriteError::WebSocket(detail)),
        }
    }

    /// The bytes of a buffer have been offered to the stream: those that it took leave
    /// the buffer. Where it failed, the buffer is as it was.
    pub fn write_buf(&self, buf: &mut Bytes, reply: WriteReply) -> (res: Result<usize, WriteError>)
        requires
            reply.transport() == self.transport(),
            write_result(reply) matches Ok(size) ==> size <= contents(*old(buf)).len(),
        ensures
            res == write_result(reply),
            res matches Ok(size) ==> contents(*final(buf)) == contents(*old(buf)).skip(size as int),
            reply matches Reply::Quinn(Ok(size)) ==> contents(*final(buf)) == contents(
                *old(buf),
            ).skip(size as int),
            reply matches Reply::WebSocket(Ok(size)) ==> contents(*final(buf)) == contents(
                *old(buf),
            ).skip(size as int),
            res is Err ==> *final(buf) == *old(buf),
            res matches Err(e) ==> e.comes_from(self.transport()),
    {
        let res = self.write(reply);
        if let Ok(size) = &res {
            bytes_advance(buf, *size);
        }
        res
    }

    /// The call that sends a chunk, all of it.
    pub fn write_chunk(&self, chunk: Bytes) -> (call: ChunkCall)
        ensures
            call == self.chunk_call(chunk),
            self is Quinn ==> call == ChunkCall::Quinn(chunk),
            self is WebSocket ==> call == ChunkCall::WebSocket(chunk),
    {
        match self {
            SendStream::Quinn(_) => ChunkCall::Quinn(chunk),
            SendStream::WebSocket(_) => ChunkCall::WebSocket(chunk),
        }
    }

    /// The QUIC stream has sent a chunk, or broke.
    pub fn chunk_sent(&self, reply: Result<(), QuinnWriteError>) -> (res: Result<(), WriteError>)
        requires
            self is Quinn,
        ensures
            res == sent_result(reply),
            res == match reply {
                Ok(()) => Ok(()),
                Err(e) => Err(WriteError::Quinn(e)),
            },
            res matches Err(e) ==> e.comes_from(self.transport()),
    {
        match reply {
            Ok(()) => Ok(()),
            Err(e) => Err(WriteError::Quinn(e)),
        }
    }

    /// A chunk has been offered to the stream over a WebSocket, which took some of it:
    /// what is left is to be offered again, until nothing is.
    pub fn chunk_offered(&self, chunk: Bytes, reply: Result<usize, String>) -> (step: ChunkStep)
        requires
            self is WebSocket,
            reply matches Ok(size) ==> size <= contents(chunk).len(),
        ensures
            follows_offer(chunk, reply, step),
            match reply {
                Ok(size) => match left_over(contents(chunk), size) {
                    Some(left) => step matches ChunkStep::Again(rest) && contents(rest) == left,
                    None => step == ChunkStep::Done(Ok(())),
                },
                Err(detail) => step == ChunkStep::Done(Err(WriteError::WebSocket(detail))),
            },
    {
        let mut chunk = chunk;
        match reply {
            Ok(size) => {
                bytes_advance(&mut chunk, size);
                if bytes_len(&chunk) > 0 {
                    ChunkStep::Again(chunk)
                } else {
                    ChunkStep::Done(Ok(()))
                }
            },
            Err(detail) => ChunkStep::Done(Err(WriteError::WebSocket(detail))),
        }
    }

    /// The priority to set on the QUIC stream, if it is one: streams over a WebSocket
    /// have none.
    pub fn set_priority(&self, order: i32) -> (quic: Option<i32>)
        ensures
            quic == self.priority(order),
            self is Quinn ==> quic == Some(order),
            self is WebSocket ==> quic is None,
    {
        match self {
            SendStream::Quinn(_) => Some(order),
            SendStream::WebSocket(_) => None,
        }
    }

    /// The call that resets the stream at once, with a code.
    pub fn reset(self, code: u32) -> (call: ResetCall)
        ensures
            call == self.reset_call(code),
            call == match self {
                SendStream::Quinn(stream) => ResetCall::Quinn(stream, code),
                SendStream::WebSocket(stream) => ResetCall::WebSocket(stream, code),
            },
    {
        match self {
            SendStream::Quinn(stream) => ResetCall::Quinn(stream, code),
            SendStream::WebSocket(stream) => ResetCall::WebSocket(stream, code),
        }
    }
}

/// Whether a chunk is sent over a WebSocket by writes that take so many bytes each:
/// each is of what the others before it left over, and the last leaves nothing.
pub open spec fn sends_chunk(chunk: Seq<u8>, taken: Seq<usize>) -> bool
    decreases taken.len(),
{
    taken.len() > 0 && taken[0] <= chunk.len() && match left_over(chunk, taken[0]) {
        Some(rest) => sends_chunk(rest, taken.drop_first()),
        None => taken.len() == 1,
    }
}

/// What such writes put on the stream.
pub open spec fn on_stream(chunk: Seq<u8>, taken: Seq<usize>) -> Seq<u8>
    decreases taken.len(),
{
    if taken.len() == 0 {
        Seq::empty()
    } else {
        chunk.take(taken[0] as int) + on_stream(chunk.skip(taken[0] as int), taken.drop_first())
    }
}

/// Whether writes can take so many bytes each from a buffer, one after the other: none
/// takes more than those before it left.
pub open spec fn can_take(buf: Seq<u8>, taken: Seq<usize>) -> bool
    decreases taken.len(),
{
    taken.len() > 0 ==> taken[0] <= buf.len() && can_take(
        buf.skip(taken[0] as int),
        taken.drop_first(),
    )
}

/// What such writes leave in the buffer.
pub open spec fn unsent(buf: Seq<u8>, taken: Seq<usize>) -> Seq<u8>
    decreases taken.len(),
{
    if taken.len() == 0 {
        buf
    } else {
        unsent(buf.skip(taken[0] as int), taken.drop_first())
    }
}

/// However a buffer is written, in many writes or few, what is on the stream is the
/// beginning of what it held, in order, and what is left in it is the rest: nothing is
/// lost, and nothing is sent twice. A write that fails counts as one that takes nothing.
pub proof fn law_writes_send_from_the_front(buf: Seq<u8>, taken: Seq<usize>)
    requires
        can_take(buf, taken),
    ensures
        on_stream(buf, taken) + unsent(buf, taken) == buf,
    decreases taken.len(),
{
    if taken.len() > 0 {
        let first = taken[0] as int;
        law_writes_send_from_the_front(buf.skip(first), taken.drop_first());
        assert(buf.take(first) + buf.skip(first) =~= buf);
        assert(on_stream(buf, taken) + unsent(buf, taken) =~= buf.take(first) + (on_stream(
            buf.skip(first),
            taken.drop_first(),
        ) + unsent(buf.skip(first), taken.drop_first())));
    }
}

/// A chunk is reported as sent only when the stream has taken the whole of it, in
/// order and without a gap, however small the pieces.
pub proof fn law_whole_chunk_is_sent(chunk: Seq<u8>, taken: Seq<usize>)
    requires
        sends_chunk(chunk, taken),
    ensures
        on_stream(chunk, taken) == chunk,
    decreases taken.len(),
{
    let first = taken[0] as int;
    if first < chunk.len() {
        law_whole_chunk_is_sent(chunk.skip(first), taken.drop_first());
        assert(chunk.take(first) + chunk.skip(first) =~= chunk);
    } else {
        assert(on_stream(chunk.skip(first), taken.drop_first()) =~= Seq::empty());
        assert(chunk.take(first) + Seq::<u8>::empty() =~= chunk);
    }
}

/// A write hands on what the transport answered: as many bytes as it took, or its error,
/// unchanged.
pub proof fn law_write_hands_on_the_answer(size: usize, e: QuinnWriteError, detail: String)
    ensures
        write_result(Reply::Quinn(Ok(size))) matches Ok(n) && n == size,
        write_result(Reply::WebSocket(Ok(size))) matches Ok(n) && n == size,
        write_result(Reply::Quinn(Err(e))) matches Err(WriteError::Quinn(f)) && f == e,
        write_result(Reply::WebSocket(Err(detail))) matches Err(WriteError::WebSocket(text)) && text
            == detail,
        sent_result(Ok(())) is Ok,
        sent_result(Err(e)) matches Err(WriteError::Quinn(f)) && f == e,
{
}

/// What was taken of a chunk and what is left of it make up the chunk, and something is
/// left exactly when not all of it was taken.
pub proof fn law_taken_and_left_make_the_chunk(chunk: Seq<u8>, size: usize)
    requires
        size <= chunk.len(),
    ensures
        left_over(chunk, size) is None <==> size == chunk.len(),
        left_over(chunk, size) matches Some(rest) ==> rest.len() > 0 && chunk.take(size as int) + rest
            == chunk,
{
}

/// A chunk is sent whole on the stream's own transport; a priority is set as it is, on QUIC
/// alone; and a reset ends the same stream with the same code.
pub proof fn law_calls_go_to_the_stream(
    stream: SendStream,
    chunk: Bytes,
    order: i32,
    code: u32,
)
    ensures
        stream is Quinn ==> {
            &&& stream.chunk_call(chunk) matches ChunkCall::Quinn(c) && c == chunk
            &&& stream.priority(order) == Some(order)
            &&& stream.reset_call(code) matches ResetCall::Quinn(s, c) && SendStream::Quinn(s)
                == stream && c == code
        },
        stream is WebSocket ==> {
            &&& stream.chunk_call(chunk) matches ChunkCall::WebSocket(c) && c == chunk
            &&& stream.priority(order) is None
            &&& stream.reset_call(code) matches ResetCall::WebSocket(s, c) && SendStream::WebSocket(
                s,
            ) == stream && c == code
        },
        stream.transport() == Transport::Quinn <==> stream is Quinn,
        stream.transport() == Transport::WebSocket <==> stream is WebSocket,
{
}

/// As long as some of a chunk is left, it is offered again, without what was taken; it is
/// done when all of it was taken; and an error ends it, unchanged.
pub proof fn law_chunk_is_offered_until_it_is_sent(
    chunk: Bytes,
    reply: Result<usize, String>,
    step: ChunkStep,
)
    requires
        follows_offer(chunk, reply, step),
        reply matches Ok(size) ==> size <= contents(chunk).len(),
    ensures
        step is Again <==> (reply matches Ok(size) && size < contents(chunk).len()),
        reply matches Ok(size) ==> (step matches ChunkStep::Again(rest) ==> contents(chunk)
            == contents(chunk).take(size as int) + contents(rest)),
        reply matches Ok(size) ==> size == contents(chunk).len() ==> (step matches ChunkStep::Done(
            Ok(_),
        )),
        reply matches Err(detail) ==> (step matches ChunkStep::Done(
            Err(WriteError::WebSocket(text)),
        ) && text == detail),
{
}

} // verus!
