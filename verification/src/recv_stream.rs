//! The receiving half of a stream, over QUIC or over a WebSocket.

use vstd::prelude::*;
use bytes::Bytes;
use web_transport_quinn::ReadError as QuinnReadError;
use web_transport_quinn::RecvStream as QuinnRecvStream;
use web_transport_ws::RecvStream as WsRecvStream;
use crate::error::ReadError;
use crate::outside::{bytes_from_vec, contents};
use crate::transport::{Reply, Transport};

verus! {

/// An incoming stream of bytes from the peer.
pub enum RecvStream {
    /// Over QUIC.
    Quinn(QuinnRecvStream),
    /// Over a WebSocket.
    WebSocket(WsRecvStream),
}

/// What a stream answers to a read: how many bytes it put in the buffer, or that there
/// are no more.
pub type ReadReply = Reply<Option<usize>, QuinnReadError, Option<usize>>;

/// The call that stops a stream.
pub enum StopCall {
    /// Stop this QUIC stream with this code.
    Quinn(QuinnRecvStream, u32),
    /// Stop this stream over a WebSocket with this code.
    WebSocket(WsRecvStream, u32),
}

/// The call that reads a chunk.
pub enum ChunkRead {
    /// Take the next chunk from the QUIC stream, of no more than so many bytes, in
    /// order where the flag says so.
    Quinn { max: usize, ordered: bool },
    /// Read into this buffer from the stream over a WebSocket.
    WebSocket { buf: Vec<u8> },
}

/// How many bytes were read, or the error, that the answer stands for.
pub open spec fn read_result(reply: ReadReply) -> Result<Option<usize>, ReadError> {
    match reply {
        Reply::Quinn(Ok(size)) => Ok(size),
        Reply::Quinn(Err(e)) => Err(ReadError::Quinn(e)),
        Reply::WebSocket(Ok(size)) => Ok(size),
        Reply::WebSocket(Err(detail)) => Err(ReadError::WebSocket(detail)),
    }
}

/// The bytes that a stream with this answer has put at the start of a buffer.
pub open spec fn bytes_read(space: Seq<u8>, reply: ReadReply) -> Seq<u8> {
    match read_result(reply) {
        Ok(Some(size)) => space.take(size as int),
        _ => Seq::empty(),
    }
}

/// The bytes that a stream says it has put at the start of a buffer, over QUIC or over a
/// WebSocket: as many as its answer gives.
pub open spec fn delivered(space: Seq<u8>, reply: ReadReply) -> Seq<u8> {
    match reply {
        Reply::Quinn(Ok(Some(size))) => space.take(size as int),
        Reply::WebSocket(Ok(Some(size))) => space.take(size as int),
        _ => Seq::empty(),
    }
}

/// Whether a stream with this answer goes on, or the error.
pub open spec fn going_on(reply: ReadReply) -> Result<bool, ReadError> {
    match read_result(reply) {
        Ok(Some(_)) => Ok(true),
        Ok(None) => Ok(false),
        Err(e) => Err(e),
    }
}

/// The chunk that so many bytes at the start of a buffer make: never more than there are.
pub open spec fn chunk_bytes(buf: Seq<u8>, size: usize) -> Seq<u8> {
    if size <= buf.len() {
        buf.take(size as int)
    } else {
        buf
    }
}

/// The bytes of the chunk that a QUIC stream has given, if it has.
pub open spec fn chunk_given(reply: Result<Option<Bytes>, QuinnReadError>) -> Seq<u8> {
    match reply {
        Ok(Some(chunk)) => contents(chunk),
        _ => Seq::empty(),
    }
}

/// The chunk, or the error, that the answer of a QUIC stream stands for.
pub open spec fn taken_result(reply: Result<Option<Bytes>, QuinnReadError>) -> Result<
    Option<Bytes>,
    ReadError,
> {
    match reply {
        Ok(chunk) => Ok(chunk),
        Err(e) => Err(ReadError::Quinn(e)),
    }
}

/// The bytes of the chunk that a reader gets, if it gets one.
pub open spec fn chunk_handed_on(res: Result<Option<Bytes>, ReadError>) -> Seq<u8> {
    match res {
        Ok(Some(chunk)) => contents(chunk),
        _ => Seq::empty(),
    }
}

/// Whether this is the chunk, or the error, that an answer of a stream over a WebSocket
/// stands for, with what it has put in a buffer.
pub open spec fn is_chunk_of(
    buf: Seq<u8>,
    reply: Result<Option<usize>, String>,
    res: Result<Option<Bytes>, ReadError>,
) -> bool {
    match reply {
        Ok(Some(size)) => res matches Ok(Some(chunk)) && contents(chunk) == chunk_bytes(buf, size),
        Ok(None) => res == Ok::<Option<Bytes>, ReadError>(None),
        Err(detail) => res == Err::<Option<Bytes>, ReadError>(ReadError::WebSocket(detail)),
    }
}

impl RecvStream {
    /// What carries the stream.
    pub open spec fn transport(self) -> Transport {
        match self {
            RecvStream::Quinn(_) => Transport::Quinn,
            RecvStream::WebSocket(_) => Transport::WebSocket,
        }
    }

    /// Whether this is the call that reads a chunk of so many bytes at most.
    pub open spec fn asks_for_chunk(self, max: usize, call: ChunkRead) -> bool {
        match self {
            RecvStream::Quinn(_) => call == (ChunkRead::Quinn { max, ordered: true }),
            RecvStream::WebSocket(_) => call matches ChunkRead::WebSocket { buf } && buf@
                == Seq::new(max as nat, |i: int| 0u8),
        }
    }

    /// The call that stops the stream.
    pub open spec fn stop_call(self, code: u32) -> StopCall {
        match self {
            RecvStream::Quinn(stream) => StopCall::Quinn(stream, code),
            RecvStream::WebSocket(stream) => StopCall::WebSocket(stream, code),
        }
    }

    /// The stream has put bytes in a buffer, or it has ended.
    pub fn read(&self, reply: ReadReply) -> (res: Result<Option<usize>, ReadError>)
        requires
            reply.transport() == self.transport(),
        ensures
            res == read_result(reply),
            res matches Err(e) ==> e.comes_from(self.transport()),
    {
        match reply {
            Reply::Quinn(Ok(size)) => Ok(size),
            Reply::Quinn(Err(e)) => Err(ReadError::Quinn(e)),
            Reply::WebSocket(Ok(size)) => Ok(size),
            Reply::WebSocket(Err(detail)) => Err(ReadError::WebSocket(detail)),
        }
    }

    /// The stream has put bytes at the start of `space`, which lies behind what a buffer
    /// holds: they become part of the buffer. The result says whether the stream goes
    /// on; where it has ended or failed, the buffer is as it was.
    pub fn read_buf(&self, buf: &mut Vec<u8>, space: &[u8], reply: ReadReply) -> (res: Result<
        bool,
        ReadError,
    >)
        requires
            reply.transport() == self.transport(),
            read_result(reply) matches Ok(Some(size)) ==> size <= space@.len(),
        ensures
            final(buf)@ == old(buf)@ + bytes_read(space@, reply),
            final(buf)@ == old(buf)@ + delivered(space@, reply),
            res == going_on(reply),
            res == match read_result(reply) {
                Ok(Some(_)) => Ok::<bool, ReadError>(true),
                Ok(None) => Ok::<bool, ReadError>(false),
                Err(e) => Err::<bool, ReadError>(e),
            },
            res matches Err(e) ==> e.comes_from(self.transport()),
    {
        match self.read(reply) {
            Ok(Some(size)) => {
                buf.extend_from_slice(vstd::slice::slice_subrange(space, 0, size));
                assert(buf@ =~= old(buf)@ + space@.take(size as int));
                Ok(true)
            },
            Ok(None) => {
                assert(buf@ =~= old(buf)@ + Seq::<u8>::empty());
                Ok(false)
            },
            Err(e) => {
                assert(buf@ =~= old(buf)@ + Seq::<u8>::empty());
                Err(e)
            },
        }
    }

    /// The call that reads the next chunk, of no more than `max` bytes. A stream over a
    /// WebSocket has no chunks: it gets a buffer of that size to read into.
    pub fn read_chunk(&self, max: usize) -> (call: ChunkRead)
        requires
            self is WebSocket ==> max <= isize::MAX,
        ensures
            self.asks_for_chunk(max, call),
            self is Quinn ==> call == (ChunkRead::Quinn { max, ordered: true }),
            self is WebSocket ==> (call matches ChunkRead::WebSocket { buf } && buf@ == Seq::new(
                max as nat,
                |i: int| 0u8,
            )),
    {
        match self {
            RecvStream::Quinn(_) => ChunkRead::Quinn { max, ordered: true },
            RecvStream::WebSocket(_) => {
                let buf = vec![0u8; max];
                assert(buf@ =~= Seq::new(max as nat, |i: int| 0u8));
                ChunkRead::WebSocket { buf }
            },
        }
    }

    /// The QUIC stream has given a chunk, or it has ended.
    pub fn chunk_taken(&self, reply: Result<Option<Bytes>, QuinnReadError>) -> (res: Result<
        Option<Bytes>,
        ReadError,
    >)
        requires
            self is Quinn,
        ensures
            res == taken_result(reply),
            res matches Err(e) ==> e.comes_from(self.transport()),
    {
        match reply {
            Ok(chunk) => Ok(chunk),
            Err(e) => Err(ReadError::Quinn(e)),
        }
    }

    /// The stream over a WebSocket has put bytes at the start of a buffer, or it has
    /// ended: those bytes are the chunk.
    pub fn chunk_read(&self, buf: Vec<u8>, reply: Result<Option<usize>, String>) -> (res: Result<
        Option<Bytes>,
        ReadError,
    >)
        requires
            self is WebSocket,
        ensures
            is_chunk_of(buf@, reply, res),
            match reply {
                Ok(Some(size)) => res matches Ok(Some(chunk)) && contents(chunk) == chunk_bytes(
                    buf@,
                    size,
                ),
                Ok(None) => res == Ok::<Option<Bytes>, ReadError>(None),
                Err(detail) => res == Err::<Option<Bytes>, ReadError>(ReadError::WebSocket(detail)),
            },
            res matches Ok(Some(chunk)) ==> contents(chunk).len() <= buf@.len(),
            res matches Err(e) ==> e.comes_from(self.transport()),
    {
        match reply {
            Ok(Some(size)) => {
                let mut buf = buf;
                buf.truncate(size);
                Ok(Some(bytes_from_vec(buf)))
            },
            Ok(None) => Ok(None),
            Err(detail) => Err(ReadError::WebSocket(detail)),
        }
    }

    /// The call that tells the peer to stop sending, with a code.
    pub fn stop(self, code: u32) -> (call: StopCall)
        ensures
            call == self.stop_call(code),
            call == match self {
                RecvStream::Quinn(stream) => StopCall::Quinn(stream, code),
                RecvStream::WebSocket(stream) => StopCall::WebSocket(stream, code),
            },
    {
        match self {
            RecvStream::Quinn(stream) => StopCall::Quinn(stream, code),
            RecvStream::WebSocket(stream) => StopCall::WebSocket(stream, code),
        }
    }
}

/// Whether pieces are those of a stream, in order: each begins where the one before it
/// ended, and the first at the start.
pub open spec fn in_order(stream: Seq<u8>, pieces: Seq<Seq<u8>>) -> bool
    decreases pieces.len(),
{
    pieces.len() > 0 ==> {
        &&& pieces[0].len() <= stream.len()
        &&& pieces[0] == stream.take(pieces[0].len() as int)
        &&& in_order(stream.skip(pieces[0].len() as int), pieces.drop_first())
    }
}

/// What a buffer holds after some reads, one after the other. Each is given by the bytes
/// that lie behind the buffer and the answer of the stream.
pub open spec fn filled(buf: Seq<u8>, reads: Seq<(Seq<u8>, ReadReply)>) -> Seq<u8>
    decreases reads.len(),
{
    if reads.len() == 0 {
        buf
    } else {
        filled(buf + bytes_read(reads[0].0, reads[0].1), reads.drop_first())
    }
}

/// However a stream is read into a buffer, in many reads or few, and whatever the buffer
/// held before, what is added to it is the beginning of the stream, in order and without
/// a gap.
pub proof fn law_reads_join_up(
    stream: Seq<u8>,
    buf: Seq<u8>,
    reads: Seq<(Seq<u8>, ReadReply)>,
)
    requires
        in_order(stream, reads.map_values(|read: (Seq<u8>, ReadReply)| bytes_read(read.0, read.1))),
    ensures
        filled(buf, reads).len() >= buf.len(),
        filled(buf, reads).len() - buf.len() <= stream.len(),
        filled(buf, reads) == buf + stream.take(filled(buf, reads).len() - buf.len()),
    decreases reads.len(),
{
    let read_by = |read: (Seq<u8>, ReadReply)| bytes_read(read.0, read.1);
    if reads.len() > 0 {
        let first = bytes_read(reads[0].0, reads[0].1);
        let rest = stream.skip(first.len() as int);
        assert(reads.map_values(read_by)[0] == first);
        assert(reads.map_values(read_by).drop_first() =~= reads.drop_first().map_values(read_by));
        law_reads_join_up(rest, buf + first, reads.drop_first());
        let added = filled(buf, reads).len() - buf.len();
        assert(filled(buf, reads) =~= buf + stream.take(added));
    } else {
        assert(buf =~= buf + stream.take(0));
    }
}

/// Pieces of a stream that come in order, joined, are the beginning of the stream, without
/// a gap. This is what the chunks of a stream add up to, over QUIC, where each is handed on
/// as it comes, and over a WebSocket.
pub proof fn law_pieces_join_up(stream: Seq<u8>, pieces: Seq<Seq<u8>>)
    requires
        in_order(stream, pieces),
    ensures
        pieces.flatten().len() <= stream.len(),
        pieces.flatten() == stream.take(pieces.flatten().len() as int),
    decreases pieces.len(),
{
    let joined = pieces.flatten();
    if pieces.len() > 0 {
        let first = pieces[0];
        law_pieces_join_up(stream.skip(first.len() as int), pieces.drop_first());
        assert(joined =~= first + pieces.drop_first().flatten());
        assert(joined =~= stream.take(joined.len() as int));
    } else {
        assert(joined =~= stream.take(0));
    }
}

/// The chunks that are read from a stream over QUIC, joined, are the beginning of the
/// stream, in order and without a gap. Each read is given by the answer of the stream, of
/// which those that bring a chunk count.
pub proof fn law_quic_chunks_join_up(
    stream: Seq<u8>,
    replies: Seq<Result<Option<Bytes>, QuinnReadError>>,
)
    requires
        in_order(stream, replies.map_values(|reply| chunk_given(reply))),
    ensures
        ({
            let joined = replies.map_values(|reply| chunk_handed_on(taken_result(reply))).flatten();
            joined.len() <= stream.len() && joined == stream.take(joined.len() as int)
        }),
{
    let given = replies.map_values(
        |reply: Result<Option<Bytes>, QuinnReadError>| chunk_given(reply),
    );
    let handed_on = replies.map_values(
        |reply: Result<Option<Bytes>, QuinnReadError>| chunk_handed_on(taken_result(reply)),
    );
    assert(handed_on =~= given);
    law_pieces_join_up(stream, given);
}

/// The chunks that are read from a stream over a WebSocket, joined, are the beginning of
/// the stream, in order and without a gap. Each read is given by the buffer that the
/// stream has put bytes in and by how many they are.
pub proof fn law_chunks_join_up(stream: Seq<u8>, reads: Seq<(Seq<u8>, usize)>)
    requires
        forall|i: int| 0 <= i < reads.len() ==> (#[trigger] reads[i]).1 <= reads[i].0.len(),
        in_order(stream, reads.map_values(|read: (Seq<u8>, usize)| read.0.take(read.1 as int))),
    ensures
        ({
            let joined = reads.map_values(
                |read: (Seq<u8>, usize)| chunk_bytes(read.0, read.1),
            ).flatten();
            joined.len() <= stream.len() && joined == stream.take(joined.len() as int)
        }),
{
    let put = reads.map_values(|read: (Seq<u8>, usize)| read.0.take(read.1 as int));
    let chunks = reads.map_values(|read: (Seq<u8>, usize)| chunk_bytes(read.0, read.1));
    assert forall|i: int| 0 <= i < reads.len() implies chunks[i] == #[trigger] put[i] by {
        assert(reads[i].1 <= reads[i].0.len());
    }
    assert(chunks =~= put);
    law_pieces_join_up(stream, put);
}

/// A read hands on what the transport answered: how many bytes it put in the buffer, that
/// there are no more, or its error, unchanged.
pub proof fn law_read_hands_on_the_answer(
    size: Option<usize>,
    e: QuinnReadError,
    detail: String,
)
    ensures
        read_result(Reply::Quinn(Ok(size))) matches Ok(n) && n == size,
        read_result(Reply::WebSocket(Ok(size))) matches Ok(n) && n == size,
        read_result(Reply::Quinn(Err(e))) matches Err(ReadError::Quinn(f)) && f == e,
        read_result(Reply::WebSocket(Err(detail))) matches Err(ReadError::WebSocket(text)) && text
            == detail,
{
}

/// A read into a buffer adds exactly the bytes that the answer counts, whatever their
/// number, and says that the stream goes on exactly when the answer counts any, though it
/// be none; it says that the stream has ended exactly when the answer does.
pub proof fn law_buffer_gets_what_the_answer_counts(space: Seq<u8>, reply: ReadReply, size: usize)
    ensures
        size <= space.len() && (reply == ReadReply::Quinn(Ok(Some(size))) || reply
            == ReadReply::WebSocket(Ok(Some(size)))) ==> {
            &&& bytes_read(space, reply).len() == size
            &&& bytes_read(space, reply).is_prefix_of(space)
            &&& going_on(reply) matches Ok(more) && more
        },
        (going_on(reply) matches Ok(more) && !more) <==> ((reply matches Reply::Quinn(Ok(None)))
            || (reply matches Reply::WebSocket(Ok(None)))),
        !(reply matches Reply::Quinn(Ok(Some(_)))) && !(reply matches Reply::WebSocket(Ok(Some(_))))
            ==> bytes_read(space, reply).len() == 0,
        reply matches Reply::Quinn(Err(e)) ==> (going_on(reply) matches Err(ReadError::Quinn(f)) && f
            == e),
        reply matches Reply::WebSocket(Err(detail)) ==> (going_on(reply) matches Err(
            ReadError::WebSocket(text),
        ) && text == detail),
{
}

/// Nothing that a stream puts in a buffer is lost: however it is read, in many reads or
/// few, what is added to the buffer is the beginning of the stream, as much of it as the
/// answers count.
pub proof fn law_nothing_read_is_lost(
    stream: Seq<u8>,
    buf: Seq<u8>,
    reads: Seq<(Seq<u8>, ReadReply)>,
)
    requires
        in_order(stream, reads.map_values(|read: (Seq<u8>, ReadReply)| delivered(read.0, read.1))),
    ensures
        ({
            let total = reads.map_values(
                |read: (Seq<u8>, ReadReply)| delivered(read.0, read.1),
            ).flatten().len();
            total <= stream.len() && filled(buf, reads) == buf + stream.take(total as int)
        }),
    decreases reads.len(),
{
    let put = |read: (Seq<u8>, ReadReply)| delivered(read.0, read.1);
    let pieces = reads.map_values(put);
    law_pieces_join_up(stream, pieces);
    let total = pieces.flatten().len() as int;
    if reads.len() > 0 {
        let first = delivered(reads[0].0, reads[0].1);
        assert(bytes_read(reads[0].0, reads[0].1) == first);
        assert(pieces[0] == first);
        assert(pieces.drop_first() =~= reads.drop_first().map_values(put));
        law_nothing_read_is_lost(
            stream.skip(first.len() as int),
            buf + first,
            reads.drop_first(),
        );
        assert(pieces.flatten() =~= first + pieces.drop_first().flatten());
        assert(filled(buf, reads) =~= buf + stream.take(total));
    } else {
        assert(buf =~= buf + stream.take(total));
    }
}

/// A chunk over a WebSocket is what was put in the buffer: the bytes that are counted, or
/// the whole buffer where more are counted than it holds. One over QUIC is handed on as it
/// is, and so is an error, and the end.
pub proof fn law_chunk_is_what_was_read(
    buf: Seq<u8>,
    size: usize,
    chunk: Option<Bytes>,
    e: QuinnReadError,
)
    ensures
        chunk_bytes(buf, size).is_prefix_of(buf),
        size <= buf.len() ==> chunk_bytes(buf, size).len() == size,
        size > buf.len() ==> chunk_bytes(buf, size).len() == buf.len(),
        taken_result(Ok(chunk)) matches Ok(c) && c == chunk,
        taken_result(Err(e)) matches Err(ReadError::Quinn(f)) && f == e,
{
}

/// A stop ends the same stream with the same code.
pub proof fn law_stop_goes_to_the_stream(stream: RecvStream, code: u32)
    ensures
        stream is Quinn ==> (stream.stop_call(code) matches StopCall::Quinn(s, c)
            && RecvStream::Quinn(s) == stream && c == code),
        stream is WebSocket ==> (stream.stop_call(code) matches StopCall::WebSocket(s, c)
            && RecvStream::WebSocket(s) == stream && c == code),
        stream.transport() == Transport::Quinn <==> stream is Quinn,
        stream.transport() == Transport::WebSocket <==> stream is WebSocket,
{
}

/// A chunk is asked for up to the size that is meant: over QUIC in order, and over a
/// WebSocket with room for exactly as many bytes.
pub proof fn law_chunk_is_asked_for_up_to_its_size(stream: RecvStream, max: usize, call: ChunkRead)
    requires
        stream.asks_for_chunk(max, call),
    ensures
        stream is Quinn <==> call is Quinn,
        call matches ChunkRead::Quinn { max: most, ordered } ==> most == max && ordered,
        call matches ChunkRead::WebSocket { buf } ==> buf@.len() == max && (forall|i: int|
            0 <= i < buf@.len() ==> #[trigger] buf@[i] == 0),
{
}

/// There is a chunk over a WebSocket exactly when the answer counts bytes, and it is those
/// bytes; the end and an error are handed on.
pub proof fn law_websocket_chunk_is_what_was_counted(
    buf: Seq<u8>,
    reply: Result<Option<usize>, String>,
    res: Result<Option<Bytes>, ReadError>,
)
    requires
        is_chunk_of(buf, reply, res),
    ensures
        (res matches Ok(Some(_))) <==> (reply matches Ok(Some(_))),
        (res matches Ok(None)) <==> (reply matches Ok(None)),
        reply matches Ok(Some(size)) ==> size <= buf.len() ==> contents(res->Ok_0->Some_0).len()
            == size && contents(res->Ok_0->Some_0).is_prefix_of(buf),
        reply matches Err(detail) ==> (res matches Err(ReadError::WebSocket(text)) && text == detail),
{
}

} // verus!
