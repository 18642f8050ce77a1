use std::pin::Pin;
use std::sync::Arc;
use std::task::{Context, Poll};

use bytes::Bytes;
use moq_relay::error::{ReadError, SessionError, WriteError};
use moq_relay::outside::remaining;
use moq_relay::recv_stream::{ChunkRead, RecvStream, StopCall};
use moq_relay::send_stream::{ChunkCall, ChunkStep, ResetCall, SendStream};
use moq_relay::session::{CloseCall, Closed, Session};
use moq_relay::transport::Reply;
use web_transport_quinn::{
    ReadError as QuinnReadError, SessionError as QuinnSessionError, WebTransportError,
    WriteError as QuinnWriteError,
};
use web_transport_trait::{
    RecvStream as RecvStreamTrait, SendStream as SendStreamTrait, Session as SessionTrait,
};
use web_transport_ws::tokio_tungstenite::WebSocketStream;
use web_transport_ws::tungstenite::protocol::Role;

fn run<F: std::future::Future>(future: F) -> F::Output {
    tokio::runtime::Builder::new_multi_thread()
        .worker_threads(2)
        .enable_all()
        .build()
        .unwrap()
        .block_on(future)
}

/// Two ends of a session over an in-memory WebSocket.
async fn websocket_pair() -> (web_transport_ws::Session, web_transport_ws::Session) {
    let (a, b) = tokio::io::duplex(1 << 16);
    let server = WebSocketStream::from_raw_socket(a, Role::Server, None).await;
    let client = WebSocketStream::from_raw_socket(b, Role::Client, None).await;
    let server = web_transport_ws::Session::new(server, true);
    let client = web_transport_ws::Session::new(client, false);
    // A stream each way shows that both ends are up.
    for (from, to) in [(&server, &client), (&client, &server)] {
        from.open_uni().await.unwrap().write(b"up").await.unwrap();
        to.accept_uni().await.unwrap();
    }
    (server, client)
}

/// One end of a wire that carries datagrams in memory.
#[derive(Debug)]
struct Wire {
    port: u16,
    peer: u16,
    outgoing: tokio::sync::mpsc::UnboundedSender<Vec<u8>>,
    incoming: std::sync::Mutex<tokio::sync::mpsc::UnboundedReceiver<Vec<u8>>>,
}

#[derive(Debug)]
struct AlwaysWritable;

fn loopback(port: u16) -> core::net::SocketAddr {
    ([127, 0, 0, 1], port).into()
}

impl quinn::UdpPoller for AlwaysWritable {
    fn poll_writable(self: Pin<&mut Self>, _cx: &mut Context) -> Poll<std::io::Result<()>> {
        Poll::Ready(Ok(()))
    }
}

impl quinn::AsyncUdpSocket for Wire {
    fn create_io_poller(self: Arc<Self>) -> Pin<Box<dyn quinn::UdpPoller>> {
        Box::pin(AlwaysWritable)
    }

    fn try_send(&self, transmit: &quinn::udp::Transmit) -> std::io::Result<()> {
        self.outgoing.send(transmit.contents.to_vec()).ok();
        Ok(())
    }

    fn poll_recv(
        &self,
        cx: &mut Context,
        bufs: &mut [std::io::IoSliceMut<'_>],
        meta: &mut [quinn::udp::RecvMeta],
    ) -> Poll<std::io::Result<usize>> {
        match self.incoming.lock().unwrap().poll_recv(cx) {
            Poll::Ready(Some(datagram)) => {
                bufs[0][..datagram.len()].copy_from_slice(&datagram);
                meta[0] = quinn::udp::RecvMeta::default();
                meta[0].addr = loopback(self.peer);
                meta[0].len = datagram.len();
                meta[0].stride = datagram.len();
                Poll::Ready(Ok(1))
            }
            _ => Poll::Pending,
        }
    }

    fn local_addr(&self) -> std::io::Result<core::net::SocketAddr> {
        Ok(loopback(self.port))
    }
}

fn endpoint(config: Option<quinn::ServerConfig>, wire: Wire) -> quinn::Endpoint {
    quinn::Endpoint::new_with_abstract_socket(
        quinn::EndpointConfig::default(),
        config,
        Arc::new(wire),
        Arc::new(quinn::TokioRuntime),
    )
    .unwrap()
}

/// Two ends of a session over QUIC, on a wire in memory, and what keeps them up.
async fn quinn_pair() -> (
    web_transport_quinn::Session,
    web_transport_quinn::Session,
    quinn::Endpoint,
    quinn::Endpoint,
) {
    let certified = rcgen::generate_simple_self_signed(vec!["localhost".to_string()]).unwrap();
    let cert = certified.cert.der().clone();
    let key = rustls::pki_types::PrivatePkcs8KeyDer::from(certified.key_pair.serialize_der());
    let config = quinn::ServerConfig::with_single_cert(vec![cert.clone()], key.into()).unwrap();
    let (to_server, at_server) = tokio::sync::mpsc::unbounded_channel();
    let (to_client, at_client) = tokio::sync::mpsc::unbounded_channel();
    let server = endpoint(
        Some(config),
        Wire { port: 1, peer: 2, outgoing: to_client, incoming: at_server.into() },
    );
    let mut client = endpoint(
        None,
        Wire { port: 2, peer: 1, outgoing: to_server, incoming: at_client.into() },
    );
    let mut roots = rustls::RootCertStore::empty();
    roots.add(cert).unwrap();
    client.set_default_client_config(
        quinn::ClientConfig::with_root_certificates(Arc::new(roots)).unwrap(),
    );
    let accepting = {
        let server = server.clone();
        tokio::spawn(async move { server.accept().await.unwrap().await.unwrap() })
    };
    let there = client.connect(loopback(1), "localhost").unwrap().await.unwrap();
    let here = accepting.await.unwrap();
    (here.into(), there.into(), server, client)
}

fn session_error() -> QuinnSessionError {
    QuinnSessionError::WebTransportError(WebTransportError::UnknownSession)
}

fn offer(stream: &SendStream, chunk: &[u8], taken: usize) -> ChunkStep {
    stream.chunk_offered(Bytes::copy_from_slice(chunk), Ok(taken))
}

#[test]
fn websocket_streams_stay_on_the_websocket() {
    run(async {
        let (server, client) = websocket_pair().await;
        let here = Session::from(server.clone());
        let there = Session::from(client.clone());
        assert!(matches!(here, Session::WebSocket(_)));

        let opened = there.open_uni(Reply::WebSocket(Ok(client.open_uni().await.unwrap()))).unwrap();
        let mut send = match opened {
            SendStream::WebSocket(stream) => stream,
            SendStream::Quinn(_) => panic!("wrong transport"),
        };
        assert_eq!(send.write(b"over the bridge").await.unwrap(), 15);

        let accepted =
            here.accept_uni(Reply::WebSocket(Ok(server.accept_uni().await.unwrap()))).unwrap();
        let mut recv = match accepted {
            RecvStream::WebSocket(stream) => stream,
            RecvStream::Quinn(_) => panic!("wrong transport"),
        };
        let mut buf = [0u8; 64];
        assert_eq!(recv.read(&mut buf).await.unwrap(), Some(15));
        assert_eq!(&buf[..15], b"over the bridge");

        let (send, recv) = there.open_bi(Reply::WebSocket(Ok(client.open_bi().await.unwrap()))).unwrap();
        assert!(matches!(send, SendStream::WebSocket(_)));
        assert!(matches!(recv, RecvStream::WebSocket(_)));
        if let SendStream::WebSocket(mut stream) = send {
            stream.write(b"x").await.unwrap();
        }
        let (send, recv) =
            here.accept_bi(Reply::WebSocket(Ok(server.accept_bi().await.unwrap()))).unwrap();
        assert!(matches!(send, SendStream::WebSocket(_)));
        assert!(matches!(recv, RecvStream::WebSocket(_)));
    });
}

#[test]
fn websocket_errors_carry_their_text() {
    run(async {
        let (server, _client) = websocket_pair().await;
        let session = Session::from(server);
        let text = || "Closed".to_string();
        assert!(matches!(session.accept_uni(Reply::WebSocket(Err(text()))),
            Err(SessionError::WebSocket(t)) if t == "Closed"));
        assert!(matches!(session.accept_bi(Reply::WebSocket(Err(text()))),
            Err(SessionError::WebSocket(t)) if t == "Closed"));
        assert!(matches!(session.open_bi(Reply::WebSocket(Err(text()))),
            Err(SessionError::WebSocket(t)) if t == "Closed"));
        assert!(matches!(session.open_uni(Reply::WebSocket(Err(text()))),
            Err(SessionError::WebSocket(t)) if t == "Closed"));
    });
}

#[test]
fn websocket_has_no_datagrams() {
    run(async {
        let (server, _client) = websocket_pair().await;
        let session = Session::from(server);
        assert!(matches!(
            session.send_datagram(Bytes::from_static(b"dgram")),
            Err(SessionError::DatagramsNotSupported)
        ));
        assert!(matches!(session.recv_datagram(None), Err(SessionError::DatagramsNotSupported)));
        assert_eq!(session.max_datagram_size(None), 0);
    });
}

#[test]
fn websocket_end_is_written_out() {
    run(async {
        let (server, _client) = websocket_pair().await;
        let session = Session::from(server.clone());
        assert!(matches!(session.closed(Closed::WebSocket(Ok(()))),
            SessionError::WebSocket(t) if t == format!("{:?}", Ok::<(), String>(()))));
        SessionTrait::close(&server, 7, "done");
        let end = server.closed().await;
        let whole = format!("{:?}", end);
        let inner = end.map_err(|e| format!("{:?}", e));
        assert!(matches!(session.closed(Closed::WebSocket(inner)),
            SessionError::WebSocket(t) if t == whole));
    });
}

#[test]
fn websocket_close_passes_the_reason_as_text() {
    run(async {
        let (server, _client) = websocket_pair().await;
        match Session::from(server.clone()).close(9, "gr\u{fc}\u{df}e") {
            CloseCall::WebSocket(session, code, reason) => {
                assert_eq!(code, 9);
                assert_eq!(reason, "gr\u{fc}\u{df}e");
                SessionTrait::close(&session, code, &reason);
            }
            CloseCall::Quinn(..) => panic!("wrong transport"),
        }
        let end = format!("{:?}", server.closed().await);
        assert!(end.contains(&format!("{:?}", "gr\u{fc}\u{df}e")), "{}", end);
    });
}

#[test]
fn session_clone_is_the_same_session() {
    run(async {
        let (here, _there, _server, _client) = quinn_pair().await;
        let session = Session::from(here);
        match (session.clone(), session) {
            (Session::Quinn(a), Session::Quinn(b)) => assert_eq!(a, b),
            _ => panic!("wrong transport"),
        }
        let (server, _client) = websocket_pair().await;
        let session = Session::from(server.clone());
        match session.clone() {
            Session::WebSocket(copy) => SessionTrait::close(&copy, 1, "by the copy"),
            Session::Quinn(_) => panic!("wrong transport"),
        }
        assert!(format!("{:?}", server.closed().await).contains("by the copy"));
    });
}

#[test]
fn quinn_streams_stay_on_quinn() {
    run(async {
        let (server, client, _e1, _e2) = quinn_pair().await;
        let here = Session::from(server.clone());
        let there = Session::from(client.clone());
        assert!(matches!(here, Session::Quinn(_)));

        let opened = there.open_uni(Reply::Quinn(Ok(client.open_uni().await.unwrap()))).unwrap();
        let mut send = match opened {
            SendStream::Quinn(stream) => stream,
            SendStream::WebSocket(_) => panic!("wrong transport"),
        };
        send.write_all(b"over quic").await.unwrap();
        let accepted = here.accept_uni(Reply::Quinn(Ok(server.accept_uni().await.unwrap()))).unwrap();
        let mut recv = match accepted {
            RecvStream::Quinn(stream) => stream,
            RecvStream::WebSocket(_) => panic!("wrong transport"),
        };
        let mut buf = [0u8; 9];
        recv.read_exact(&mut buf).await.unwrap();
        assert_eq!(&buf, b"over quic");

        let (send, recv) = there.open_bi(Reply::Quinn(Ok(client.open_bi().await.unwrap()))).unwrap();
        assert!(matches!(recv, RecvStream::Quinn(_)));
        if let SendStream::Quinn(mut stream) = send {
            stream.write_all(b"x").await.unwrap();
        }
        let (send, recv) = here.accept_bi(Reply::Quinn(Ok(server.accept_bi().await.unwrap()))).unwrap();
        assert!(matches!(send, SendStream::Quinn(_)));
        assert!(matches!(recv, RecvStream::Quinn(_)));

        assert!(matches!(here.accept_uni(Reply::Quinn(Err(session_error()))), Err(SessionError::Quinn(_))));
        assert!(matches!(here.accept_bi(Reply::Quinn(Err(session_error()))), Err(SessionError::Quinn(_))));
        assert!(matches!(here.open_bi(Reply::Quinn(Err(session_error()))), Err(SessionError::Quinn(_))));
        assert!(matches!(here.open_uni(Reply::Quinn(Err(session_error()))), Err(SessionError::Quinn(_))));
    });
}

#[test]
fn quinn_datagrams_pass_through() {
    run(async {
        let (server, client, _e1, _e2) = quinn_pair().await;
        let here = Session::from(server.clone());
        let there = Session::from(client.clone());
        let payload = there.send_datagram(Bytes::from_static(b"dgram")).unwrap();
        assert_eq!(payload, Bytes::from_static(b"dgram"));
        assert!(there.datagram_sent(client.send_datagram(payload)).is_ok());
        let got = here.recv_datagram(Some(server.read_datagram().await)).unwrap();
        assert_eq!(got, Bytes::from_static(b"dgram"));
        assert!(matches!(here.recv_datagram(Some(Err(session_error()))), Err(SessionError::Quinn(_))));
        assert!(matches!(here.datagram_sent(Err(session_error())), Err(SessionError::Quinn(_))));
        let size = client.max_datagram_size();
        assert!(size > 0);
        assert_eq!(there.max_datagram_size(Some(size)), size);
    });
}

#[test]
fn quinn_close_passes_the_reason_in_bytes() {
    run(async {
        let (server, client, _e1, _e2) = quinn_pair().await;
        match Session::from(server).close(5, "gr\u{fc}\u{df}e") {
            CloseCall::Quinn(session, code, reason) => {
                assert_eq!(code, 5);
                assert_eq!(reason, "gr\u{fc}\u{df}e".as_bytes());
                session.close(code, &reason);
            }
            CloseCall::WebSocket(..) => panic!("wrong transport"),
        }
        let why = client.closed().await;
        let there = Session::from(client);
        match there.closed(Closed::Quinn(why)) {
            SessionError::Quinn(QuinnSessionError::ConnectionError(
                quinn::ConnectionError::ApplicationClosed(close),
            )) => assert_eq!(&close.reason[..], "gr\u{fc}\u{df}e".as_bytes()),
            other => panic!("{:?}", other),
        }
    });
}

#[test]
fn writes_count_what_was_taken() {
    run(async {
        let (server, _client) = websocket_pair().await;
        let stream = SendStream::WebSocket(server.open_uni().await.unwrap());
        assert_eq!(stream.write(Reply::WebSocket(Ok(12))).unwrap(), 12);
        assert!(matches!(stream.write(Reply::WebSocket(Err("gone".to_string()))),
            Err(WriteError::WebSocket(t)) if t == "gone"));

        let (here, _there, _e1, _e2) = quinn_pair().await;
        let stream = SendStream::Quinn(here.open_uni().await.unwrap());
        assert_eq!(stream.write(Reply::Quinn(Ok(12))).unwrap(), 12);
        assert!(matches!(stream.write(Reply::Quinn(Err(QuinnWriteError::Stopped(3)))),
            Err(WriteError::Quinn(QuinnWriteError::Stopped(3)))));
    });
}

#[test]
fn written_bytes_leave_the_buffer() {
    run(async {
        let (server, _client) = websocket_pair().await;
        let stream = SendStream::WebSocket(server.open_uni().await.unwrap());
        let mut buf = Bytes::from_static(b"hello world");
        assert_eq!(stream.write_buf(&mut buf, Reply::WebSocket(Ok(6))).unwrap(), 6);
        assert_eq!(&buf[..], b"world");
        assert!(stream.write_buf(&mut buf, Reply::WebSocket(Err("gone".to_string()))).is_err());
        assert_eq!(&buf[..], b"world");
        assert_eq!(stream.write_buf(&mut buf, Reply::WebSocket(Ok(0))).unwrap(), 0);
        assert_eq!(&buf[..], b"world");
        assert_eq!(stream.write_buf(&mut buf, Reply::WebSocket(Ok(5))).unwrap(), 5);
        assert!(buf.is_empty());
    });
}

#[test]
fn buffer_arrives_in_order_however_it_is_written_and_read() {
    run(async {
        let (server, client) = websocket_pair().await;
        let mut send = client.open_uni().await.unwrap();
        let sender = SendStream::WebSocket(server.open_uni().await.unwrap());
        let mut buf = Bytes::from_static(b"in order, without a gap");
        assert_eq!(remaining(&buf), 23);
        for take in [3usize, 0, 1, 19] {
            assert!(take <= remaining(&buf));
            send.write(&buf[..take]).await.unwrap();
            sender.write_buf(&mut buf, Reply::WebSocket(Ok(take))).unwrap();
        }
        assert_eq!(remaining(&buf), 0);

        let mut inner = server.accept_uni().await.unwrap();
        let receiver = {
            let mut other = client.open_uni().await.unwrap();
            other.write(b"x").await.unwrap();
            RecvStream::WebSocket(server.accept_uni().await.unwrap())
        };
        let mut read = b"> ".to_vec();
        let mut sizes = [2usize, 5, 1].iter().cycle();
        while read.len() < 12 {
            let mut space = vec![0u8; *sizes.next().unwrap()];
            let size = inner.read(&mut space).await.map_err(|e| format!("{:?}", e));
            assert!(receiver.read_buf(&mut read, &space, Reply::WebSocket(size)).unwrap());
        }
        while read.len() < 25 {
            let mut space = match receiver.read_chunk(4) {
                ChunkRead::WebSocket { buf } => buf,
                ChunkRead::Quinn { .. } => panic!("wrong transport"),
            };
            let size = inner.read(&mut space).await.map_err(|e| format!("{:?}", e));
            read.extend_from_slice(&receiver.chunk_read(space, size).unwrap().unwrap());
        }
        assert_eq!(read, b"> in order, without a gap");
    });
}

#[test]
fn chunk_goes_whole_over_a_websocket() {
    run(async {
        let (server, _client) = websocket_pair().await;
        let stream = SendStream::WebSocket(server.open_uni().await.unwrap());
        let call = stream.write_chunk(Bytes::from_static(b"abcdef"));
        let chunk = match call {
            ChunkCall::WebSocket(chunk) => chunk,
            ChunkCall::Quinn(_) => panic!("wrong transport"),
        };
        assert_eq!(&chunk[..], b"abcdef");
        let mut sent = Vec::new();
        let mut rest = chunk;
        for take in [2usize, 0, 3] {
            sent.extend_from_slice(&rest[..take]);
            rest = match stream.chunk_offered(rest, Ok(take)) {
                ChunkStep::Again(rest) => rest,
                ChunkStep::Done(_) => panic!("too early"),
            };
        }
        assert_eq!(&rest[..], b"f");
        sent.extend_from_slice(&rest);
        assert!(matches!(stream.chunk_offered(rest, Ok(1)), ChunkStep::Done(Ok(()))));
        assert_eq!(sent, b"abcdef");

        assert!(matches!(offer(&stream, b"", 0), ChunkStep::Done(Ok(()))));
        assert!(matches!(offer(&stream, b"ab", 2), ChunkStep::Done(Ok(()))));
        assert!(matches!(
            stream.chunk_offered(Bytes::from_static(b"ab"), Err("gone".to_string())),
            ChunkStep::Done(Err(WriteError::WebSocket(t))) if t == "gone"
        ));
    });
}

#[test]
fn chunk_goes_whole_over_quinn() {
    run(async {
        let (here, there, _e1, _e2) = quinn_pair().await;
        let stream = SendStream::Quinn(here.open_uni().await.unwrap());
        let chunk = match stream.write_chunk(Bytes::from_static(b"abcdef")) {
            ChunkCall::Quinn(chunk) => chunk,
            ChunkCall::WebSocket(_) => panic!("wrong transport"),
        };
        assert!(matches!(stream.chunk_sent(Err(QuinnWriteError::ClosedStream)),
            Err(WriteError::Quinn(QuinnWriteError::ClosedStream))));
        assert!(stream.chunk_sent(Ok(())).is_ok());
        assert_eq!(stream.set_priority(-4), Some(-4));
        let mut inner = match stream {
            SendStream::Quinn(inner) => inner,
            SendStream::WebSocket(_) => panic!("wrong transport"),
        };
        inner.write_chunk(chunk).await.unwrap();
        inner.finish().unwrap();

        let mut inner = there.accept_uni().await.unwrap();
        let (max, ordered) = match RecvStream::Quinn(here_recv(&here, &there).await).read_chunk(4) {
            ChunkRead::Quinn { max, ordered } => (max, ordered),
            ChunkRead::WebSocket { .. } => panic!("wrong transport"),
        };
        assert_eq!((max, ordered), (4, true));
        let chunk = inner.read_chunk(max, ordered).await.map(|c| c.map(|c| c.bytes));
        let stream = RecvStream::Quinn(inner);
        let chunk = stream.chunk_taken(chunk).unwrap().unwrap();
        assert_eq!(&chunk[..], b"abcd");
        assert!(stream.chunk_taken(Ok(None)).unwrap().is_none());
        assert!(matches!(stream.chunk_taken(Err(QuinnReadError::Reset(8))),
            Err(ReadError::Quinn(QuinnReadError::Reset(8)))));
    });
}

async fn here_recv(
    here: &web_transport_quinn::Session,
    there: &web_transport_quinn::Session,
) -> web_transport_quinn::RecvStream {
    let mut send = there.open_uni().await.unwrap();
    send.write_all(b"-").await.unwrap();
    here.accept_uni().await.unwrap()
}

#[test]
fn websocket_streams_have_no_priority() {
    run(async {
        let (server, _client) = websocket_pair().await;
        let stream = SendStream::WebSocket(server.open_uni().await.unwrap());
        assert_eq!(stream.set_priority(3), None);
    });
}

#[test]
fn reset_and_stop_keep_the_code() {
    run(async {
        let (server, client) = websocket_pair().await;
        let (mut send, _recv) = client.open_bi().await.unwrap();
        send.write(b"x").await.unwrap();
        let (back, recv) = server.accept_bi().await.unwrap();
        match SendStream::WebSocket(back).reset(21) {
            ResetCall::WebSocket(mut stream, code) => {
                assert_eq!(code, 21);
                stream.reset(code);
            }
            ResetCall::Quinn(..) => panic!("wrong transport"),
        }
        match RecvStream::WebSocket(recv).stop(22) {
            StopCall::WebSocket(mut stream, code) => {
                assert_eq!(code, 22);
                stream.stop(code);
            }
            StopCall::Quinn(..) => panic!("wrong transport"),
        }

        let (here, there, _e1, _e2) = quinn_pair().await;
        let (mut send, _recv) = there.open_bi().await.unwrap();
        send.write_all(b"x").await.unwrap();
        let (back, recv) = here.accept_bi().await.unwrap();
        match SendStream::Quinn(back).reset(23) {
            ResetCall::Quinn(_, code) => assert_eq!(code, 23),
            ResetCall::WebSocket(..) => panic!("wrong transport"),
        }
        match RecvStream::Quinn(recv).stop(24) {
            StopCall::Quinn(_, code) => assert_eq!(code, 24),
            StopCall::WebSocket(..) => panic!("wrong transport"),
        }
    });
}

#[test]
fn reads_count_what_arrived() {
    run(async {
        let (server, client) = websocket_pair().await;
        let mut send = client.open_uni().await.unwrap();
        send.write(b"x").await.unwrap();
        let stream = RecvStream::WebSocket(server.accept_uni().await.unwrap());
        assert_eq!(stream.read(Reply::WebSocket(Ok(Some(4)))).unwrap(), Some(4));
        assert_eq!(stream.read(Reply::WebSocket(Ok(None))).unwrap(), None);
        assert!(matches!(stream.read(Reply::WebSocket(Err("reset".to_string()))),
            Err(ReadError::WebSocket(t)) if t == "reset"));

        let (here, there, _e1, _e2) = quinn_pair().await;
        let stream = RecvStream::Quinn(here_recv(&here, &there).await);
        assert_eq!(stream.read(Reply::Quinn(Ok(Some(4)))).unwrap(), Some(4));
        assert_eq!(stream.read(Reply::Quinn(Ok(None))).unwrap(), None);
        assert!(matches!(stream.read(Reply::Quinn(Err(QuinnReadError::ClosedStream))),
            Err(ReadError::Quinn(QuinnReadError::ClosedStream))));
    });
}

#[test]
fn read_bytes_join_the_buffer() {
    run(async {
        let (server, client) = websocket_pair().await;
        let mut send = client.open_uni().await.unwrap();
        send.write(b"x").await.unwrap();
        let stream = RecvStream::WebSocket(server.accept_uni().await.unwrap());
        let mut buf = b"head ".to_vec();
        let space = b"body....".to_vec();
        assert!(stream.read_buf(&mut buf, &space, Reply::WebSocket(Ok(Some(4)))).unwrap());
        assert_eq!(buf, b"head body");
        assert!(!stream.read_buf(&mut buf, &space, Reply::WebSocket(Ok(None))).unwrap());
        assert_eq!(buf, b"head body");
        assert!(stream
            .read_buf(&mut buf, &space, Reply::WebSocket(Err("reset".to_string())))
            .is_err());
        assert_eq!(buf, b"head body");
        assert!(stream.read_buf(&mut buf, &space, Reply::WebSocket(Ok(Some(0)))).unwrap());
        assert_eq!(buf, b"head body");
        assert!(stream.read_buf(&mut buf, &space, Reply::WebSocket(Ok(Some(8)))).unwrap());
        assert_eq!(buf, b"head bodybody....");
    });
}

#[test]
fn websocket_chunk_is_what_was_read() {
    run(async {
        let (server, client) = websocket_pair().await;
        let mut send = client.open_uni().await.unwrap();
        send.write(b"abcdef").await.unwrap();
        let mut inner = server.accept_uni().await.unwrap();
        let stream = {
            let mut other = client.open_uni().await.unwrap();
            other.write(b"x").await.unwrap();
            RecvStream::WebSocket(server.accept_uni().await.unwrap())
        };
        let mut buf = match stream.read_chunk(4) {
            ChunkRead::WebSocket { buf } => buf,
            ChunkRead::Quinn { .. } => panic!("wrong transport"),
        };
        assert_eq!(buf, vec![0u8; 4]);
        let size = inner.read(&mut buf).await.map_err(|e| format!("{:?}", e));
        assert_eq!(size, Ok(Some(4)));
        let chunk = stream.chunk_read(buf, size).unwrap().unwrap();
        assert_eq!(&chunk[..], b"abcd");

        let chunk = stream.chunk_read(b"abcdef".to_vec(), Ok(Some(2))).unwrap().unwrap();
        assert_eq!(&chunk[..], b"ab");
        let chunk = stream.chunk_read(b"ab".to_vec(), Ok(Some(5))).unwrap().unwrap();
        assert_eq!(&chunk[..], b"ab");
        let chunk = stream.chunk_read(b"ab".to_vec(), Ok(Some(0))).unwrap().unwrap();
        assert!(chunk.is_empty());
        assert!(stream.chunk_read(b"ab".to_vec(), Ok(None)).unwrap().is_none());
        assert!(matches!(stream.chunk_read(b"ab".to_vec(), Err("reset".to_string())),
            Err(ReadError::WebSocket(t)) if t == "reset"));
        assert!(matches!(stream.read_chunk(0), ChunkRead::WebSocket { buf } if buf.is_empty()));
    });
}

#[test]
fn quinn_chunks_join_up() {
    run(async {
        let (here, there, _e1, _e2) = quinn_pair().await;
        let mut send = here.open_uni().await.unwrap();
        for part in ["in order", ", ", "without a gap"] {
            send.write_all(part.as_bytes()).await.unwrap();
        }
        let mut inner = there.accept_uni().await.unwrap();
        let mut other = here.open_uni().await.unwrap();
        other.write_all(b"x").await.unwrap();
        let stream = RecvStream::Quinn(there.accept_uni().await.unwrap());
        let mut read = Vec::new();
        while read.len() < 23 {
            let reply = match stream.read_chunk(5) {
                ChunkRead::Quinn { max, ordered } => inner.read_chunk(max, ordered).await,
                ChunkRead::WebSocket { .. } => panic!("wrong transport"),
            };
            let reply = reply.map(|chunk| chunk.map(|chunk| chunk.bytes));
            let chunk = stream.chunk_taken(reply).unwrap().unwrap();
            assert!(chunk.len() <= 5);
            read.extend_from_slice(&chunk);
        }
        assert_eq!(read, b"in order, without a gap");
    });
}

#[test]
fn messages_name_the_transport() {
    assert_eq!(
        SessionError::from(session_error()).message(),
        "quinn session error: webtransport error: unknown session"
    );
    assert_eq!(
        SessionError::WebSocket("Closed".to_string()).message(),
        "websocket session error: Closed"
    );
    assert_eq!(
        SessionError::DatagramsNotSupported.message(),
        "datagrams not supported over WebSocket"
    );
    assert_eq!(
        WriteError::from(QuinnWriteError::Stopped(5)).message(),
        "quinn write error: STOP_SENDING: 5"
    );
    assert_eq!(
        WriteError::WebSocket("Closed".to_string()).message(),
        "websocket write error: Closed"
    );
    assert_eq!(
        ReadError::from(QuinnReadError::Reset(6)).message(),
        "quinn read error: RESET_STREAM: 6"
    );
    assert_eq!(
        ReadError::WebSocket("Closed".to_string()).message(),
        "websocket read error: Closed"
    );
}

#[test]
fn cloned_errors_read_the_same() {
    let error = SessionError::from(session_error());
    assert_eq!(error.clone().message(), error.message());
    assert!(matches!(
        SessionError::DatagramsNotSupported.clone(),
        SessionError::DatagramsNotSupported
    ));
    let error = WriteError::from(QuinnWriteError::Stopped(5));
    assert_eq!(error.clone().message(), error.message());
    let error = WriteError::WebSocket("Closed".to_string());
    assert_eq!(error.clone().message(), error.message());
    let error = ReadError::from(QuinnReadError::Reset(6));
    assert_eq!(error.clone().message(), error.message());
    let error = ReadError::WebSocket("Closed".to_string());
    assert_eq!(error.clone().message(), error.message());
}
