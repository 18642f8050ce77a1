# moq-relay

A relay for Media over QUIC: its decisions, for browsers with WebTransport over QUIC and
for browsers without it over WebSockets, and a program that carries them out.

`src/` decides, and is verified with Verus: what a command line asks for, in which
order things are started, which services a session gets, what stops the relay and
what does not, when the upstream relay is tried again, and what the answer of a
transport means to the caller. Each machine takes an event and says what to do next;
the functions named `law_...` state what holds over whole runs.

`app/` does what `src/` says: it parses the command line, loads certificates, opens
sockets, and carries events and answers back and forth. Two things it cannot do yet:

- A browser on a WebSocket gets as far as its transport session. The MoQ layer of the
  `moq-transport` crate takes QUIC sessions only, so the session is then dropped.
- There is no client for the API of a cluster, so a command line with both `--api` and
  `--node` is refused.

`app/tracks.rs` is the program's own: a small registry of the tracks that peers announce,
and the code that serves them. Nothing in `src/` depends on how it works.

| module | what it decides |
| --- | --- |
| `startup` | what to set up, from the command line |
| `relay` | the life of a relay and of its tasks |
| `upstream` | connecting to the upstream relay, again and again |
| `websocket`, `web`, `listener` | the TCP servers and their connections |
| `client`, `roles` | a MoQ session with a client, and what it may use |
| `session`, `send_stream`, `recv_stream`, `transport`, `error` | one interface to QUIC and WebSocket sessions |
| `addr`, `endpoint`, `tls`, `handles`, `outside` | plain values, and what is handed on unseen |
