//! The decisions of a Media over QUIC relay that also serves browsers without
//! WebTransport, over WebSockets.
//!
//! Nothing here waits, sends or receives. What takes time is asked for by a value
//! that says what to do, and what came of it is handed back as another: see
//! [`startup`] for the command line, [`relay`], [`upstream`], [`websocket`] and [`web`]
//! for what runs, and [`session`], [`send_stream`] and [`recv_stream`] for sessions
//! over either transport.

pub mod addr;
pub mod client;
pub mod endpoint;
pub mod error;
pub mod handles;
pub mod listener;
pub mod outside;
pub mod recv_stream;
pub mod relay;
pub mod roles;
pub mod send_stream;
pub mod session;
pub mod startup;
pub mod tls;
pub mod transport;
pub mod upstream;
pub mod web;
pub mod websocket;
