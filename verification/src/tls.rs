//! What the relay needs to know of its TLS configuration.

use vstd::prelude::*;
use vstd::string::*;
use crate::handles::Handles;

verus! {

/// A loaded TLS configuration.
pub struct TlsConfig<H: Handles> {
    /// The configuration itself.
    pub handle: H::Tls,
    /// There is a certificate to serve.
    pub server: bool,
    /// The fingerprint of each certificate.
    pub fingerprints: Vec<String>,
}

impl<H: Handles> TlsConfig<H> {
    /// A configuration without any certificate.
    pub fn none(handle: H::Tls) -> (tls: TlsConfig<H>)
        ensures
            tls.handle == handle,
            !tls.server,
            tls.fingerprints@.len() == 0,
    {
        TlsConfig { handle, server: false, fingerprints: Vec::new() }
    }
}

/// How TLS connections are accepted.
pub struct TlsAcceptor<H: Handles> {
    /// The configuration whose certificate is served.
    pub tls: H::Tls,
    /// The application protocols that are offered, the preferred one first.
    pub alpn_protocols: Vec<Vec<u8>>,
}

impl<H: Handles> TlsAcceptor<H> {
    /// The names of the protocols, as bytes.
    pub open spec fn protocols(self) -> Seq<Seq<u8>> {
        self.alpn_protocols@.map_values(|name: Vec<u8>| name@)
    }

    /// An acceptor for web pages: HTTP/2, or else HTTP/1.1.
    pub fn for_web(tls: H::Tls) -> (acceptor: TlsAcceptor<H>)
        ensures
            acceptor.tls == tls,
            acceptor.protocols() == seq!["h2".spec_bytes(), "http/1.1".spec_bytes()],
    {
        let mut alpn_protocols: Vec<Vec<u8>> = Vec::new();
        alpn_protocols.push("h2".as_bytes_vec());
        alpn_protocols.push("http/1.1".as_bytes_vec());
        TlsAcceptor { tls, alpn_protocols }
    }

    /// An acceptor for WebSockets: HTTP/1.1 alone, since an HTTP/2 connection cannot
    /// be upgraded to a WebSocket.
    pub fn for_websocket(tls: H::Tls) -> (acceptor: TlsAcceptor<H>)
        ensures
            acceptor.tls == tls,
            acceptor.protocols() == seq!["http/1.1".spec_bytes()],
    {
        let mut alpn_protocols: Vec<Vec<u8>> = Vec::new();
        alpn_protocols.push("http/1.1".as_bytes_vec());
        TlsAcceptor { tls, alpn_protocols }
    }
}

} // verus!
