//! QUIC endpoints.

use vstd::prelude::*;
use crate::addr::SocketAddr;
use crate::handles::Handles;

verus! {

/// What a QUIC endpoint is made from.
#[derive(Clone, Copy)]
pub struct EndpointConfig<H: Handles> {
    /// The address to bind.
    pub bind: SocketAddr,
    /// The TLS configuration, for connections in either direction.
    pub tls: H::Tls,
}

} // verus!
