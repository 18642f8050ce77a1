//! What a relay hands on without looking inside.

use vstd::prelude::*;

verus! {

/// The handles that a relay passes from its configuration to its servers and sessions.
///
/// No decision depends on what is behind a handle, and the library makes none of them:
/// whatever handle turns up in a session or at a server was put in by the program. Where
/// two of them are said to be equal, both lead to the same thing.
pub trait Handles: Copy {
    /// A loaded TLS configuration.
    type Tls: Copy;
    /// The side of a QUIC endpoint that makes connections.
    type Quic: Copy;
    /// A registry of local tracks, where announces are entered and looked up.
    type Locals: Copy;
    /// The other relays of the cluster, to fetch tracks from.
    type Remotes: Copy;
    /// The API of the cluster, to register announces with.
    type Api: Copy;
    /// The sending side of a session with another relay, to forward announces on.
    type Forward: Copy;
}

} // verus!
