//! Socket addresses as plain values.

use vstd::prelude::*;

verus! {

/// An IP address.
#[derive(Clone, Copy, PartialEq, Eq, Debug, Structural)]
pub enum IpAddr {
    /// The 32 bits of an IPv4 address, in network order.
    V4(u32),
    /// The 128 bits of an IPv6 address, in network order, with the flow label and the
    /// scope that go with it.
    V6 { bits: u128, flowinfo: u32, scope_id: u32 },
}

/// An address to listen on or to bind to.
#[derive(Clone, Copy, PartialEq, Eq, Debug, Structural)]
pub struct SocketAddr {
    pub ip: IpAddr,
    pub port: u16,
}

impl SocketAddr {
    /// `[::]:port`, that is every local address at that port.
    pub open spec fn any_at(port: u16) -> SocketAddr {
        SocketAddr { ip: IpAddr::V6 { bits: 0, flowinfo: 0, scope_id: 0 }, port }
    }

    /// `[::]:port`, that is every local address at that port.
    pub fn any(port: u16) -> (addr: SocketAddr)
        ensures
            addr == Self::any_at(port),
    {
        SocketAddr { ip: IpAddr::V6 { bits: 0, flowinfo: 0, scope_id: 0 }, port }
    }
}

/// `[::]:port` is the unspecified IPv6 address with that port, so that two of them differ
/// only where their ports do.
pub proof fn law_any_address_at_a_port(port: u16, other: u16)
    ensures
        SocketAddr::any_at(port).port == port,
        SocketAddr::any_at(port).ip matches IpAddr::V6 { bits, flowinfo, scope_id } && bits == 0
            && flowinfo == 0 && scope_id == 0,
        SocketAddr::any_at(port) == SocketAddr::any_at(other) <==> port == other,
{
}

} // verus!
