use vstd::prelude::*;

verus! {

/// The port used by the multicast channel and by the unicast acknowledgment
/// channel alike.
pub const PROTOCOL_PORT: u16 = 14000;

/// An IPv4 address as its four octets, most significant first.
#[derive(Clone, Copy, Debug, PartialEq, Eq, Structural)]
pub struct Ipv4Address(pub u8, pub u8, pub u8, pub u8);

/// An IPv4 address with a port.
#[derive(Clone, Copy, Debug, PartialEq, Eq, Structural)]
pub struct Endpoint {
    pub ip: Ipv4Address,
    pub port: u16,
}

/// The well-known multicast group, 239.0.0.3.
pub open spec fn spec_multicast_group() -> Ipv4Address {
    Ipv4Address(239, 0, 0, 3)
}

/// The multicast group that probes are sent to and that receivers join.
pub fn multicast_group() -> (r: Ipv4Address)
    ensures
        r == spec_multicast_group(),
{
    Ipv4Address(239, 0, 0, 3)
}

/// The address and port of the multicast channel.
pub fn group_endpoint() -> (r: Endpoint)
    ensures
        r == (Endpoint { ip: spec_multicast_group(), port: PROTOCOL_PORT }),
{
    Endpoint { ip: multicast_group(), port: PROTOCOL_PORT }
}

/// The protocol endpoint on host `ip`: where a host binds its own sockets, and
/// where acknowledgments to it are sent.
pub fn protocol_endpoint(ip: Ipv4Address) -> (r: Endpoint)
    ensures
        r == (Endpoint { ip: ip, port: PROTOCOL_PORT }),
{
    Endpoint { ip, port: PROTOCOL_PORT }
}

} // verus!
