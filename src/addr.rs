//! Internet addresses, held as plain integers.

use vstd::prelude::*;

verus! {

/// An IPv4 address, as the big-endian integer of its four octets.
#[derive(Clone, Copy, Debug, PartialEq, Eq, Structural)]
pub struct Ipv4Addr {
    pub bits: u32,
}

/// An IPv6 address, as the big-endian integer of its sixteen octets.
#[derive(Clone, Copy, Debug, PartialEq, Eq, Structural)]
pub struct Ipv6Addr {
    pub bits: u128,
}

/// An IP address of either family.
#[derive(Clone, Copy, Debug, PartialEq, Eq, Structural)]
pub enum IpAddr {
    V4(Ipv4Addr),
    V6(Ipv6Addr),
}

/// An IPv4 socket address: an address and a port.
#[derive(Clone, Copy, Debug, PartialEq, Eq, Structural)]
pub struct SocketAddrV4 {
    pub ip: Ipv4Addr,
    pub port: u16,
}

/// An IPv6 socket address: an address, a port, the flow label and the scope.
#[derive(Clone, Copy, Debug, PartialEq, Eq, Structural)]
pub struct SocketAddrV6 {
    pub ip: Ipv6Addr,
    pub port: u16,
    pub flowinfo: u32,
    pub scope_id: u32,
}

/// A socket address of either family.
#[derive(Clone, Copy, Debug, PartialEq, Eq, Structural)]
pub enum SocketAddr {
    V4(SocketAddrV4),
    V6(SocketAddrV6),
}

/// The socket address that an IP address and a port denote; an IPv6 one
/// has no flow label and the default scope.
pub open spec fn socket_addr_of(ip: IpAddr, port: u16) -> SocketAddr {
    match ip {
        IpAddr::V4(a) => SocketAddr::V4(SocketAddrV4 { ip: a, port }),
        IpAddr::V6(a) => SocketAddr::V6(SocketAddrV6 { ip: a, port, flowinfo: 0, scope_id: 0 }),
    }
}

impl Ipv4Addr {
    /// The address with the octets `a.b.c.d`.
    pub fn new(a: u8, b: u8, c: u8, d: u8) -> (r: Ipv4Addr)
        ensures
            r.bits == a as int * 0x1000000 + b as int * 0x10000 + c as int * 0x100 + d as int,
    {
        let bits: u32 = (a as u32) * 0x1000000 + (b as u32) * 0x10000 + (c as u32) * 0x100 + (d as u32);
        Ipv4Addr { bits }
    }
}

impl SocketAddr {
    /// The socket address for `ip` and `port`.
    pub fn new(ip: IpAddr, port: u16) -> (r: SocketAddr)
        ensures
            r == socket_addr_of(ip, port),
    {
        match ip {
            IpAddr::V4(a) => SocketAddr::V4(SocketAddrV4 { ip: a, port }),
            IpAddr::V6(a) => SocketAddr::V6(SocketAddrV6 { ip: a, port, flowinfo: 0, scope_id: 0 }),
        }
    }

    pub fn ip(&self) -> (r: IpAddr)
        ensures
            r == (match *self {
                SocketAddr::V4(s) => IpAddr::V4(s.ip),
                SocketAddr::V6(s) => IpAddr::V6(s.ip),
            }),
    {
        match self {
            SocketAddr::V4(s) => IpAddr::V4(s.ip),
            SocketAddr::V6(s) => IpAddr::V6(s.ip),
        }
    }

    pub fn port(&self) -> (r: u16)
        ensures
            r == (match *self {
                SocketAddr::V4(s) => s.port,
                SocketAddr::V6(s) => s.port,
            }),
    {
        match self {
            SocketAddr::V4(s) => s.port,
            SocketAddr::V6(s) => s.port,
        }
    }
}

} // verus!
