//! Internet addresses and the socket addresses made of them.

use vstd::prelude::*;
use crate::byteorder::{be16, u16_to_be};
use crate::raw::LayoutWriter;

verus! {

/// An IPv4 address: four octets, the first one the most significant.
#[derive(Clone, Copy, Debug, PartialEq, Eq, Structural, PartialOrd, Ord, Hash)]
pub struct Ipv4Addr {
    pub a: u8,
    pub b: u8,
    pub c: u8,
    pub d: u8,
}

impl Ipv4Addr {
    /// The octets of the address in network order.
    pub open spec fn wire(self) -> Seq<u8> {
        seq![self.a, self.b, self.c, self.d]
    }

    /// The address `a.b.c.d`.
    pub fn new(a: u8, b: u8, c: u8, d: u8) -> (ip: Ipv4Addr)
        ensures
            ip == (Ipv4Addr { a, b, c, d }),
    {
        Ipv4Addr { a, b, c, d }
    }

    /// The address whose octets in network order are `octets`.
    pub fn from_octets(octets: [u8; 4]) -> (ip: Ipv4Addr)
        ensures
            ip.wire() == octets@,
    {
        let ip = Ipv4Addr { a: octets[0], b: octets[1], c: octets[2], d: octets[3] };
        assert(ip.wire() =~= octets@);
        ip
    }

    /// The octets of the address in network order.
    pub fn octets(&self) -> (octets: [u8; 4])
        ensures
            octets@ == self.wire(),
    {
        let octets: [u8; 4] = [self.a, self.b, self.c, self.d];
        assert(octets@ =~= self.wire());
        octets
    }
}

/// An IPv6 address: eight groups of sixteen bits, the first one the most
/// significant.
#[derive(Clone, Copy, Debug, PartialEq, Eq, Structural, PartialOrd, Ord, Hash)]
pub struct Ipv6Addr {
    pub a: u16,
    pub b: u16,
    pub c: u16,
    pub d: u16,
    pub e: u16,
    pub f: u16,
    pub g: u16,
    pub h: u16,
}

impl Ipv6Addr {
    /// The sixteen octets of the address in network order.
    pub open spec fn wire(self) -> Seq<u8> {
        be16(self.a) + be16(self.b) + be16(self.c) + be16(self.d) + be16(self.e) + be16(self.f)
            + be16(self.g) + be16(self.h)
    }

    /// The address `a:b:c:d:e:f:g:h`.
    pub fn new(a: u16, b: u16, c: u16, d: u16, e: u16, f: u16, g: u16, h: u16) -> (ip: Ipv6Addr)
        ensures
            ip == (Ipv6Addr { a, b, c, d, e, f, g, h }),
    {
        Ipv6Addr { a, b, c, d, e, f, g, h }
    }

    /// The eight groups of the address, the most significant one first.
    pub open spec fn groups(self) -> Seq<u16> {
        seq![self.a, self.b, self.c, self.d, self.e, self.f, self.g, self.h]
    }

    /// The eight groups of the address, the most significant one first.
    pub fn segments(&self) -> (segments: [u16; 8])
        ensures
            segments@ == self.groups(),
    {
        let segments: [u16; 8] = [
            self.a,
            self.b,
            self.c,
            self.d,
            self.e,
            self.f,
            self.g,
            self.h,
        ];
        assert(segments@ =~= self.groups());
        segments
    }

    /// The sixteen octets of the address in network order.
    pub fn octets(&self) -> (octets: [u8; 16])
        ensures
            octets@ == self.wire(),
    {
        let mut w: LayoutWriter<16> = LayoutWriter::start(u16_to_be(self.a).as_slice());
        w.put(u16_to_be(self.b).as_slice());
        w.put(u16_to_be(self.c).as_slice());
        w.put(u16_to_be(self.d).as_slice());
        w.put(u16_to_be(self.e).as_slice());
        w.put(u16_to_be(self.f).as_slice());
        w.put(u16_to_be(self.g).as_slice());
        w.put(u16_to_be(self.h).as_slice());
        w.finish()
    }
}

/// An IPv4 address with a port.
#[derive(Clone, Copy, Debug, PartialEq, Eq, Structural, PartialOrd, Ord, Hash)]
pub struct SocketAddrV4 {
    pub ip: Ipv4Addr,
    pub port: u16,
}

impl SocketAddrV4 {
    /// The socket address of `port` at `ip`.
    pub fn new(ip: Ipv4Addr, port: u16) -> (addr: SocketAddrV4)
        ensures
            addr == (SocketAddrV4 { ip, port }),
    {
        SocketAddrV4 { ip, port }
    }

    /// The address.
    pub fn ip(&self) -> (ip: &Ipv4Addr)
        ensures
            *ip == self.ip,
    {
        &self.ip
    }

    /// The port.
    pub fn port(&self) -> (port: u16)
        ensures
            port == self.port,
    {
        self.port
    }
}

/// An IPv6 address with a port, a flow label and a scope.
#[derive(Clone, Copy, Debug, PartialEq, Eq, Structural, PartialOrd, Ord, Hash)]
pub struct SocketAddrV6 {
    pub ip: Ipv6Addr,
    pub port: u16,
    pub flowinfo: u32,
    pub scope_id: u32,
}

impl SocketAddrV6 {
    /// The socket address of `port` at `ip`, with its flow label and scope.
    pub fn new(ip: Ipv6Addr, port: u16, flowinfo: u32, scope_id: u32) -> (addr: SocketAddrV6)
        ensures
            addr == (SocketAddrV6 { ip, port, flowinfo, scope_id }),
    {
        SocketAddrV6 { ip, port, flowinfo, scope_id }
    }

    /// The address.
    pub fn ip(&self) -> (ip: &Ipv6Addr)
        ensures
            *ip == self.ip,
    {
        &self.ip
    }

    /// The port.
    pub fn port(&self) -> (port: u16)
        ensures
            port == self.port,
    {
        self.port
    }

    /// The flow label.
    pub fn flowinfo(&self) -> (flowinfo: u32)
        ensures
            flowinfo == self.flowinfo,
    {
        self.flowinfo
    }

    /// The scope.
    pub fn scope_id(&self) -> (scope_id: u32)
        ensures
            scope_id == self.scope_id,
    {
        self.scope_id
    }
}

/// An internet socket address of either version.
#[derive(Clone, Copy, Debug, PartialEq, Eq, Structural, PartialOrd, Ord, Hash)]
pub enum SocketAddr {
    /// An IPv4 socket address.
    V4(SocketAddrV4),
    /// An IPv6 socket address.
    V6(SocketAddrV6),
}

} // verus!
