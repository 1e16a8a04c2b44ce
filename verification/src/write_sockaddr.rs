//! From a typed address to its raw layout.

use vstd::prelude::*;
use crate::byteorder::{be16, be32, le16, le32, u16_to_be, u16_to_le, u32_to_be, u32_to_le};
use crate::family::{
    AF_INET, AF_INET6, AF_NETLINK, AF_XDP, SOCKADDR_IN6_LEN, SOCKADDR_IN_LEN, SOCKADDR_NL_LEN,
    SOCKADDR_XDP_LEN,
};
use crate::ip::{SocketAddrV4, SocketAddrV6};
use crate::linux::{SocketAddrNetlink, SocketAddrXdp};
use crate::raw::{zeros, LayoutWriter, SockaddrIn, SockaddrIn6, SockaddrNl, SockaddrXdp};

verus! {

/// The raw layout of an IPv4 socket address: the tag in host order, the port
/// in network order, the four octets of the address, and eight zero bytes.
pub open spec fn sockaddr_in_layout(addr: SocketAddrV4) -> Seq<u8> {
    le16(AF_INET) + be16(addr.port) + addr.ip.wire() + zeros(8)
}

/// The raw layout of an IPv6 socket address: the tag in host order, then the
/// port, the flow label, the sixteen octets of the address and the scope,
/// each in network order.
pub open spec fn sockaddr_in6_layout(addr: SocketAddrV6) -> Seq<u8> {
    le16(AF_INET6) + be16(addr.port) + be32(addr.flowinfo) + addr.ip.wire() + be32(addr.scope_id)
}

/// The raw layout of a netlink socket address: the tag, two zero bytes, the
/// port and the groups, each in host order.
pub open spec fn sockaddr_nl_layout(addr: SocketAddrNetlink) -> Seq<u8> {
    le16(AF_NETLINK) + zeros(2) + le32(addr.pid) + le32(addr.groups)
}

/// The raw layout of an XDP socket address: the tag, the flags, the index of
/// the interface, the queue and the descriptor of the shared memory, each in
/// host order.
pub open spec fn sockaddr_xdp_layout(addr: SocketAddrXdp) -> Seq<u8> {
    le16(AF_XDP) + le16(addr.flags) + le32(addr.interface_index) + le32(addr.queue_id) + le32(
        addr.shared_umem_fd,
    )
}

/// The raw layout of `v4`.
pub fn encode_sockaddr_v4(v4: &SocketAddrV4) -> (raw: SockaddrIn)
    ensures
        raw@ == sockaddr_in_layout(*v4),
{
    let mut w: LayoutWriter<SOCKADDR_IN_LEN> = LayoutWriter::start(u16_to_le(AF_INET).as_slice());
    w.put(u16_to_be(v4.port).as_slice());
    w.put(v4.ip.octets().as_slice());
    SockaddrIn { bytes: w.finish() }
}

/// The raw layout of `v6`.
pub fn encode_sockaddr_v6(v6: &SocketAddrV6) -> (raw: SockaddrIn6)
    ensures
        raw@ == sockaddr_in6_layout(*v6),
{
    let mut w: LayoutWriter<SOCKADDR_IN6_LEN> = LayoutWriter::start(u16_to_le(AF_INET6).as_slice());
    w.put(u16_to_be(v6.port).as_slice());
    w.put(u32_to_be(v6.flowinfo).as_slice());
    w.put(v6.ip.octets().as_slice());
    w.put(u32_to_be(v6.scope_id).as_slice());
    SockaddrIn6 { bytes: w.finish() }
}

/// The raw layout of `nl`.
pub fn encode_sockaddr_netlink(nl: &SocketAddrNetlink) -> (raw: SockaddrNl)
    ensures
        raw@ == sockaddr_nl_layout(*nl),
{
    let mut w: LayoutWriter<SOCKADDR_NL_LEN> = LayoutWriter::start(u16_to_le(AF_NETLINK).as_slice());
    w.pad(2);
    w.put(u32_to_le(nl.pid).as_slice());
    w.put(u32_to_le(nl.groups).as_slice());
    SockaddrNl { bytes: w.finish() }
}

/// The raw layout of `xdp`.
pub fn encode_sockaddr_xdp(xdp: &SocketAddrXdp) -> (raw: SockaddrXdp)
    ensures
        raw@ == sockaddr_xdp_layout(*xdp),
{
    let mut w: LayoutWriter<SOCKADDR_XDP_LEN> = LayoutWriter::start(u16_to_le(AF_XDP).as_slice());
    w.put(u16_to_le(xdp.flags).as_slice());
    w.put(u32_to_le(xdp.interface_index).as_slice());
    w.put(u32_to_le(xdp.queue_id).as_slice());
    w.put(u32_to_le(xdp.shared_umem_fd).as_slice());
    SockaddrXdp { bytes: w.finish() }
}

} // verus!
