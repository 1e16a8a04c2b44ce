//! Reading what was written gives the address back.

use vstd::prelude::*;
use crate::byteorder::{le16, lemma_u16_round_trip, lemma_u32_round_trip};
use crate::family::{AddressFamily, AF_UNIX, SOCKADDR_STORAGE_LEN, UNIX_PATH_MAX};
use crate::ip::{SocketAddrV4, SocketAddrV6};
use crate::linux::{SocketAddrNetlink, SocketAddrXdp};
use crate::raw::splice;
use crate::read_sockaddr::{
    decoded, decoded_netlink, decoded_unix, decoded_v4, decoded_v6, decoded_xdp, family_tag,
    DecodeError,
};
use crate::socket_addr_any::SocketAddrAnyView;
use crate::write_sockaddr::{
    sockaddr_in6_layout, sockaddr_in_layout, sockaddr_nl_layout, sockaddr_xdp_layout,
};

verus! {

/// A block of bytes that starts with the raw layout of an IPv4 socket
/// address carries the tag of IPv4 and holds that address.
pub proof fn lemma_v4_round_trip(addr: SocketAddrV4, bytes: Seq<u8>)
    requires
        sockaddr_in_layout(addr).is_prefix_of(bytes),
    ensures
        AddressFamily::of_tag(family_tag(bytes)) == Some(AddressFamily::Inet),
        decoded_v4(bytes) == addr,
{
    let layout = sockaddr_in_layout(addr);
    assert(layout.len() == 16);
    assert forall|i: int| 0 <= i < 16 implies bytes[i] == layout[i] by {}
    lemma_u16_round_trip(addr.port);
}

/// A block of bytes that starts with the raw layout of an IPv6 socket
/// address carries the tag of IPv6 and holds that address.
pub proof fn lemma_v6_round_trip(addr: SocketAddrV6, bytes: Seq<u8>)
    requires
        sockaddr_in6_layout(addr).is_prefix_of(bytes),
    ensures
        AddressFamily::of_tag(family_tag(bytes)) == Some(AddressFamily::Inet6),
        decoded_v6(bytes) == addr,
{
    let layout = sockaddr_in6_layout(addr);
    assert(layout.len() == 28);
    assert forall|i: int| 0 <= i < 28 implies bytes[i] == layout[i] by {}
    lemma_u16_round_trip(addr.port);
    lemma_u32_round_trip(addr.flowinfo);
    lemma_u32_round_trip(addr.scope_id);
    lemma_u16_round_trip(addr.ip.a);
    lemma_u16_round_trip(addr.ip.b);
    lemma_u16_round_trip(addr.ip.c);
    lemma_u16_round_trip(addr.ip.d);
    lemma_u16_round_trip(addr.ip.e);
    lemma_u16_round_trip(addr.ip.f);
    lemma_u16_round_trip(addr.ip.g);
    lemma_u16_round_trip(addr.ip.h);
}

/// A block of bytes that starts with the tag of the Unix domain and a path
/// carries that tag, and read with the length of the two it holds that
/// path.
pub proof fn lemma_unix_round_trip(path: Seq<u8>, bytes: Seq<u8>)
    requires
        path.len() <= UNIX_PATH_MAX,
        (le16(AF_UNIX) + path).is_prefix_of(bytes),
    ensures
        AddressFamily::of_tag(family_tag(bytes)) == Some(AddressFamily::Unix),
        decoded_unix(bytes, (le16(AF_UNIX) + path).len()) == path,
{
    let shown = le16(AF_UNIX) + path;
    assert(shown.len() == 2 + path.len());
    assert forall|i: int| 0 <= i < shown.len() implies bytes[i] == shown[i] by {}
    assert(bytes[0] == shown[0] && bytes[1] == shown[1]);
    assert(decoded_unix(bytes, shown.len()) =~= path) by {
        assert forall|i: int| 0 <= i < path.len() implies bytes[i + 2] == path[i] by {
            assert(bytes[i + 2] == shown[i + 2]);
        }
    }
}

/// A block of bytes that starts with the raw layout of a netlink socket
/// address carries the tag of netlink and holds that address.
pub proof fn lemma_netlink_round_trip(addr: SocketAddrNetlink, bytes: Seq<u8>)
    requires
        sockaddr_nl_layout(addr).is_prefix_of(bytes),
    ensures
        AddressFamily::of_tag(family_tag(bytes)) == Some(AddressFamily::Netlink),
        decoded_netlink(bytes) == addr,
{
    let layout = sockaddr_nl_layout(addr);
    assert(layout.len() == 12);
    assert forall|i: int| 0 <= i < 12 implies bytes[i] == layout[i] by {}
    lemma_u32_round_trip(addr.pid);
    lemma_u32_round_trip(addr.groups);
}

/// A block of bytes that starts with the raw layout of an XDP socket
/// address carries the tag of XDP and holds that address.
pub proof fn lemma_xdp_round_trip(addr: SocketAddrXdp, bytes: Seq<u8>)
    requires
        sockaddr_xdp_layout(addr).is_prefix_of(bytes),
    ensures
        AddressFamily::of_tag(family_tag(bytes)) == Some(AddressFamily::Xdp),
        decoded_xdp(bytes) == addr,
{
    let layout = sockaddr_xdp_layout(addr);
    assert(layout.len() == 16);
    assert forall|i: int| 0 <= i < 16 implies bytes[i] == layout[i] by {}
    lemma_u16_round_trip(addr.flags);
    lemma_u32_round_trip(addr.interface_index);
    lemma_u32_round_trip(addr.queue_id);
    lemma_u32_round_trip(addr.shared_umem_fd);
}

/// The bytes of an address fit into a storage.
pub proof fn lemma_sockaddr_fits(addr: SocketAddrAnyView)
    requires
        addr.wf(),
    ensures
        addr.family().min_len() <= addr.sockaddr().len() <= SOCKADDR_STORAGE_LEN,
{
}

/// Reading gives back what was written: whatever a storage held before,
/// once the bytes of an address are written to its start, reading it with
/// the length that the writing returned gives that address. This holds of
/// every address of each family.
pub proof fn lemma_read_write_round_trip(addr: SocketAddrAnyView, storage: Seq<u8>)
    requires
        addr.wf(),
        storage.len() == SOCKADDR_STORAGE_LEN,
    ensures
        decoded(splice(storage, 0, addr.sockaddr()), addr.sockaddr().len()) == Ok::<
            SocketAddrAnyView,
            DecodeError,
        >(addr),
{
    let shown = addr.sockaddr();
    let bytes = splice(storage, 0, shown);
    lemma_sockaddr_fits(addr);
    assert(shown.is_prefix_of(bytes)) by {
        assert(shown =~= bytes.subrange(0, shown.len() as int));
    }
    match addr {
        SocketAddrAnyView::V4(v4) => lemma_v4_round_trip(v4, bytes),
        SocketAddrAnyView::V6(v6) => lemma_v6_round_trip(v6, bytes),
        SocketAddrAnyView::Unix(path) => lemma_unix_round_trip(path, bytes),
        SocketAddrAnyView::Xdp(xdp) => lemma_xdp_round_trip(xdp, bytes),
        SocketAddrAnyView::Netlink(nl) => lemma_netlink_round_trip(nl, bytes),
    }
}

} // verus!
