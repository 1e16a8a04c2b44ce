//! The addresses of the socket families that only Linux has.

use vstd::prelude::*;

verus! {

/// The address of an XDP socket: a queue of a network interface.
#[derive(Clone, Copy, Debug, PartialEq, Eq, Structural, PartialOrd, Ord, Hash)]
pub struct SocketAddrXdp {
    pub flags: u16,
    pub interface_index: u32,
    pub queue_id: u32,
    pub shared_umem_fd: u32,
}

impl SocketAddrXdp {
    /// The address of queue `queue_id` of interface `interface_index`.
    pub fn new(flags: u16, interface_index: u32, queue_id: u32, shared_umem_fd: u32) -> (addr:
        SocketAddrXdp)
        ensures
            addr == (SocketAddrXdp { flags, interface_index, queue_id, shared_umem_fd }),
    {
        SocketAddrXdp { flags, interface_index, queue_id, shared_umem_fd }
    }
}

/// The address of a netlink socket: a port and a mask of multicast groups.
#[derive(Clone, Copy, Debug, PartialEq, Eq, Structural, PartialOrd, Ord, Hash)]
pub struct SocketAddrNetlink {
    pub pid: u32,
    pub groups: u32,
}

impl SocketAddrNetlink {
    /// The address of port `pid` with the groups of `groups`.
    pub fn new(pid: u32, groups: u32) -> (addr: SocketAddrNetlink)
        ensures
            addr == (SocketAddrNetlink { pid, groups }),
    {
        SocketAddrNetlink { pid, groups }
    }
}

} // verus!
