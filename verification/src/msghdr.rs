//! Utilities for dealing with message headers.
//!
//! A message header tells a send or receive call where the address, the
//! data and the control messages are. Of the data and the control messages
//! this library handles the counts only. The functions here take a function
//! and show it the header, rather than returning the header, because a
//! header may borrow the bytes of an address that live only as long as the
//! call.

use vstd::prelude::*;
use crate::family::SOCKADDR_STORAGE_LEN;
use crate::raw::SocketAddrStorage;
use crate::socket_address::SocketAddress;

verus! {

/// The header of a message that is sent.
pub struct MsgHdr<'a> {
    /// The bytes of the address that the message goes to; none where the
    /// message has no address of its own.
    pub msg_name: &'a [u8],
    /// The number of buffers that hold the data.
    pub msg_iovlen: usize,
    /// The number of bytes of control messages.
    pub msg_controllen: usize,
}

/// The header of a message that is received. The call that receives
/// overwrites the address and the two lengths with what arrived.
#[derive(Clone, Copy, Debug, PartialEq, Eq)]
pub struct RecvMsgHdr {
    /// Room for the address that the message came from.
    pub msg_name: SocketAddrStorage,
    /// Before the call, the size of that room; after it, the number of
    /// bytes of the address.
    pub msg_namelen: usize,
    /// The number of buffers for the data.
    pub msg_iovlen: usize,
    /// Before the call, the room for control messages in bytes; after it,
    /// the number of bytes that arrived.
    pub msg_controllen: usize,
}

impl<'a> MsgHdr<'a> {
    /// Whether this is the header of a message to the address whose bytes
    /// are `name`, with `iov_len` buffers of data and `control_len` bytes of
    /// control messages.
    pub open spec fn is_for(self, name: Seq<u8>, iov_len: usize, control_len: usize) -> bool {
        &&& self.msg_name@ == name
        &&& self.msg_iovlen == iov_len
        &&& self.msg_controllen == control_len
    }
}

/// The header that a receive call is given: the room for the address in
/// full, and the room for control messages.
pub open spec fn recv_msghdr(name: SocketAddrStorage, iov_len: usize, control_capacity: usize)
    -> RecvMsgHdr {
    RecvMsgHdr {
        msg_name: name,
        msg_namelen: SOCKADDR_STORAGE_LEN,
        msg_iovlen: iov_len,
        msg_controllen: control_capacity,
    }
}

/// Create a message header intended to receive a datagram, show it to `f`,
/// and take over what `f` left in it.
///
/// `f` is given the header by value and gives it back beside its result.
/// The storage `name` is whatever `f` left in the header. The number of
/// bytes of control messages, `control_len`, is what `f` left in the header
/// where `f` succeeded, and zero where it failed.
pub fn with_recv_msghdr<R, E, F: FnOnce(RecvMsgHdr) -> (RecvMsgHdr, Result<R, E>)>(
    name: &mut SocketAddrStorage,
    iov_len: usize,
    control_capacity: usize,
    control_len: &mut usize,
    f: F,
) -> (res: Result<R, E>)
    requires
        f.requires((recv_msghdr(*old(name), iov_len, control_capacity),)),
    ensures
        exists|after: RecvMsgHdr|
            {
                &&& #[trigger] f.ensures(
                    (recv_msghdr(*old(name), iov_len, control_capacity),),
                    (after, res),
                )
                &&& *final(name) == after.msg_name
                &&& *final(control_len) == if res is Ok {
                    after.msg_controllen
                } else {
                    0
                }
            },
{
    *control_len = 0;
    let msghdr = RecvMsgHdr {
        msg_name: *name,
        msg_namelen: SOCKADDR_STORAGE_LEN,
        msg_iovlen: iov_len,
        msg_controllen: control_capacity,
    };
    let (msghdr, res) = f(msghdr);
    *name = msghdr.msg_name;
    if res.is_ok() {
        *control_len = msghdr.msg_controllen;
    }
    res
}

/// Create a message header intended to send without an address, and show
/// it to `f`.
pub fn with_noaddr_msghdr<R, F: FnOnce(MsgHdr<'_>) -> R>(
    iov_len: usize,
    control_len: usize,
    f: F,
) -> (r: R)
    requires
        forall|h: MsgHdr<'_>|
            h.is_for(Seq::<u8>::empty(), iov_len, control_len) ==> #[trigger] f.requires((h,)),
    ensures
        exists|h: MsgHdr<'_>|
            h.is_for(Seq::<u8>::empty(), iov_len, control_len) && #[trigger] f.ensures((h,), r),
{
    let none: [u8; 0] = [];
    let h = MsgHdr { msg_name: none.as_slice(), msg_iovlen: iov_len, msg_controllen: control_len };
    assert(h.msg_name@ =~= Seq::<u8>::empty());
    f(h)
}

/// Create a message header intended to send with the specified address,
/// and show it to `f`.
pub fn with_msghdr<A: SocketAddress, R, F: FnOnce(MsgHdr<'_>) -> R>(
    addr: &A,
    iov_len: usize,
    control_len: usize,
    f: F,
) -> (r: R)
    requires
        forall|h: MsgHdr<'_>|
            h.is_for(addr.sockaddr(), iov_len, control_len) ==> #[trigger] f.requires((h,)),
    ensures
        exists|h: MsgHdr<'_>|
            h.is_for(addr.sockaddr(), iov_len, control_len) && #[trigger] f.ensures((h,), r),
{
    addr.with_sockaddr(
        |addr_bytes: &[u8]| -> (r: R)
            requires
                addr_bytes@ == addr.sockaddr()
            ensures
                exists|h: MsgHdr<'_>|
                    h.is_for(addr.sockaddr(), iov_len, control_len) && #[trigger] f.ensures(
                        (h,),
                        r,
                    )
            { f(MsgHdr { msg_name: addr_bytes, msg_iovlen: iov_len, msg_controllen: control_len }) },
    )
}

} // verus!
