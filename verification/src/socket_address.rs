//! What every kind of socket address can do: give its raw layout, and show
//! the bytes of it to a function that hands them to the operating system.

use vstd::prelude::*;
use vstd::slice::slice_subrange;
use crate::byteorder::le16;
use crate::family::{
    AF_UNIX, SOCKADDR_IN6_LEN, SOCKADDR_IN_LEN, SOCKADDR_NL_LEN, SOCKADDR_STORAGE_LEN,
    SOCKADDR_XDP_LEN,
};
use crate::ip::{SocketAddr, SocketAddrV4, SocketAddrV6};
use crate::linux::{SocketAddrNetlink, SocketAddrXdp};
use crate::raw::{
    zeros, LayoutWriter, RawSockaddr, SockaddrIn, SockaddrIn6, SockaddrNl, SockaddrUn, SockaddrXdp,
    SocketAddrStorage,
};
use crate::unix::{sockaddr_un_layout, SocketAddrUnix};
use crate::write_sockaddr::{
    encode_sockaddr_netlink, encode_sockaddr_v4, encode_sockaddr_v6, encode_sockaddr_xdp,
    sockaddr_in6_layout, sockaddr_in_layout, sockaddr_nl_layout, sockaddr_xdp_layout,
};

verus! {

/// A trait abstracting over the types that can be passed as a socket
/// address.
///
/// An address stands for a sequence of bytes, [`Self::sockaddr`], which is
/// what the operating system is to see of it. [`Self::encode`] gives a raw
/// layout that starts with these bytes, and [`Self::with_sockaddr`] shows
/// exactly these bytes to a function.
pub trait SocketAddress {
    /// The raw layout of this kind of address.
    type CSockAddr: RawSockaddr;

    /// The bytes that the operating system is shown for this address.
    spec fn sockaddr(&self) -> Seq<u8>;

    /// Convert to the raw layout. The layout starts with the bytes of the
    /// address; what follows them in it is not part of the address.
    fn encode(&self) -> (raw: Self::CSockAddr)
        ensures
            self.sockaddr().is_prefix_of(raw@),
    ;

    /// The number of bytes of the raw layout that belong to the address.
    fn addr_len(&self) -> (len: usize)
        ensures
            len == self.sockaddr().len(),
    ;

    /// Call a function with the bytes of the address, and return what it
    /// returns. The bytes are lent for the call only.
    ///
    /// As it is given here, the method builds the raw layout with
    /// [`Self::encode`] and shows the part of it that belongs to the
    /// address. A type that keeps its raw layout in itself shows that one,
    /// without a copy.
    fn with_sockaddr<R, F: FnOnce(&[u8]) -> R>(&self, f: F) -> (r: R)
        requires
            forall|bytes: &[u8]| bytes@ == self.sockaddr() ==> #[trigger] f.requires((bytes,)),
        ensures
            exists|bytes: &[u8]| bytes@ == self.sockaddr() && #[trigger] f.ensures((bytes,), r),
    {
        let addr = self.encode();
        let bytes = slice_subrange(addr.as_bytes(), 0, self.addr_len());
        assert(bytes@ =~= self.sockaddr());
        f(bytes)
    }
}

impl SocketAddress for SocketAddrV4 {
    type CSockAddr = SockaddrIn;

    open spec fn sockaddr(&self) -> Seq<u8> {
        sockaddr_in_layout(*self)
    }

    fn encode(&self) -> (raw: SockaddrIn)
        ensures
            raw@ == self.sockaddr(),
    {
        encode_sockaddr_v4(self)
    }

    fn addr_len(&self) -> (len: usize) {
        SOCKADDR_IN_LEN
    }
}

impl SocketAddress for SocketAddrV6 {
    type CSockAddr = SockaddrIn6;

    open spec fn sockaddr(&self) -> Seq<u8> {
        sockaddr_in6_layout(*self)
    }

    fn encode(&self) -> (raw: SockaddrIn6)
        ensures
            raw@ == self.sockaddr(),
    {
        encode_sockaddr_v6(self)
    }

    fn addr_len(&self) -> (len: usize) {
        SOCKADDR_IN6_LEN
    }
}

impl SocketAddress for SocketAddrNetlink {
    type CSockAddr = SockaddrNl;

    open spec fn sockaddr(&self) -> Seq<u8> {
        sockaddr_nl_layout(*self)
    }

    fn encode(&self) -> (raw: SockaddrNl)
        ensures
            raw@ == self.sockaddr(),
    {
        encode_sockaddr_netlink(self)
    }

    fn addr_len(&self) -> (len: usize) {
        SOCKADDR_NL_LEN
    }
}

impl SocketAddress for SocketAddrXdp {
    type CSockAddr = SockaddrXdp;

    open spec fn sockaddr(&self) -> Seq<u8> {
        sockaddr_xdp_layout(*self)
    }

    fn encode(&self) -> (raw: SockaddrXdp)
        ensures
            raw@ == self.sockaddr(),
    {
        encode_sockaddr_xdp(self)
    }

    fn addr_len(&self) -> (len: usize) {
        SOCKADDR_XDP_LEN
    }
}

impl SocketAddress for SocketAddrUnix {
    type CSockAddr = SockaddrUn;

    open spec fn sockaddr(&self) -> Seq<u8> {
        le16(AF_UNIX) + self@
    }

    fn encode(&self) -> (raw: SockaddrUn)
        ensures
            raw == self.raw(),
            raw@ == sockaddr_un_layout(self@),
    {
        *self.as_raw()
    }

    fn addr_len(&self) -> (len: usize) {
        SocketAddrUnix::addr_len(self)
    }

    fn with_sockaddr<R, F: FnOnce(&[u8]) -> R>(&self, f: F) -> (r: R) {
        f(self.sockaddr_bytes())
    }
}

impl SocketAddress for SocketAddr {
    type CSockAddr = SocketAddrStorage;

    open spec fn sockaddr(&self) -> Seq<u8> {
        match *self {
            SocketAddr::V4(v4) => v4.sockaddr(),
            SocketAddr::V6(v6) => v6.sockaddr(),
        }
    }

    fn encode(&self) -> (raw: SocketAddrStorage)
        ensures
            raw@ == self.sockaddr() + zeros((raw@.len() - self.sockaddr().len()) as nat),
    {
        match self {
            SocketAddr::V4(v4) => {
                let a = v4.encode();
                let w: LayoutWriter<SOCKADDR_STORAGE_LEN> = LayoutWriter::start(a.as_bytes());
                SocketAddrStorage { bytes: w.finish() }
            },
            SocketAddr::V6(v6) => {
                let a = v6.encode();
                let w: LayoutWriter<SOCKADDR_STORAGE_LEN> = LayoutWriter::start(a.as_bytes());
                SocketAddrStorage { bytes: w.finish() }
            },
        }
    }

    fn addr_len(&self) -> (len: usize) {
        match self {
            SocketAddr::V4(v4) => v4.addr_len(),
            SocketAddr::V6(v6) => v6.addr_len(),
        }
    }

    fn with_sockaddr<R, F: FnOnce(&[u8]) -> R>(&self, f: F) -> (r: R) {
        match self {
            SocketAddr::V4(v4) => v4.with_sockaddr(f),
            SocketAddr::V6(v6) => v6.with_sockaddr(f),
        }
    }
}

} // verus!
