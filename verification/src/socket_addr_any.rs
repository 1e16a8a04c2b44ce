//! A socket address of any family.

use vstd::prelude::*;
use vstd::std_specs::cmp::PartialEqSpecImpl;
use vstd::std_specs::convert::FromSpecImpl;
use crate::byteorder::le16;
use crate::family::{AddressFamily, AF_UNIX, SOCKADDR_STORAGE_LEN, UNIX_PATH_MAX};
use crate::ip::{SocketAddr, SocketAddrV4, SocketAddrV6};
use crate::linux::{SocketAddrNetlink, SocketAddrXdp};
use crate::raw::{copy_into, splice, zeros, SocketAddrStorage};
use crate::read_sockaddr::{decoded, read_sockaddr, DecodeError};
use crate::round_trip::lemma_read_write_round_trip;
use crate::socket_address::SocketAddress;
use crate::text::{
    netlink_text, socket_addr_v4_text, socket_addr_v6_text, unix_text, xdp_text,
};
use crate::unix::SocketAddrUnix;
use crate::write_sockaddr::{
    sockaddr_in6_layout, sockaddr_in_layout, sockaddr_nl_layout, sockaddr_xdp_layout,
};

verus! {

/// A socket address of any of the families that this library knows.
#[derive(Clone, Copy, Debug, Eq, PartialOrd, Ord, Hash)]
#[non_exhaustive]
pub enum SocketAddrAny {
    /// An IPv4 socket address.
    V4(SocketAddrV4),
    /// An IPv6 socket address.
    V6(SocketAddrV6),
    /// A Unix-domain socket address.
    Unix(SocketAddrUnix),
    /// An XDP socket address.
    Xdp(SocketAddrXdp),
    /// A netlink socket address.
    Netlink(SocketAddrNetlink),
}

/// What a [`SocketAddrAny`] stands for: the family and the fields of the
/// address, a Unix-domain address being the bytes of its path.
pub enum SocketAddrAnyView {
    V4(SocketAddrV4),
    V6(SocketAddrV6),
    Unix(Seq<u8>),
    Xdp(SocketAddrXdp),
    Netlink(SocketAddrNetlink),
}

impl SocketAddrAnyView {
    /// The family of the address.
    pub open spec fn family(self) -> AddressFamily {
        match self {
            SocketAddrAnyView::V4(_) => AddressFamily::Inet,
            SocketAddrAnyView::V6(_) => AddressFamily::Inet6,
            SocketAddrAnyView::Unix(_) => AddressFamily::Unix,
            SocketAddrAnyView::Xdp(_) => AddressFamily::Xdp,
            SocketAddrAnyView::Netlink(_) => AddressFamily::Netlink,
        }
    }

    /// Whether a [`SocketAddrAny`] can stand for this: the path of a
    /// Unix-domain address has at most [`UNIX_PATH_MAX`] bytes.
    pub open spec fn wf(self) -> bool {
        self matches SocketAddrAnyView::Unix(path) ==> path.len() <= UNIX_PATH_MAX
    }

    /// The bytes that the operating system is shown for the address: the
    /// raw layout of its family, and of a Unix-domain address only the tag
    /// and the path.
    pub open spec fn sockaddr(self) -> Seq<u8> {
        match self {
            SocketAddrAnyView::V4(v4) => sockaddr_in_layout(v4),
            SocketAddrAnyView::V6(v6) => sockaddr_in6_layout(v6),
            SocketAddrAnyView::Unix(path) => le16(AF_UNIX) + path,
            SocketAddrAnyView::Xdp(xdp) => sockaddr_xdp_layout(xdp),
            SocketAddrAnyView::Netlink(nl) => sockaddr_nl_layout(nl),
        }
    }

    /// The address as text, in the form that is usual for its family.
    pub open spec fn text(self) -> Seq<char> {
        match self {
            SocketAddrAnyView::V4(v4) => socket_addr_v4_text(v4),
            SocketAddrAnyView::V6(v6) => socket_addr_v6_text(v6),
            SocketAddrAnyView::Unix(path) => unix_text(path),
            SocketAddrAnyView::Xdp(xdp) => xdp_text(xdp),
            SocketAddrAnyView::Netlink(nl) => netlink_text(nl),
        }
    }
}

impl View for SocketAddrAny {
    type V = SocketAddrAnyView;

    open spec fn view(&self) -> SocketAddrAnyView {
        match *self {
            SocketAddrAny::V4(v4) => SocketAddrAnyView::V4(v4),
            SocketAddrAny::V6(v6) => SocketAddrAnyView::V6(v6),
            SocketAddrAny::Unix(unix) => SocketAddrAnyView::Unix(unix@),
            SocketAddrAny::Xdp(xdp) => SocketAddrAnyView::Xdp(xdp),
            SocketAddrAny::Netlink(nl) => SocketAddrAnyView::Netlink(nl),
        }
    }
}

/// Whether `after` is `before` with `addr` copied to its start, and `len` the
/// number of bytes of `addr`.
pub open spec fn stored(
    before: SocketAddrStorage,
    addr: Seq<u8>,
    after: (SocketAddrStorage, usize),
) -> bool {
    let (storage, len) = after;
    storage@ == splice(before@, 0, addr) && len == addr.len()
}

/// Copies `addr` to the start of a storage, and counts its bytes.
fn store(before: SocketAddrStorage, addr: &[u8]) -> (after: (SocketAddrStorage, usize))
    requires
        addr@.len() <= SOCKADDR_STORAGE_LEN,
    ensures
        stored(before, addr@, after),
{
    let mut storage = before;
    copy_into(&mut storage.bytes, 0, addr);
    (storage, addr.len())
}

impl SocketAddrAny {
    /// What holds of every address: see [`SocketAddrUnix::wf`].
    pub open spec fn wf(self) -> bool {
        self matches SocketAddrAny::Unix(unix) ==> unix.wf()
    }

    /// The view of an address is one that an address can stand for.
    pub proof fn lemma_wf(self)
        requires
            self.wf(),
        ensures
            self@.wf(),
    {
        if let SocketAddrAny::Unix(unix) = self {
            unix.lemma_wf();
        }
    }

    /// Return the address family of this socket address.
    pub fn address_family(&self) -> (family: AddressFamily)
        ensures
            family == self@.family(),
    {
        match self {
            SocketAddrAny::V4(_) => AddressFamily::Inet,
            SocketAddrAny::V6(_) => AddressFamily::Inet6,
            SocketAddrAny::Unix(_) => AddressFamily::Unix,
            SocketAddrAny::Xdp(_) => AddressFamily::Xdp,
            SocketAddrAny::Netlink(_) => AddressFamily::Netlink,
        }
    }

    /// Writes the bytes of this socket address to the start of `storage`,
    /// and returns the number of bytes used. The bytes of `storage` behind
    /// them stay as they are.
    ///
    /// Read with the length returned, the storage then holds this address.
    pub fn write(&self, storage: &mut SocketAddrStorage) -> (len: usize)
        ensures
            len == self@.sockaddr().len(),
            len <= SOCKADDR_STORAGE_LEN,
            final(storage)@ == splice(old(storage)@, 0, self@.sockaddr()),
            decoded(final(storage)@, len as nat) == Ok::<SocketAddrAnyView, DecodeError>(self@),
    {
        proof {
            if let SocketAddrAny::Unix(unix) = *self {
                use_type_invariant(unix);
                unix.lemma_wf();
            }
            lemma_read_write_round_trip(self@, storage@);
        }
        let before: SocketAddrStorage = *storage;
        let (after, len) = self.with_sockaddr(
            |addr: &[u8]| -> (r: (SocketAddrStorage, usize))
                requires
                    addr@.len() <= SOCKADDR_STORAGE_LEN,
                ensures
                    stored(before, addr@, r)
                { store(before, addr) },
        );
        *storage = after;
        len
    }

    /// The address as text, in the form that is usual for its family.
    pub fn to_text(&self) -> (s: String)
        ensures
            s@ == self@.text(),
    {
        match self {
            SocketAddrAny::V4(v4) => v4.to_text(),
            SocketAddrAny::V6(v6) => v6.to_text(),
            SocketAddrAny::Unix(unix) => unix.to_text(),
            SocketAddrAny::Xdp(xdp) => xdp.to_text(),
            SocketAddrAny::Netlink(nl) => nl.to_text(),
        }
    }

    /// Reads the first `len` bytes of `storage` as a socket address of the
    /// family that the tag at its start names.
    pub fn read(storage: &SocketAddrStorage, len: usize) -> (r: Result<SocketAddrAny, DecodeError>)
        ensures
            match decoded(storage@, len as nat) {
                Ok(view) => r is Ok && r->Ok_0@ == view && r->Ok_0.wf(),
                Err(e) => r == Err::<SocketAddrAny, DecodeError>(e),
            },
    {
        read_sockaddr(storage, len)
    }
}

impl SocketAddress for SocketAddrAny {
    type CSockAddr = SocketAddrStorage;

    open spec fn sockaddr(&self) -> Seq<u8> {
        self@.sockaddr()
    }

    fn encode(&self) -> (raw: SocketAddrStorage)
        ensures
            raw@ == self.sockaddr() + zeros((SOCKADDR_STORAGE_LEN - self.sockaddr().len()) as nat),
    {
        let mut storage = SocketAddrStorage::zeroed();
        let len = self.write(&mut storage);
        assert(storage@ =~= self.sockaddr() + zeros((SOCKADDR_STORAGE_LEN - len) as nat));
        storage
    }

    fn addr_len(&self) -> (len: usize) {
        match self {
            SocketAddrAny::V4(a) => a.addr_len(),
            SocketAddrAny::V6(a) => a.addr_len(),
            SocketAddrAny::Unix(a) => SocketAddress::addr_len(a),
            SocketAddrAny::Xdp(a) => a.addr_len(),
            SocketAddrAny::Netlink(a) => a.addr_len(),
        }
    }

    fn with_sockaddr<R, F: FnOnce(&[u8]) -> R>(&self, f: F) -> (r: R) {
        match self {
            SocketAddrAny::V4(a) => a.with_sockaddr(f),
            SocketAddrAny::V6(a) => a.with_sockaddr(f),
            SocketAddrAny::Unix(a) => a.with_sockaddr(f),
            SocketAddrAny::Xdp(a) => a.with_sockaddr(f),
            SocketAddrAny::Netlink(a) => a.with_sockaddr(f),
        }
    }
}

impl PartialEq for SocketAddrAny {
    /// Two addresses are equal when they are of one family and their fields
    /// are equal.
    fn eq(&self, other: &SocketAddrAny) -> (r: bool) {
        match (self, other) {
            (SocketAddrAny::V4(a), SocketAddrAny::V4(b)) => *a == *b,
            (SocketAddrAny::V6(a), SocketAddrAny::V6(b)) => *a == *b,
            (SocketAddrAny::Unix(a), SocketAddrAny::Unix(b)) => *a == *b,
            (SocketAddrAny::Xdp(a), SocketAddrAny::Xdp(b)) => *a == *b,
            (SocketAddrAny::Netlink(a), SocketAddrAny::Netlink(b)) => *a == *b,
            _ => false,
        }
    }
}

impl PartialEqSpecImpl for SocketAddrAny {
    open spec fn obeys_eq_spec() -> bool {
        true
    }

    open spec fn eq_spec(&self, other: &SocketAddrAny) -> bool {
        self@ == other@
    }
}

impl From<SocketAddr> for SocketAddrAny {
    fn from(from: SocketAddr) -> (any: SocketAddrAny) {
        match from {
            SocketAddr::V4(v4) => SocketAddrAny::V4(v4),
            SocketAddr::V6(v6) => SocketAddrAny::V6(v6),
        }
    }
}

impl FromSpecImpl<SocketAddr> for SocketAddrAny {
    open spec fn obeys_from_spec() -> bool {
        true
    }

    open spec fn from_spec(from: SocketAddr) -> SocketAddrAny {
        match from {
            SocketAddr::V4(v4) => SocketAddrAny::V4(v4),
            SocketAddr::V6(v6) => SocketAddrAny::V6(v6),
        }
    }
}

impl From<SocketAddrV4> for SocketAddrAny {
    fn from(from: SocketAddrV4) -> (any: SocketAddrAny) {
        SocketAddrAny::V4(from)
    }
}

impl FromSpecImpl<SocketAddrV4> for SocketAddrAny {
    open spec fn obeys_from_spec() -> bool {
        true
    }

    open spec fn from_spec(from: SocketAddrV4) -> SocketAddrAny {
        SocketAddrAny::V4(from)
    }
}

impl From<SocketAddrV6> for SocketAddrAny {
    fn from(from: SocketAddrV6) -> (any: SocketAddrAny) {
        SocketAddrAny::V6(from)
    }
}

impl FromSpecImpl<SocketAddrV6> for SocketAddrAny {
    open spec fn obeys_from_spec() -> bool {
        true
    }

    open spec fn from_spec(from: SocketAddrV6) -> SocketAddrAny {
        SocketAddrAny::V6(from)
    }
}

impl From<SocketAddrUnix> for SocketAddrAny {
    fn from(from: SocketAddrUnix) -> (any: SocketAddrAny) {
        SocketAddrAny::Unix(from)
    }
}

impl FromSpecImpl<SocketAddrUnix> for SocketAddrAny {
    open spec fn obeys_from_spec() -> bool {
        true
    }

    open spec fn from_spec(from: SocketAddrUnix) -> SocketAddrAny {
        SocketAddrAny::Unix(from)
    }
}

impl From<SocketAddrXdp> for SocketAddrAny {
    fn from(from: SocketAddrXdp) -> (any: SocketAddrAny) {
        SocketAddrAny::Xdp(from)
    }
}

impl FromSpecImpl<SocketAddrXdp> for SocketAddrAny {
    open spec fn obeys_from_spec() -> bool {
        true
    }

    open spec fn from_spec(from: SocketAddrXdp) -> SocketAddrAny {
        SocketAddrAny::Xdp(from)
    }
}

impl From<SocketAddrNetlink> for SocketAddrAny {
    fn from(from: SocketAddrNetlink) -> (any: SocketAddrAny) {
        SocketAddrAny::Netlink(from)
    }
}

impl FromSpecImpl<SocketAddrNetlink> for SocketAddrAny {
    open spec fn obeys_from_spec() -> bool {
        true
    }

    open spec fn from_spec(from: SocketAddrNetlink) -> SocketAddrAny {
        SocketAddrAny::Netlink(from)
    }
}

} // verus!
