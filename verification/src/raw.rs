//! The raw layouts: the bytes of an address as the operating system keeps
//! them, one fixed-size block for each family and one that is large enough
//! for all of them.

use vstd::prelude::*;
use crate::family::{
    SOCKADDR_IN6_LEN, SOCKADDR_IN_LEN, SOCKADDR_NL_LEN, SOCKADDR_STORAGE_LEN, SOCKADDR_UN_LEN,
    SOCKADDR_XDP_LEN,
};

verus! {

/// `n` zero bytes.
pub open spec fn zeros(n: nat) -> Seq<u8> {
    Seq::new(n, |i: int| 0u8)
}

/// `dst` with the bytes from position `at` on replaced by those of `src`.
pub open spec fn splice(dst: Seq<u8>, at: int, src: Seq<u8>) -> Seq<u8> {
    Seq::new(
        dst.len(),
        |i: int|
            if at <= i < at + src.len() {
                src[i - at]
            } else {
                dst[i]
            },
    )
}

/// Copies `src` into `dst` from position `at` on; the other bytes of `dst`
/// stay as they are.
pub fn copy_into<const N: usize>(dst: &mut [u8; N], at: usize, src: &[u8])
    requires
        at + src@.len() <= N,
    ensures
        final(dst)@ == splice(old(dst)@, at as int, src@),
{
    let n = src.len();
    let mut i: usize = 0;
    while i < n
        invariant
            i <= n,
            n == src@.len(),
            at + n <= N,
            forall|j: int|
                0 <= j < N ==> dst@[j] == (if at <= j < at + i {
                    src@[j - at]
                } else {
                    old(dst)@[j]
                }),
        decreases n - i,
    {
        dst[at + i] = src[i];
        i += 1;
    }
    assert(dst@ =~= splice(old(dst)@, at as int, src@));
}

/// A block of `N` bytes that is filled from its start, field after field.
/// What has not been written yet is zero.
pub(crate) struct LayoutWriter<const N: usize> {
    bytes: [u8; N],
    at: usize,
}

impl<const N: usize> LayoutWriter<N> {
    /// The writer stays inside its block, and the bytes behind what was
    /// written are zero.
    pub closed spec fn wf(self) -> bool {
        &&& self.at <= N
        &&& forall|i: int| self.at <= i < N ==> self.bytes@[i] == 0
    }

    /// The bytes written so far.
    pub closed spec fn written(self) -> Seq<u8> {
        self.bytes@.take(self.at as int)
    }

    /// A writer whose block starts with `src`.
    pub fn start(src: &[u8]) -> (w: LayoutWriter<N>)
        requires
            src@.len() <= N,
        ensures
            w.wf(),
            w.written() == src@,
    {
        let mut bytes: [u8; N] = [0u8; N];
        assert(bytes == vstd::array::spec_array_fill_for_copy_type::<u8, N>(0u8));
        copy_into(&mut bytes, 0, src);
        let w = LayoutWriter { bytes, at: src.len() };
        assert(w.written() =~= src@);
        w
    }

    /// Writes `src` behind what was written before.
    pub fn put(&mut self, src: &[u8])
        requires
            old(self).wf(),
            old(self).written().len() + src@.len() <= N,
        ensures
            final(self).wf(),
            final(self).written() == old(self).written() + src@,
    {
        copy_into(&mut self.bytes, self.at, src);
        self.at = self.at + src.len();
        assert(self.written() =~= old(self).written() + src@);
    }

    /// Leaves the next `n` bytes zero.
    pub fn pad(&mut self, n: usize)
        requires
            old(self).wf(),
            old(self).written().len() + n <= N,
        ensures
            final(self).wf(),
            final(self).written() == old(self).written() + zeros(n as nat),
    {
        self.at = self.at + n;
        assert(self.written() =~= old(self).written() + zeros(n as nat));
    }

    /// The block: what was written, and zero bytes behind it.
    pub fn finish(self) -> (bytes: [u8; N])
        requires
            self.wf(),
        ensures
            bytes@ == self.written() + zeros((N - self.written().len()) as nat),
            self.written().len() == N ==> bytes@ == self.written(),
    {
        assert(self.bytes@ =~= self.written() + zeros((N - self.written().len()) as nat));
        assert(self.written().len() == N ==> self.bytes@ =~= self.written());
        self.bytes
    }
}

/// A raw layout: a block of bytes that can be shown to the operating system.
pub trait RawSockaddr: View<V = Seq<u8>> {
    /// The bytes of the block.
    fn as_bytes(&self) -> (bytes: &[u8])
        ensures
            bytes@ == self@,
    ;
}

/// The raw layout of an IPv4 socket address.
#[derive(Clone, Copy, Debug, PartialEq, Eq, PartialOrd, Ord, Hash)]
pub struct SockaddrIn {
    pub bytes: [u8; SOCKADDR_IN_LEN],
}

/// The raw layout of an IPv6 socket address.
#[derive(Clone, Copy, Debug, PartialEq, Eq, PartialOrd, Ord, Hash)]
pub struct SockaddrIn6 {
    pub bytes: [u8; SOCKADDR_IN6_LEN],
}

/// The raw layout of a Unix-domain socket address.
#[derive(Clone, Copy, Debug, PartialEq, Eq, PartialOrd, Ord, Hash)]
pub struct SockaddrUn {
    pub bytes: [u8; SOCKADDR_UN_LEN],
}

/// The raw layout of a netlink socket address.
#[derive(Clone, Copy, Debug, PartialEq, Eq, PartialOrd, Ord, Hash)]
pub struct SockaddrNl {
    pub bytes: [u8; SOCKADDR_NL_LEN],
}

/// The raw layout of an XDP socket address.
#[derive(Clone, Copy, Debug, PartialEq, Eq, PartialOrd, Ord, Hash)]
pub struct SockaddrXdp {
    pub bytes: [u8; SOCKADDR_XDP_LEN],
}

/// Room for the raw layout of an address of any family. It says nothing of
/// how many of its bytes are in use: that length travels beside it.
#[derive(Clone, Copy, Debug, PartialEq, Eq, PartialOrd, Ord, Hash)]
pub struct SocketAddrStorage {
    pub bytes: [u8; SOCKADDR_STORAGE_LEN],
}

impl View for SockaddrIn {
    type V = Seq<u8>;

    open spec fn view(&self) -> Seq<u8> {
        self.bytes@
    }
}

impl View for SockaddrIn6 {
    type V = Seq<u8>;

    open spec fn view(&self) -> Seq<u8> {
        self.bytes@
    }
}

impl View for SockaddrUn {
    type V = Seq<u8>;

    open spec fn view(&self) -> Seq<u8> {
        self.bytes@
    }
}

impl View for SockaddrNl {
    type V = Seq<u8>;

    open spec fn view(&self) -> Seq<u8> {
        self.bytes@
    }
}

impl View for SockaddrXdp {
    type V = Seq<u8>;

    open spec fn view(&self) -> Seq<u8> {
        self.bytes@
    }
}

impl View for SocketAddrStorage {
    type V = Seq<u8>;

    open spec fn view(&self) -> Seq<u8> {
        self.bytes@
    }
}

impl RawSockaddr for SockaddrIn {
    fn as_bytes(&self) -> (bytes: &[u8]) {
        self.bytes.as_slice()
    }
}

impl RawSockaddr for SockaddrIn6 {
    fn as_bytes(&self) -> (bytes: &[u8]) {
        self.bytes.as_slice()
    }
}

impl RawSockaddr for SockaddrUn {
    fn as_bytes(&self) -> (bytes: &[u8]) {
        self.bytes.as_slice()
    }
}

impl RawSockaddr for SockaddrNl {
    fn as_bytes(&self) -> (bytes: &[u8]) {
        self.bytes.as_slice()
    }
}

impl RawSockaddr for SockaddrXdp {
    fn as_bytes(&self) -> (bytes: &[u8]) {
        self.bytes.as_slice()
    }
}

impl RawSockaddr for SocketAddrStorage {
    fn as_bytes(&self) -> (bytes: &[u8]) {
        self.bytes.as_slice()
    }
}

impl SocketAddrStorage {
    /// A storage of zero bytes.
    pub fn zeroed() -> (storage: SocketAddrStorage)
        ensures
            storage@ == zeros(SOCKADDR_STORAGE_LEN as nat),
    {
        let storage = SocketAddrStorage { bytes: [0u8; SOCKADDR_STORAGE_LEN] };
        assert(storage@ =~= zeros(SOCKADDR_STORAGE_LEN as nat));
        storage
    }
}

} // verus!
