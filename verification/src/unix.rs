//! Unix-domain socket addresses.

use vstd::prelude::*;
use vstd::slice::slice_subrange;
use vstd::std_specs::cmp::PartialEqSpecImpl;
use crate::byteorder::{le16, u16_to_le};
use crate::family::{AF_UNIX, FAMILY_LEN, SOCKADDR_UN_LEN, UNIX_PATH_MAX};
use crate::raw::{zeros, LayoutWriter, SockaddrUn};

verus! {

/// The path or name given for a Unix-domain address has more than
/// [`UNIX_PATH_MAX`] bytes.
#[derive(Clone, Copy, Debug, PartialEq, Eq, Structural, PartialOrd, Ord, Hash)]
pub struct PathTooLong;

/// The raw Unix-domain layout of the path `path`: the tag, the path, and
/// zero bytes up to the size of the layout.
pub open spec fn sockaddr_un_layout(path: Seq<u8>) -> Seq<u8> {
    le16(AF_UNIX) + path + zeros((UNIX_PATH_MAX - path.len()) as nat)
}

/// The address of a Unix-domain socket: a path in the file system, a name
/// in the abstract namespace (a zero byte and the name), or nothing at all
/// for a socket without a name. In each case it is a sequence of at most
/// [`UNIX_PATH_MAX`] bytes with a length of its own, so that zero bytes may
/// occur in it.
///
/// The address keeps its raw layout, and the number of bytes of it that are
/// in use.
#[derive(Clone, Copy, Debug, Eq, PartialOrd, Ord, Hash)]
pub struct SocketAddrUnix {
    unix: SockaddrUn,
    len: usize,
}

impl View for SocketAddrUnix {
    type V = Seq<u8>;

    /// The bytes of the path or name.
    closed spec fn view(&self) -> Seq<u8> {
        self.unix@.subrange(FAMILY_LEN as int, self.len as int)
    }
}

impl SocketAddrUnix {
    /// What holds of every address: the raw layout starts with the tag of
    /// the family, the length covers the tag and lies within the layout, and
    /// the bytes that are not in use are zero.
    #[verifier::type_invariant]
    pub closed spec fn wf(self) -> bool {
        &&& FAMILY_LEN <= self.len <= SOCKADDR_UN_LEN
        &&& self.unix@[0] == le16(AF_UNIX)[0]
        &&& self.unix@[1] == le16(AF_UNIX)[1]
        &&& forall|i: int| self.len <= i < SOCKADDR_UN_LEN ==> self.unix@[i] == 0
    }

    /// The raw layout that the address keeps.
    pub closed spec fn raw(self) -> SockaddrUn {
        self.unix
    }

    /// The path of an address has at most [`UNIX_PATH_MAX`] bytes, and its
    /// raw layout is the one of its path.
    pub proof fn lemma_wf(self)
        requires
            self.wf(),
        ensures
            self@.len() <= UNIX_PATH_MAX,
            self.raw()@ == sockaddr_un_layout(self@),
    {
        assert(self.unix@ =~= sockaddr_un_layout(self@));
    }

    /// The address with the path or name `path`, which is known to fit.
    pub(crate) fn from_path(path: &[u8]) -> (addr: SocketAddrUnix)
        requires
            path@.len() <= UNIX_PATH_MAX,
        ensures
            addr@ == path@,
            addr.wf(),
    {
        let mut w: LayoutWriter<SOCKADDR_UN_LEN> = LayoutWriter::start(u16_to_le(AF_UNIX).as_slice());
        w.put(path);
        let bytes = w.finish();
        let addr = SocketAddrUnix { unix: SockaddrUn { bytes }, len: FAMILY_LEN + path.len() };
        assert(addr@ =~= path@);
        addr
    }

    /// The address with the path or name `path`, if that is not too long.
    pub fn new(path: &[u8]) -> (r: Result<SocketAddrUnix, PathTooLong>)
        ensures
            r is Ok <==> path@.len() <= UNIX_PATH_MAX,
            r is Ok ==> r->Ok_0@ == path@ && r->Ok_0.wf(),
    {
        if path.len() > UNIX_PATH_MAX {
            Err(PathTooLong)
        } else {
            Ok(SocketAddrUnix::from_path(path))
        }
    }

    /// The address of a socket without a name.
    pub fn new_unnamed() -> (addr: SocketAddrUnix)
        ensures
            addr@ == Seq::<u8>::empty(),
            addr.wf(),
    {
        let w: LayoutWriter<SOCKADDR_UN_LEN> = LayoutWriter::start(u16_to_le(AF_UNIX).as_slice());
        let bytes = w.finish();
        let addr = SocketAddrUnix { unix: SockaddrUn { bytes }, len: FAMILY_LEN };
        assert(addr@ =~= Seq::<u8>::empty());
        addr
    }

    /// The address of the name `name` in the abstract namespace: a zero byte
    /// and then the name, if the two together are not too long.
    pub fn new_abstract_name(name: &[u8]) -> (r: Result<SocketAddrUnix, PathTooLong>)
        ensures
            r is Ok <==> 1 + name@.len() <= UNIX_PATH_MAX,
            r is Ok ==> r->Ok_0@ == seq![0u8] + name@ && r->Ok_0.wf(),
    {
        if name.len() >= UNIX_PATH_MAX {
            return Err(PathTooLong);
        }
        let mut w: LayoutWriter<SOCKADDR_UN_LEN> = LayoutWriter::start(u16_to_le(AF_UNIX).as_slice());
        w.pad(1);
        w.put(name);
        let bytes = w.finish();
        let addr = SocketAddrUnix { unix: SockaddrUn { bytes }, len: FAMILY_LEN + 1 + name.len() };
        assert(addr@ =~= seq![0u8] + name@);
        Ok(addr)
    }

    /// The bytes of the path or name.
    pub fn path_bytes(&self) -> (path: &[u8])
        ensures
            path@ == self@,
    {
        proof {
            use_type_invariant(self);
        }
        slice_subrange(self.unix.bytes.as_slice(), FAMILY_LEN, self.len)
    }

    /// The number of bytes of the raw layout that are in use: the tag and
    /// the path.
    pub fn addr_len(&self) -> (len: usize)
        ensures
            len == FAMILY_LEN + self@.len(),
            len <= SOCKADDR_UN_LEN,
    {
        proof {
            use_type_invariant(self);
        }
        self.len
    }

    /// Whether this is the address of a socket without a name.
    pub fn is_unnamed(&self) -> (unnamed: bool)
        ensures
            unnamed == (self@.len() == 0),
    {
        proof {
            use_type_invariant(self);
        }
        self.len == FAMILY_LEN
    }

    /// Whether this is a name in the abstract namespace.
    pub fn is_abstract(&self) -> (abstract_name: bool)
        ensures
            abstract_name == (self@.len() > 0 && self@[0] == 0),
    {
        proof {
            use_type_invariant(self);
        }
        self.len > FAMILY_LEN && self.unix.bytes[FAMILY_LEN] == 0
    }

    /// The raw layout of the address, which the address keeps in itself.
    pub fn as_raw(&self) -> (raw: &SockaddrUn)
        ensures
            *raw == self.raw(),
            raw@ == sockaddr_un_layout(self@),
    {
        proof {
            use_type_invariant(self);
            self.lemma_wf();
        }
        &self.unix
    }

    /// The bytes of the raw layout that are in use: the tag and the path.
    /// They are handed out of the address itself, without a copy.
    pub fn sockaddr_bytes(&self) -> (bytes: &[u8])
        ensures
            bytes@ == le16(AF_UNIX) + self@,
    {
        proof {
            use_type_invariant(self);
        }
        let bytes = slice_subrange(self.unix.bytes.as_slice(), 0, self.len);
        assert(bytes@ =~= le16(AF_UNIX) + self@);
        bytes
    }
}

impl PartialEq for SocketAddrUnix {
    /// Two addresses are equal when their paths are.
    fn eq(&self, other: &SocketAddrUnix) -> (r: bool) {
        proof {
            use_type_invariant(self);
            use_type_invariant(other);
        }
        if self.len != other.len {
            assert(self@.len() != other@.len());
            return false;
        }
        let mut i: usize = FAMILY_LEN;
        while i < self.len
            invariant
                FAMILY_LEN <= i <= self.len,
                self.len == other.len,
                self.len <= SOCKADDR_UN_LEN,
                forall|j: int| FAMILY_LEN <= j < i ==> self.unix@[j] == other.unix@[j],
            decreases self.len - i,
        {
            if self.unix.bytes[i] != other.unix.bytes[i] {
                assert(self@[i - FAMILY_LEN] != other@[i - FAMILY_LEN]);
                return false;
            }
            i += 1;
        }
        assert(self@ =~= other@);
        true
    }
}

impl PartialEqSpecImpl for SocketAddrUnix {
    open spec fn obeys_eq_spec() -> bool {
        true
    }

    open spec fn eq_spec(&self, other: &SocketAddrUnix) -> bool {
        self@ == other@
    }
}

} // verus!
