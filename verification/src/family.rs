//! Address families: the tag at the start of every raw socket address.

use vstd::prelude::*;

verus! {

/// Tag of Unix-domain addresses.
pub const AF_UNIX: u16 = 1;

/// Tag of IPv4 addresses.
pub const AF_INET: u16 = 2;

/// Tag of IPv6 addresses.
pub const AF_INET6: u16 = 10;

/// Tag of netlink addresses.
pub const AF_NETLINK: u16 = 16;

/// Tag of XDP addresses.
pub const AF_XDP: u16 = 44;

/// Number of bytes that the tag takes at the start of a raw address.
pub const FAMILY_LEN: usize = 2;

/// Size of the raw IPv4 layout.
pub const SOCKADDR_IN_LEN: usize = 16;

/// Size of the raw IPv6 layout.
pub const SOCKADDR_IN6_LEN: usize = 28;

/// Size of the raw Unix-domain layout: the tag and the path's room.
pub const SOCKADDR_UN_LEN: usize = 110;

/// Size of the raw netlink layout.
pub const SOCKADDR_NL_LEN: usize = 12;

/// Size of the raw XDP layout.
pub const SOCKADDR_XDP_LEN: usize = 16;

/// Size of the storage that holds the raw layout of any family.
pub const SOCKADDR_STORAGE_LEN: usize = 128;

/// The most bytes that the path or name of a Unix-domain address can have.
pub const UNIX_PATH_MAX: usize = 108;

/// The families whose addresses this library reads and writes.
#[derive(Clone, Copy, Debug, PartialEq, Eq, Structural, PartialOrd, Ord, Hash)]
pub enum AddressFamily {
    /// Unix-domain sockets.
    Unix,
    /// IPv4.
    Inet,
    /// IPv6.
    Inet6,
    /// Netlink.
    Netlink,
    /// XDP.
    Xdp,
}

impl AddressFamily {
    /// The tag that stands for this family in a raw address.
    pub open spec fn tag(self) -> u16 {
        match self {
            AddressFamily::Unix => AF_UNIX,
            AddressFamily::Inet => AF_INET,
            AddressFamily::Inet6 => AF_INET6,
            AddressFamily::Netlink => AF_NETLINK,
            AddressFamily::Xdp => AF_XDP,
        }
    }

    /// The family that `tag` stands for, if it is one that this library
    /// knows.
    pub open spec fn of_tag(tag: u16) -> Option<AddressFamily> {
        if tag == AF_UNIX {
            Some(AddressFamily::Unix)
        } else if tag == AF_INET {
            Some(AddressFamily::Inet)
        } else if tag == AF_INET6 {
            Some(AddressFamily::Inet6)
        } else if tag == AF_NETLINK {
            Some(AddressFamily::Netlink)
        } else if tag == AF_XDP {
            Some(AddressFamily::Xdp)
        } else {
            None
        }
    }

    /// The least number of bytes that a raw address of this family has.
    pub open spec fn min_len(self) -> nat {
        match self {
            AddressFamily::Unix => FAMILY_LEN as nat,
            AddressFamily::Inet => SOCKADDR_IN_LEN as nat,
            AddressFamily::Inet6 => SOCKADDR_IN6_LEN as nat,
            AddressFamily::Netlink => SOCKADDR_NL_LEN as nat,
            AddressFamily::Xdp => SOCKADDR_XDP_LEN as nat,
        }
    }

    /// Returns [`Self::tag`].
    pub fn as_raw(self) -> (tag: u16)
        ensures
            tag == self.tag(),
    {
        match self {
            AddressFamily::Unix => AF_UNIX,
            AddressFamily::Inet => AF_INET,
            AddressFamily::Inet6 => AF_INET6,
            AddressFamily::Netlink => AF_NETLINK,
            AddressFamily::Xdp => AF_XDP,
        }
    }

    /// Returns [`Self::of_tag`].
    pub fn from_raw(tag: u16) -> (family: Option<AddressFamily>)
        ensures
            family == Self::of_tag(tag),
    {
        if tag == AF_UNIX {
            Some(AddressFamily::Unix)
        } else if tag == AF_INET {
            Some(AddressFamily::Inet)
        } else if tag == AF_INET6 {
            Some(AddressFamily::Inet6)
        } else if tag == AF_NETLINK {
            Some(AddressFamily::Netlink)
        } else if tag == AF_XDP {
            Some(AddressFamily::Xdp)
        } else {
            None
        }
    }

    /// Returns [`Self::min_len`].
    pub fn min_sockaddr_len(self) -> (len: usize)
        ensures
            len == self.min_len(),
    {
        match self {
            AddressFamily::Unix => FAMILY_LEN,
            AddressFamily::Inet => SOCKADDR_IN_LEN,
            AddressFamily::Inet6 => SOCKADDR_IN6_LEN,
            AddressFamily::Netlink => SOCKADDR_NL_LEN,
            AddressFamily::Xdp => SOCKADDR_XDP_LEN,
        }
    }
}

/// A family is found again from its tag, and no two families share one.
pub proof fn lemma_tag_names_family(family: AddressFamily)
    ensures
        AddressFamily::of_tag(family.tag()) == Some(family),
{
}

} // verus!
