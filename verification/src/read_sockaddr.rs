//! From a raw layout to a typed address.
//!
//! The tag at the start of the storage is looked at before anything else. It
//! names the family, and with it the least number of bytes that the
//! storage has to hold; only then are the fields read.

use vstd::prelude::*;
use vstd::slice::slice_subrange;
use crate::byteorder::{
    from_be16, from_be32, from_le16, from_le32, u16_from_be, u16_from_le, u32_from_be, u32_from_le,
};
use crate::family::{AddressFamily, FAMILY_LEN, SOCKADDR_STORAGE_LEN, SOCKADDR_UN_LEN};
use crate::ip::{Ipv4Addr, Ipv6Addr, SocketAddrV4, SocketAddrV6};
use crate::linux::{SocketAddrNetlink, SocketAddrXdp};
use crate::raw::SocketAddrStorage;
use crate::socket_addr_any::{SocketAddrAny, SocketAddrAnyView};
use crate::unix::SocketAddrUnix;

verus! {

/// Why a storage could not be read as an address.
#[derive(Clone, Copy, Debug, PartialEq, Eq, Structural, PartialOrd, Ord, Hash)]
pub enum DecodeError {
    /// Fewer bytes are in use than the family named by the tag needs.
    TooShort,
    /// The tag names no family that this library knows, or not the one that
    /// was asked for.
    UnsupportedFamily,
}

/// The tag at the start of `bytes`.
pub open spec fn family_tag(bytes: Seq<u8>) -> u16 {
    from_le16(bytes[0], bytes[1])
}

/// What stands in the way of reading the first `len` bytes of `bytes` as an
/// address of `family`, if anything does: first the tag, then the length.
pub open spec fn family_mismatch(bytes: Seq<u8>, len: nat, family: AddressFamily) -> Option<
    DecodeError,
> {
    if family_tag(bytes) != family.tag() {
        Some(DecodeError::UnsupportedFamily)
    } else if len < family.min_len() {
        Some(DecodeError::TooShort)
    } else {
        None
    }
}

/// The IPv4 socket address that a raw layout holds.
pub open spec fn decoded_v4(bytes: Seq<u8>) -> SocketAddrV4 {
    SocketAddrV4 {
        ip: Ipv4Addr { a: bytes[4], b: bytes[5], c: bytes[6], d: bytes[7] },
        port: from_be16(bytes[2], bytes[3]),
    }
}

/// The IPv6 socket address that a raw layout holds.
pub open spec fn decoded_v6(bytes: Seq<u8>) -> SocketAddrV6 {
    SocketAddrV6 {
        ip: Ipv6Addr {
            a: from_be16(bytes[8], bytes[9]),
            b: from_be16(bytes[10], bytes[11]),
            c: from_be16(bytes[12], bytes[13]),
            d: from_be16(bytes[14], bytes[15]),
            e: from_be16(bytes[16], bytes[17]),
            f: from_be16(bytes[18], bytes[19]),
            g: from_be16(bytes[20], bytes[21]),
            h: from_be16(bytes[22], bytes[23]),
        },
        port: from_be16(bytes[2], bytes[3]),
        flowinfo: from_be32(bytes[4], bytes[5], bytes[6], bytes[7]),
        scope_id: from_be32(bytes[24], bytes[25], bytes[26], bytes[27]),
    }
}

/// The path of the Unix-domain address that the first `len` bytes of a raw
/// layout hold: what follows the tag, as far as the length and the layout
/// go.
pub open spec fn decoded_unix(bytes: Seq<u8>, len: nat) -> Seq<u8> {
    bytes.subrange(
        FAMILY_LEN as int,
        if len < SOCKADDR_UN_LEN {
            len as int
        } else {
            SOCKADDR_UN_LEN as int
        },
    )
}

/// The netlink socket address that a raw layout holds.
pub open spec fn decoded_netlink(bytes: Seq<u8>) -> SocketAddrNetlink {
    SocketAddrNetlink {
        pid: from_le32(bytes[4], bytes[5], bytes[6], bytes[7]),
        groups: from_le32(bytes[8], bytes[9], bytes[10], bytes[11]),
    }
}

/// The XDP socket address that a raw layout holds.
pub open spec fn decoded_xdp(bytes: Seq<u8>) -> SocketAddrXdp {
    SocketAddrXdp {
        flags: from_le16(bytes[2], bytes[3]),
        interface_index: from_le32(bytes[4], bytes[5], bytes[6], bytes[7]),
        queue_id: from_le32(bytes[8], bytes[9], bytes[10], bytes[11]),
        shared_umem_fd: from_le32(bytes[12], bytes[13], bytes[14], bytes[15]),
    }
}

/// The address of `family` that the first `len` bytes of a raw layout hold.
pub open spec fn decoded_as(bytes: Seq<u8>, len: nat, family: AddressFamily) -> SocketAddrAnyView {
    match family {
        AddressFamily::Inet => SocketAddrAnyView::V4(decoded_v4(bytes)),
        AddressFamily::Inet6 => SocketAddrAnyView::V6(decoded_v6(bytes)),
        AddressFamily::Unix => SocketAddrAnyView::Unix(decoded_unix(bytes, len)),
        AddressFamily::Netlink => SocketAddrAnyView::Netlink(decoded_netlink(bytes)),
        AddressFamily::Xdp => SocketAddrAnyView::Xdp(decoded_xdp(bytes)),
    }
}

/// What reading the first `len` bytes of the storage `bytes` gives: the
/// address of the family that the tag names, or the reason why there is
/// none.
pub open spec fn decoded(bytes: Seq<u8>, len: nat) -> Result<SocketAddrAnyView, DecodeError> {
    match AddressFamily::of_tag(family_tag(bytes)) {
        None => Err(DecodeError::UnsupportedFamily),
        Some(family) => if len < family.min_len() {
            Err(DecodeError::TooShort)
        } else {
            Ok(decoded_as(bytes, len, family))
        },
    }
}

/// A storage whose tag names a family, read with fewer bytes than an address
/// of that family has at the least, is too short. One byte less than that
/// number is the nearest such length.
pub proof fn lemma_short_length_rejected(bytes: Seq<u8>, len: nat, family: AddressFamily)
    requires
        AddressFamily::of_tag(family_tag(bytes)) == Some(family),
        len < family.min_len(),
    ensures
        decoded(bytes, len) == Err::<SocketAddrAnyView, DecodeError>(DecodeError::TooShort),
        decoded(bytes, (family.min_len() - 1) as nat) == Err::<SocketAddrAnyView, DecodeError>(
            DecodeError::TooShort,
        ),
{
}

/// A storage whose tag names no family that this library knows is refused
/// for that reason, with whatever length it is read.
pub proof fn lemma_unknown_family_rejected(bytes: Seq<u8>, len: nat)
    requires
        AddressFamily::of_tag(family_tag(bytes)) is None,
    ensures
        decoded(bytes, len) == Err::<SocketAddrAnyView, DecodeError>(
            DecodeError::UnsupportedFamily,
        ),
{
}

/// Reading succeeds exactly where the tag names a family and the length
/// reaches what that family needs, and then the address is of that family.
pub proof fn lemma_decoded_family(bytes: Seq<u8>, len: nat)
    requires
        bytes.len() == SOCKADDR_STORAGE_LEN,
    ensures
        decoded(bytes, len) is Ok <==> (AddressFamily::of_tag(family_tag(bytes)) matches Some(
            family,
        ) && len >= family.min_len()),
        decoded(bytes, len) matches Ok(addr) ==> AddressFamily::of_tag(family_tag(bytes)) == Some(
            addr.family(),
        ) && addr.wf(),
{
}

/// Reads the tag at the start of `storage`.
pub fn read_sa_family(storage: &SocketAddrStorage) -> (tag: u16)
    ensures
        tag == family_tag(storage@),
{
    u16_from_le(storage.bytes[0], storage.bytes[1])
}

/// Tests that `storage` holds the tag of `family` and that `len` bytes are
/// enough for an address of that family.
fn check_family(storage: &SocketAddrStorage, len: usize, family: AddressFamily) -> (r: Result<
    (),
    DecodeError,
>)
    ensures
        match family_mismatch(storage@, len as nat, family) {
            Some(e) => r == Err::<(), DecodeError>(e),
            None => r is Ok,
        },
{
    if read_sa_family(storage) != family.as_raw() {
        Err(DecodeError::UnsupportedFamily)
    } else if len < family.min_sockaddr_len() {
        Err(DecodeError::TooShort)
    } else {
        Ok(())
    }
}

/// Reads the first `len` bytes of `storage` as an IPv4 socket address.
pub fn read_sockaddr_v4(storage: &SocketAddrStorage, len: usize) -> (r: Result<
    SocketAddrV4,
    DecodeError,
>)
    ensures
        match family_mismatch(storage@, len as nat, AddressFamily::Inet) {
            Some(e) => r == Err::<SocketAddrV4, DecodeError>(e),
            None => r == Ok::<SocketAddrV4, DecodeError>(decoded_v4(storage@)),
        },
{
    if let Err(e) = check_family(storage, len, AddressFamily::Inet) {
        return Err(e);
    }
    let b = &storage.bytes;
    Ok(SocketAddrV4 { ip: Ipv4Addr::new(b[4], b[5], b[6], b[7]), port: u16_from_be(b[2], b[3]) })
}

/// Reads the first `len` bytes of `storage` as an IPv6 socket address.
pub fn read_sockaddr_v6(storage: &SocketAddrStorage, len: usize) -> (r: Result<
    SocketAddrV6,
    DecodeError,
>)
    ensures
        match family_mismatch(storage@, len as nat, AddressFamily::Inet6) {
            Some(e) => r == Err::<SocketAddrV6, DecodeError>(e),
            None => r == Ok::<SocketAddrV6, DecodeError>(decoded_v6(storage@)),
        },
{
    if let Err(e) = check_family(storage, len, AddressFamily::Inet6) {
        return Err(e);
    }
    let b = &storage.bytes;
    let ip = Ipv6Addr::new(
        u16_from_be(b[8], b[9]),
        u16_from_be(b[10], b[11]),
        u16_from_be(b[12], b[13]),
        u16_from_be(b[14], b[15]),
        u16_from_be(b[16], b[17]),
        u16_from_be(b[18], b[19]),
        u16_from_be(b[20], b[21]),
        u16_from_be(b[22], b[23]),
    );
    Ok(
        SocketAddrV6 {
            ip,
            port: u16_from_be(b[2], b[3]),
            flowinfo: u32_from_be(b[4], b[5], b[6], b[7]),
            scope_id: u32_from_be(b[24], b[25], b[26], b[27]),
        },
    )
}

/// Reads the first `len` bytes of `storage` as a Unix-domain socket address.
/// The path is what follows the tag; where `len` is beyond the raw layout,
/// the path ends with the layout.
pub fn read_sockaddr_unix(storage: &SocketAddrStorage, len: usize) -> (r: Result<
    SocketAddrUnix,
    DecodeError,
>)
    ensures
        match family_mismatch(storage@, len as nat, AddressFamily::Unix) {
            Some(e) => r == Err::<SocketAddrUnix, DecodeError>(e),
            None => r is Ok && r->Ok_0@ == decoded_unix(storage@, len as nat) && r->Ok_0.wf(),
        },
{
    if let Err(e) = check_family(storage, len, AddressFamily::Unix) {
        return Err(e);
    }
    let end = if len < SOCKADDR_UN_LEN {
        len
    } else {
        SOCKADDR_UN_LEN
    };
    Ok(SocketAddrUnix::from_path(slice_subrange(storage.bytes.as_slice(), FAMILY_LEN, end)))
}

/// Reads the first `len` bytes of `storage` as a netlink socket address.
pub fn read_sockaddr_netlink(storage: &SocketAddrStorage, len: usize) -> (r: Result<
    SocketAddrNetlink,
    DecodeError,
>)
    ensures
        match family_mismatch(storage@, len as nat, AddressFamily::Netlink) {
            Some(e) => r == Err::<SocketAddrNetlink, DecodeError>(e),
            None => r == Ok::<SocketAddrNetlink, DecodeError>(decoded_netlink(storage@)),
        },
{
    if let Err(e) = check_family(storage, len, AddressFamily::Netlink) {
        return Err(e);
    }
    let b = &storage.bytes;
    Ok(
        SocketAddrNetlink {
            pid: u32_from_le(b[4], b[5], b[6], b[7]),
            groups: u32_from_le(b[8], b[9], b[10], b[11]),
        },
    )
}

/// Reads the first `len` bytes of `storage` as an XDP socket address.
pub fn read_sockaddr_xdp(storage: &SocketAddrStorage, len: usize) -> (r: Result<
    SocketAddrXdp,
    DecodeError,
>)
    ensures
        match family_mismatch(storage@, len as nat, AddressFamily::Xdp) {
            Some(e) => r == Err::<SocketAddrXdp, DecodeError>(e),
            None => r == Ok::<SocketAddrXdp, DecodeError>(decoded_xdp(storage@)),
        },
{
    if let Err(e) = check_family(storage, len, AddressFamily::Xdp) {
        return Err(e);
    }
    let b = &storage.bytes;
    Ok(
        SocketAddrXdp {
            flags: u16_from_le(b[2], b[3]),
            interface_index: u32_from_le(b[4], b[5], b[6], b[7]),
            queue_id: u32_from_le(b[8], b[9], b[10], b[11]),
            shared_umem_fd: u32_from_le(b[12], b[13], b[14], b[15]),
        },
    )
}

/// Reads the first `len` bytes of `storage` as an address of the family that
/// its tag names.
pub fn read_sockaddr(storage: &SocketAddrStorage, len: usize) -> (r: Result<
    SocketAddrAny,
    DecodeError,
>)
    ensures
        match decoded(storage@, len as nat) {
            Ok(view) => r is Ok && r->Ok_0@ == view && r->Ok_0.wf(),
            Err(e) => r == Err::<SocketAddrAny, DecodeError>(e),
        },
{
    match AddressFamily::from_raw(read_sa_family(storage)) {
        None => Err(DecodeError::UnsupportedFamily),
        Some(AddressFamily::Inet) => match read_sockaddr_v4(storage, len) {
            Ok(v4) => Ok(SocketAddrAny::V4(v4)),
            Err(e) => Err(e),
        },
        Some(AddressFamily::Inet6) => match read_sockaddr_v6(storage, len) {
            Ok(v6) => Ok(SocketAddrAny::V6(v6)),
            Err(e) => Err(e),
        },
        Some(AddressFamily::Unix) => match read_sockaddr_unix(storage, len) {
            Ok(unix) => Ok(SocketAddrAny::Unix(unix)),
            Err(e) => Err(e),
        },
        Some(AddressFamily::Netlink) => match read_sockaddr_netlink(storage, len) {
            Ok(nl) => Ok(SocketAddrAny::Netlink(nl)),
            Err(e) => Err(e),
        },
        Some(AddressFamily::Xdp) => match read_sockaddr_xdp(storage, len) {
            Ok(xdp) => Ok(SocketAddrAny::Xdp(xdp)),
            Err(e) => Err(e),
        },
    }
}

} // verus!
