//! What `==` means on addresses of any family.

use vstd::prelude::*;
use vstd::std_specs::cmp::PartialEqSpec;
use crate::ip::{SocketAddrV4, SocketAddrV6};
use crate::socket_addr_any::SocketAddrAny;
use crate::unix::SocketAddrUnix;

verus! {

/// Addresses of different families are never equal, whatever their fields
/// hold.
pub proof fn lemma_families_apart(a: SocketAddrAny, b: SocketAddrAny)
    requires
        a@.family() != b@.family(),
    ensures
        !a.eq_spec(&b),
        a != b,
{
}

/// An IPv4 address is equal neither to an IPv6 address nor to a Unix-domain
/// address.
pub proof fn lemma_v4_apart(v4: SocketAddrV4, v6: SocketAddrV6, unix: SocketAddrUnix)
    ensures
        !SocketAddrAny::V4(v4).eq_spec(&SocketAddrAny::V6(v6)),
        !SocketAddrAny::V4(v4).eq_spec(&SocketAddrAny::Unix(unix)),
{
}

/// Every address is equal to itself, and equal addresses are shown to the
/// operating system as the same bytes.
pub proof fn lemma_equal_addresses(a: SocketAddrAny, b: SocketAddrAny)
    ensures
        a.eq_spec(&a),
        a.eq_spec(&b) ==> a@.sockaddr() == b@.sockaddr(),
{
}

} // verus!
