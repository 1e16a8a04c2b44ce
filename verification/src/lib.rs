//! Socket addresses and their operating-system byte layouts.
//!
//! The typed addresses ([`SocketAddrV4`], [`SocketAddrV6`],
//! [`SocketAddrUnix`], [`SocketAddrXdp`], [`SocketAddrNetlink`]) and their
//! union [`SocketAddrAny`] are turned into the byte layouts that the socket
//! calls of Linux on a little-endian machine expect, and read back from them.
//! Every function is verified against a mathematical description of the
//! layout, and decoding what was encoded is proved to give the address back.
//!
//! No function here takes a pointer. A raw layout is a block of bytes of a
//! fixed size, the storage for any address is such a block of
//! [`family::SOCKADDR_STORAGE_LEN`] bytes, and the bytes of an address are
//! lent as a slice, which knows its own length.

pub mod byteorder;
pub mod equality;
pub mod family;
pub mod ip;
pub mod linux;
pub mod msghdr;
pub mod raw;
pub mod read_sockaddr;
pub mod round_trip;
pub mod socket_addr_any;
pub mod socket_address;
pub mod text;
pub mod unix;
pub mod write_sockaddr;

pub use family::AddressFamily;
pub use ip::{Ipv4Addr, Ipv6Addr, SocketAddr, SocketAddrV4, SocketAddrV6};
pub use linux::{SocketAddrNetlink, SocketAddrXdp};
pub use raw::{
    RawSockaddr, SockaddrIn, SockaddrIn6, SockaddrNl, SockaddrUn, SockaddrXdp, SocketAddrStorage,
};
pub use read_sockaddr::DecodeError;
pub use socket_addr_any::{SocketAddrAny, SocketAddrAnyView};
pub use socket_address::SocketAddress;
pub use unix::{PathTooLong, SocketAddrUnix};
