use sockaddr::byteorder::{
    u16_from_be, u16_from_le, u16_to_be, u16_to_le, u32_from_be, u32_from_le, u32_to_be, u32_to_le,
};
use sockaddr::family::{AF_INET, AF_INET6, AF_NETLINK, AF_UNIX, AF_XDP};
use sockaddr::read_sockaddr::{
    read_sa_family, read_sockaddr, read_sockaddr_netlink, read_sockaddr_unix, read_sockaddr_v4,
    read_sockaddr_v6, read_sockaddr_xdp,
};
use sockaddr::write_sockaddr::{
    encode_sockaddr_netlink, encode_sockaddr_v4, encode_sockaddr_v6, encode_sockaddr_xdp,
};
use sockaddr::{
    AddressFamily, DecodeError, Ipv4Addr, Ipv6Addr, RawSockaddr, SocketAddr, SocketAddrAny,
    SocketAddrNetlink, SocketAddrStorage, SocketAddrUnix, SocketAddrV4, SocketAddrV6,
    SocketAddrXdp, SocketAddress,
};

fn storage_of(bytes: &[u8]) -> SocketAddrStorage {
    let mut storage = SocketAddrStorage::zeroed();
    storage.bytes[..bytes.len()].copy_from_slice(bytes);
    storage
}

#[test]
fn byte_orders() {
    assert_eq!(u16_to_be(8080), [0x1f, 0x90]);
    assert_eq!(u16_to_le(8080), [0x90, 0x1f]);
    assert_eq!(u16_from_be(0x1f, 0x90), 8080);
    assert_eq!(u16_from_le(0x90, 0x1f), 8080);
    assert_eq!(u32_to_be(0x0102_0304), [1, 2, 3, 4]);
    assert_eq!(u32_to_le(0x0102_0304), [4, 3, 2, 1]);
    assert_eq!(u32_from_be(1, 2, 3, 4), 0x0102_0304);
    assert_eq!(u32_from_le(4, 3, 2, 1), 0x0102_0304);
    assert_eq!(u32_to_be(u32::MAX), [255; 4]);
    assert_eq!(u16_from_be(255, 255), u16::MAX);
    assert_eq!(u32_from_le(255, 255, 255, 255), u32::MAX);
    for v in [0u16, 1, 255, 256, 0x1234, 0xff00, 0xffff] {
        assert_eq!(u16_to_be(v), v.to_be_bytes());
        assert_eq!(u16_to_le(v), v.to_le_bytes());
    }
    for v in [0u32, 1, 255, 256, 0x1234_5678, 0xff00_00ff, 0xffff_ffff] {
        assert_eq!(u32_to_be(v), v.to_be_bytes());
        assert_eq!(u32_to_le(v), v.to_le_bytes());
    }
}

#[test]
fn family_tags() {
    assert_eq!(AddressFamily::Unix.as_raw(), 1);
    assert_eq!(AddressFamily::Inet.as_raw(), 2);
    assert_eq!(AddressFamily::Inet6.as_raw(), 10);
    assert_eq!(AddressFamily::Netlink.as_raw(), 16);
    assert_eq!(AddressFamily::Xdp.as_raw(), 44);
    assert_eq!(AddressFamily::from_raw(AF_UNIX), Some(AddressFamily::Unix));
    assert_eq!(AddressFamily::from_raw(AF_INET), Some(AddressFamily::Inet));
    assert_eq!(AddressFamily::from_raw(AF_INET6), Some(AddressFamily::Inet6));
    assert_eq!(AddressFamily::from_raw(AF_NETLINK), Some(AddressFamily::Netlink));
    assert_eq!(AddressFamily::from_raw(AF_XDP), Some(AddressFamily::Xdp));
    assert_eq!(AddressFamily::from_raw(0), None);
    assert_eq!(AddressFamily::from_raw(3), None);
    assert_eq!(AddressFamily::from_raw(0xffff), None);
}

#[test]
fn ipv4_loopback_layout() {
    let addr = SocketAddrV4::new(Ipv4Addr::new(127, 0, 0, 1), 8080);
    let raw = addr.encode();
    assert_eq!(raw.bytes[..2], AF_INET.to_le_bytes());
    assert_eq!(raw.bytes[2..4], 8080u16.to_be_bytes());
    assert_eq!(raw.bytes[4..8], [127, 0, 0, 1]);
    assert_eq!(raw.bytes, [2, 0, 0x1f, 0x90, 127, 0, 0, 1, 0, 0, 0, 0, 0, 0, 0, 0]);
    assert_eq!(raw, encode_sockaddr_v4(&addr));
    assert_eq!(raw.as_bytes(), &raw.bytes[..]);

    let storage = storage_of(&[2, 0, 0x1f, 0x90, 127, 0, 0, 1, 0, 0, 0, 0, 0, 0, 0, 0]);
    assert_eq!(read_sa_family(&storage), AF_INET);
    assert_eq!(SocketAddrAny::read(&storage, 16), Ok(SocketAddrAny::V4(addr)));
    assert_eq!(read_sockaddr(&storage, 16), Ok(SocketAddrAny::V4(addr)));
    assert_eq!(read_sockaddr_v4(&storage, 16), Ok(addr));
    assert_eq!(*addr.ip(), Ipv4Addr::new(127, 0, 0, 1));
    assert_eq!(addr.port(), 8080);
    assert_eq!(addr.ip().octets(), [127, 0, 0, 1]);
    assert_eq!(Ipv4Addr::from_octets([127, 0, 0, 1]), *addr.ip());
}

#[test]
fn ipv4_padding_is_not_read() {
    let addr = SocketAddrV4::new(Ipv4Addr::new(8, 8, 4, 4), 53);
    let storage = storage_of(&[2, 0, 0, 53, 8, 8, 4, 4, 9, 9, 9, 9, 9, 9, 9, 9, 7, 7]);
    assert_eq!(SocketAddrAny::read(&storage, 16), Ok(SocketAddrAny::V4(addr)));
}

#[test]
fn ipv6_layout() {
    let ip = Ipv6Addr::new(0x2001, 0x0db8, 0, 1, 0xa0b0, 0xc0d0, 0x00ff, 0xff00);
    let addr = SocketAddrV6::new(ip, 0x1234, 0x0102_0304, 0x0a0b_0c0d);
    let expected = [
        10, 0, 0x12, 0x34, 1, 2, 3, 4, 0x20, 0x01, 0x0d, 0xb8, 0, 0, 0, 1, 0xa0, 0xb0, 0xc0, 0xd0,
        0x00, 0xff, 0xff, 0x00, 0x0a, 0x0b, 0x0c, 0x0d,
    ];
    assert_eq!(addr.encode().bytes, expected);
    assert_eq!(encode_sockaddr_v6(&addr).bytes, expected);
    assert_eq!(
        ip.octets(),
        [0x20, 0x01, 0x0d, 0xb8, 0, 0, 0, 1, 0xa0, 0xb0, 0xc0, 0xd0, 0x00, 0xff, 0xff, 0x00]
    );
    let storage = storage_of(&expected);
    assert_eq!(read_sockaddr_v6(&storage, 28), Ok(addr));
    assert_eq!(SocketAddrAny::read(&storage, 28), Ok(SocketAddrAny::V6(addr)));
    assert_eq!(*addr.ip(), ip);
    assert_eq!(addr.port(), 0x1234);
    assert_eq!(addr.flowinfo(), 0x0102_0304);
    assert_eq!(addr.scope_id(), 0x0a0b_0c0d);
}

#[test]
fn unix_path_layout() {
    let addr = SocketAddrUnix::new(b"/tmp/sock").unwrap();
    let raw = addr.encode();
    let mut expected = [0u8; 110];
    expected[0] = 1;
    expected[2..11].copy_from_slice(b"/tmp/sock");
    assert_eq!(raw.bytes, expected);
    assert_eq!(addr.as_raw().bytes, expected);
    assert_eq!(addr.path_bytes(), b"/tmp/sock");
    assert_eq!(addr.path_bytes().len(), 9);
    assert_eq!(addr.addr_len(), 2 + 9);
    assert_eq!(addr.sockaddr_bytes(), &expected[..11]);
    assert!(!addr.is_unnamed());
    assert!(!addr.is_abstract());

    let storage = storage_of(&expected);
    match SocketAddrAny::read(&storage, 11) {
        Ok(SocketAddrAny::Unix(unix)) => {
            assert_eq!(unix.path_bytes(), b"/tmp/sock");
            assert_eq!(unix, addr);
        },
        other => panic!("{:?}", other),
    }
    assert_eq!(read_sockaddr_unix(&storage, 11), Ok(addr));
}

#[test]
fn unix_name_with_zero_bytes() {
    let addr = SocketAddrUnix::new(b"\0a\0b").unwrap();
    assert!(addr.is_abstract());
    assert_eq!(addr, SocketAddrUnix::new_abstract_name(b"a\0b").unwrap());
    assert_eq!(addr.encode().bytes[..7], [1, 0, 0, b'a', 0, b'b', 0]);
    let mut storage = SocketAddrStorage::zeroed();
    let len = SocketAddrAny::Unix(addr).write(&mut storage);
    assert_eq!(len, 6);
    match SocketAddrAny::read(&storage, len) {
        Ok(SocketAddrAny::Unix(unix)) => assert_eq!(unix.path_bytes(), b"\0a\0b"),
        other => panic!("{:?}", other),
    }
    assert_ne!(addr, SocketAddrUnix::new(b"\0a\0b\0").unwrap());
    assert_ne!(addr, SocketAddrUnix::new(b"\0a\0").unwrap());
}

#[test]
fn netlink_layout() {
    let addr = SocketAddrNetlink::new(0x0102_0304, 0x0a0b_0c0d);
    let expected = [16, 0, 0, 0, 4, 3, 2, 1, 0x0d, 0x0c, 0x0b, 0x0a];
    assert_eq!(addr.encode().bytes, expected);
    assert_eq!(encode_sockaddr_netlink(&addr).bytes, expected);
    assert_eq!(read_sockaddr_netlink(&storage_of(&expected), 12), Ok(addr));
    let dirty_pad = [16, 0, 9, 9, 4, 3, 2, 1, 0x0d, 0x0c, 0x0b, 0x0a];
    assert_eq!(read_sockaddr_netlink(&storage_of(&dirty_pad), 12), Ok(addr));
}

#[test]
fn xdp_layout() {
    let addr = SocketAddrXdp::new(0x0102, 0x0304_0506, 0x0708_090a, 0x0b0c_0d0e);
    let expected = [44, 0, 2, 1, 6, 5, 4, 3, 0x0a, 9, 8, 7, 0x0e, 0x0d, 0x0c, 0x0b];
    assert_eq!(addr.encode().bytes, expected);
    assert_eq!(encode_sockaddr_xdp(&addr).bytes, expected);
    assert_eq!(read_sockaddr_xdp(&storage_of(&expected), 16), Ok(addr));
}

#[test]
fn family_decoders_check_the_tag() {
    let v4 = SocketAddrV4::new(Ipv4Addr::new(1, 2, 3, 4), 5);
    let storage = storage_of(&v4.encode().bytes);
    assert_eq!(read_sockaddr_v4(&storage, 15), Err(DecodeError::TooShort));
    assert_eq!(read_sockaddr_v6(&storage, 128), Err(DecodeError::UnsupportedFamily));
    assert_eq!(read_sockaddr_v6(&storage, 0), Err(DecodeError::UnsupportedFamily));
    assert_eq!(read_sockaddr_unix(&storage, 128), Err(DecodeError::UnsupportedFamily));
    assert_eq!(read_sockaddr_netlink(&storage, 128), Err(DecodeError::UnsupportedFamily));
    assert_eq!(read_sockaddr_xdp(&storage, 128), Err(DecodeError::UnsupportedFamily));
    let unix = storage_of(&[1, 0, b'a']);
    assert_eq!(read_sockaddr_v4(&unix, 128), Err(DecodeError::UnsupportedFamily));
    assert_eq!(read_sockaddr_unix(&unix, 1), Err(DecodeError::TooShort));
    assert_eq!(read_sockaddr_unix(&unix, 3), Ok(SocketAddrUnix::new(b"a").unwrap()));
    let v6 = storage_of(&[10, 0]);
    assert_eq!(read_sockaddr_v6(&v6, 27), Err(DecodeError::TooShort));
    let nl = storage_of(&[16, 0]);
    assert_eq!(read_sockaddr_netlink(&nl, 11), Err(DecodeError::TooShort));
    let xdp = storage_of(&[44, 0]);
    assert_eq!(read_sockaddr_xdp(&xdp, 15), Err(DecodeError::TooShort));
}

#[test]
fn storage_encodings_are_zero_padded() {
    let v4 = SocketAddrV4::new(Ipv4Addr::new(127, 0, 0, 1), 8080);
    let mut expected = [0u8; 128];
    expected[..8].copy_from_slice(&[2, 0, 0x1f, 0x90, 127, 0, 0, 1]);
    assert_eq!(SocketAddr::V4(v4).encode().bytes, expected);
    assert_eq!(SocketAddrAny::V4(v4).encode().bytes, expected);
    assert_eq!(SocketAddr::V4(v4).addr_len(), 16);

    let v6 = SocketAddrV6::new(Ipv6Addr::new(1, 2, 3, 4, 5, 6, 7, 8), 9, 10, 11);
    let mut expected = [0u8; 128];
    expected[..28].copy_from_slice(&v6.encode().bytes);
    assert_eq!(SocketAddr::V6(v6).encode().bytes, expected);
    assert_eq!(SocketAddrAny::V6(v6).encode().bytes, expected);
    assert_eq!(SocketAddr::V6(v6).addr_len(), 28);

    let unix = SocketAddrUnix::new(b"/a").unwrap();
    let mut expected = [0u8; 128];
    expected[..4].copy_from_slice(&[1, 0, b'/', b'a']);
    assert_eq!(SocketAddrAny::Unix(unix).encode().bytes, expected);
}

#[test]
fn with_sockaddr_shows_the_bytes_in_use() {
    let v4 = SocketAddrV4::new(Ipv4Addr::new(127, 0, 0, 1), 8080);
    let shown = v4.with_sockaddr(|bytes: &[u8]| bytes.to_vec());
    assert_eq!(shown, vec![2, 0, 0x1f, 0x90, 127, 0, 0, 1, 0, 0, 0, 0, 0, 0, 0, 0]);
    assert_eq!(SocketAddr::V4(v4).with_sockaddr(|bytes: &[u8]| bytes.to_vec()), shown);
    assert_eq!(SocketAddrAny::V4(v4).with_sockaddr(|bytes: &[u8]| bytes.to_vec()), shown);

    let v6 = SocketAddrV6::new(Ipv6Addr::new(1, 2, 3, 4, 5, 6, 7, 8), 9, 10, 11);
    assert_eq!(v6.with_sockaddr(|bytes: &[u8]| bytes.len()), 28);
    assert_eq!(SocketAddr::V6(v6).with_sockaddr(|bytes: &[u8]| bytes.to_vec()), v6.encode().bytes);
    assert_eq!(SocketAddrAny::V6(v6).with_sockaddr(|bytes: &[u8]| bytes.len()), 28);

    let unix = SocketAddrUnix::new(b"/tmp/sock").unwrap();
    let shown = unix.with_sockaddr(|bytes: &[u8]| bytes.to_vec());
    assert_eq!(shown, b"\x01\x00/tmp/sock");
    assert_eq!(SocketAddrAny::Unix(unix).with_sockaddr(|bytes: &[u8]| bytes.to_vec()), shown);
    assert_eq!(SocketAddrUnix::new_unnamed().with_sockaddr(|bytes: &[u8]| bytes.to_vec()), [1, 0]);

    let nl = SocketAddrNetlink::new(1, 2);
    assert_eq!(nl.with_sockaddr(|bytes: &[u8]| bytes.to_vec()), nl.encode().bytes);
    assert_eq!(SocketAddrAny::Netlink(nl).with_sockaddr(|bytes: &[u8]| bytes.len()), 12);
    let xdp = SocketAddrXdp::new(1, 2, 3, 4);
    assert_eq!(xdp.with_sockaddr(|bytes: &[u8]| bytes.to_vec()), xdp.encode().bytes);
    assert_eq!(SocketAddrAny::Xdp(xdp).with_sockaddr(|bytes: &[u8]| bytes.len()), 16);
}

#[test]
fn address_lengths() {
    assert_eq!(SocketAddrV4::new(Ipv4Addr::new(0, 0, 0, 0), 0).addr_len(), 16);
    assert_eq!(SocketAddrNetlink::new(0, 0).addr_len(), 12);
    assert_eq!(SocketAddrXdp::new(0, 0, 0, 0).addr_len(), 16);
    assert_eq!(SocketAddress::addr_len(&SocketAddrUnix::new(b"abc").unwrap()), 5);
    assert_eq!(SocketAddrAny::Unix(SocketAddrUnix::new(b"abc").unwrap()).addr_len(), 5);
    assert_eq!(SocketAddrAny::Netlink(SocketAddrNetlink::new(0, 0)).addr_len(), 12);
}
