use std::collections::{BTreeSet, HashSet};

use sockaddr::msghdr::{with_msghdr, with_noaddr_msghdr, with_recv_msghdr, MsgHdr, RecvMsgHdr};
use sockaddr::{
    AddressFamily, Ipv4Addr, Ipv6Addr, SocketAddr, SocketAddrAny, SocketAddrNetlink,
    SocketAddrStorage, SocketAddrUnix, SocketAddrV4, SocketAddrV6, SocketAddrXdp,
};

fn samples() -> Vec<SocketAddrAny> {
    vec![
        SocketAddrAny::V4(SocketAddrV4::new(Ipv4Addr::new(0, 0, 0, 0), 0)),
        SocketAddrAny::V4(SocketAddrV4::new(Ipv4Addr::new(127, 0, 0, 1), 8080)),
        SocketAddrAny::V6(SocketAddrV6::new(Ipv6Addr::new(0, 0, 0, 0, 0, 0, 0, 0), 0, 0, 0)),
        SocketAddrAny::V6(SocketAddrV6::new(Ipv6Addr::new(0, 0, 0, 0, 0, 0x7f00, 1, 0), 8080, 0, 0)),
        SocketAddrAny::Unix(SocketAddrUnix::new_unnamed()),
        SocketAddrAny::Unix(SocketAddrUnix::new_abstract_name(b"tmp").unwrap()),
        SocketAddrAny::Unix(SocketAddrUnix::new(b"/tmp/sock").unwrap()),
        SocketAddrAny::Xdp(SocketAddrXdp::new(0, 0, 0, 0)),
        SocketAddrAny::Netlink(SocketAddrNetlink::new(0, 0)),
    ]
}

#[test]
fn families() {
    let families: Vec<AddressFamily> = samples().iter().map(|a| a.address_family()).collect();
    assert_eq!(
        families,
        vec![
            AddressFamily::Inet,
            AddressFamily::Inet,
            AddressFamily::Inet6,
            AddressFamily::Inet6,
            AddressFamily::Unix,
            AddressFamily::Unix,
            AddressFamily::Unix,
            AddressFamily::Xdp,
            AddressFamily::Netlink,
        ]
    );
}

#[test]
fn equality_is_by_family_and_fields() {
    let all = samples();
    for (i, a) in all.iter().enumerate() {
        for (j, b) in all.iter().enumerate() {
            assert_eq!(a == b, i == j);
            assert_eq!(a != b, i != j);
        }
        assert_eq!(*a, a.clone());
    }
}

#[test]
fn different_families_are_never_equal() {
    let v4 = SocketAddrAny::V4(SocketAddrV4::new(Ipv4Addr::new(0, 0, 0, 0), 0));
    let v6 = SocketAddrAny::V6(SocketAddrV6::new(Ipv6Addr::new(0, 0, 0, 0, 0, 0, 0, 0), 0, 0, 0));
    let unix = SocketAddrAny::Unix(SocketAddrUnix::new_unnamed());
    let xdp = SocketAddrAny::Xdp(SocketAddrXdp::new(0, 0, 0, 0));
    let nl = SocketAddrAny::Netlink(SocketAddrNetlink::new(0, 0));
    assert_ne!(v4, v6);
    assert_ne!(v4, unix);
    assert_ne!(v4, xdp);
    assert_ne!(v4, nl);
    assert_ne!(v6, unix);
    assert_ne!(xdp, nl);
    assert_ne!(
        SocketAddrAny::V4(SocketAddrV4::new(Ipv4Addr::new(47, 116, 109, 112), 0x2f74)),
        SocketAddrAny::Unix(SocketAddrUnix::new(b"/tmp").unwrap())
    );
}

#[test]
fn ordering_and_hashing_agree_with_equality() {
    let all = samples();
    let mut hashed = HashSet::new();
    let mut ordered = BTreeSet::new();
    for a in all.iter().chain(all.iter()) {
        hashed.insert(*a);
        ordered.insert(*a);
    }
    assert_eq!(hashed.len(), all.len());
    assert_eq!(ordered.len(), all.len());
    let sorted: Vec<SocketAddrAny> = ordered.into_iter().collect();
    assert_eq!(sorted, all);
    assert!(SocketAddrUnix::new(b"ab").unwrap() < SocketAddrUnix::new(b"ab\0").unwrap());
    assert!(SocketAddrUnix::new(b"ab").unwrap() < SocketAddrUnix::new(b"b").unwrap());
    assert!(
        SocketAddrV4::new(Ipv4Addr::new(1, 2, 3, 4), 9) < SocketAddrV4::new(Ipv4Addr::new(1, 2, 4, 0), 0)
    );
}

#[test]
fn conversions() {
    let v4 = SocketAddrV4::new(Ipv4Addr::new(1, 2, 3, 4), 5);
    let v6 = SocketAddrV6::new(Ipv6Addr::new(1, 2, 3, 4, 5, 6, 7, 8), 9, 10, 11);
    let unix = SocketAddrUnix::new(b"/x").unwrap();
    let xdp = SocketAddrXdp::new(1, 2, 3, 4);
    let nl = SocketAddrNetlink::new(1, 2);
    assert_eq!(SocketAddrAny::from(v4), SocketAddrAny::V4(v4));
    assert_eq!(SocketAddrAny::from(v6), SocketAddrAny::V6(v6));
    assert_eq!(SocketAddrAny::from(unix), SocketAddrAny::Unix(unix));
    assert_eq!(SocketAddrAny::from(xdp), SocketAddrAny::Xdp(xdp));
    assert_eq!(SocketAddrAny::from(nl), SocketAddrAny::Netlink(nl));
    assert_eq!(SocketAddrAny::from(SocketAddr::V4(v4)), SocketAddrAny::V4(v4));
    assert_eq!(SocketAddrAny::from(SocketAddr::V6(v6)), SocketAddrAny::V6(v6));
    let any: SocketAddrAny = v4.into();
    assert_eq!(any.address_family(), AddressFamily::Inet);
}

#[test]
fn send_header_without_address() {
    let seen = with_noaddr_msghdr(3, 40, |h: MsgHdr<'_>| {
        (h.msg_name.to_vec(), h.msg_iovlen, h.msg_controllen)
    });
    assert_eq!(seen, (vec![], 3, 40));
}

#[test]
fn send_header_with_address() {
    let addr = SocketAddrAny::V4(SocketAddrV4::new(Ipv4Addr::new(127, 0, 0, 1), 8080));
    let seen = with_msghdr(&addr, 2, 0, |h: MsgHdr<'_>| {
        (h.msg_name.to_vec(), h.msg_iovlen, h.msg_controllen)
    });
    assert_eq!(seen, (vec![2, 0, 0x1f, 0x90, 127, 0, 0, 1, 0, 0, 0, 0, 0, 0, 0, 0], 2, 0));
    let unix = SocketAddrUnix::new(b"/s").unwrap();
    let seen = with_msghdr(&unix, 1, 64, |h: MsgHdr<'_>| {
        (h.msg_name.to_vec(), h.msg_iovlen, h.msg_controllen)
    });
    assert_eq!(seen, (vec![1, 0, b'/', b's'], 1, 64));
}

#[test]
fn receive_header() {
    let from = SocketAddrAny::V4(SocketAddrV4::new(Ipv4Addr::new(10, 1, 2, 3), 4000));
    let mut name = SocketAddrStorage { bytes: [0xee; 128] };
    let mut control_len = 77;
    let res: Result<(usize, usize), ()> =
        with_recv_msghdr(&mut name, 4, 256, &mut control_len, |mut h: RecvMsgHdr| {
            assert_eq!(h.msg_name.bytes, [0xee; 128]);
            assert_eq!(h.msg_namelen, 128);
            assert_eq!(h.msg_iovlen, 4);
            assert_eq!(h.msg_controllen, 256);
            h.msg_namelen = from.write(&mut h.msg_name);
            h.msg_controllen = 24;
            (h, Ok((1500, h.msg_namelen)))
        });
    assert_eq!(res, Ok((1500, 16)));
    assert_eq!(control_len, 24);
    assert_eq!(SocketAddrAny::read(&name, 16), Ok(from));

    let mut control_len = 77;
    let res: Result<(), i32> =
        with_recv_msghdr(&mut name, 1, 256, &mut control_len, |mut h: RecvMsgHdr| {
            h.msg_controllen = 24;
            h.msg_name.bytes[0] = 0;
            (h, Err(11))
        });
    assert_eq!(res, Err(11));
    assert_eq!(control_len, 0);
    assert_eq!(name.bytes[0], 0);
}
