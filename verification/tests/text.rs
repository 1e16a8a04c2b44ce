use sockaddr::{
    Ipv4Addr, Ipv6Addr, SocketAddrAny, SocketAddrNetlink, SocketAddrUnix, SocketAddrV4,
    SocketAddrV6, SocketAddrXdp,
};

fn v6(groups: [u16; 8], port: u16, scope_id: u32) -> SocketAddrV6 {
    let [a, b, c, d, e, f, g, h] = groups;
    SocketAddrV6::new(Ipv6Addr::new(a, b, c, d, e, f, g, h), port, 0, scope_id)
}

#[test]
fn ipv4_text() {
    assert_eq!(SocketAddrV4::new(Ipv4Addr::new(127, 0, 0, 1), 8080).to_text(), "127.0.0.1:8080");
    assert_eq!(SocketAddrV4::new(Ipv4Addr::new(0, 0, 0, 0), 0).to_text(), "0.0.0.0:0");
    assert_eq!(
        SocketAddrV4::new(Ipv4Addr::new(255, 255, 255, 255), 65535).to_text(),
        "255.255.255.255:65535"
    );
    assert_eq!(SocketAddrV4::new(Ipv4Addr::new(10, 100, 9, 99), 10).to_text(), "10.100.9.99:10");
}

#[test]
fn ipv6_text() {
    assert_eq!(v6([0, 0, 0, 0, 0, 0, 0, 1], 8080, 0).to_text(), "[::1]:8080");
    assert_eq!(v6([0, 0, 0, 0, 0, 0, 0, 0], 0, 0).to_text(), "[::]:0");
    assert_eq!(v6([0x2001, 0xdb8, 0, 0, 0, 0, 0, 1], 443, 0).to_text(), "[2001:db8::1]:443");
    assert_eq!(v6([0xfe80, 0, 0, 0, 0, 0, 0, 1], 80, 3).to_text(), "[fe80::1%3]:80");
    assert_eq!(
        v6([0xffff, 0xabcd, 0x10, 0x1, 0xf00, 0x00f0, 0x1000, 0xa], 1, 0).to_text(),
        "[ffff:abcd:10:1:f00:f0:1000:a]:1"
    );
}

#[test]
fn ipv6_zero_runs() {
    assert_eq!(v6([1, 0, 0, 2, 0, 0, 3, 4], 1, 0).to_text(), "[1::2:0:0:3:4]:1");
    assert_eq!(v6([1, 0, 0, 2, 0, 0, 0, 3], 1, 0).to_text(), "[1:0:0:2::3]:1");
    assert_eq!(v6([1, 0, 2, 3, 4, 5, 6, 7], 1, 0).to_text(), "[1:0:2:3:4:5:6:7]:1");
    assert_eq!(v6([1, 2, 3, 4, 5, 6, 0, 0], 1, 0).to_text(), "[1:2:3:4:5:6::]:1");
    assert_eq!(v6([0, 0, 1, 2, 3, 4, 5, 6], 1, 0).to_text(), "[::1:2:3:4:5:6]:1");
    assert_eq!(v6([0, 1, 2, 3, 4, 5, 6, 0], 1, 0).to_text(), "[0:1:2:3:4:5:6:0]:1");
    assert_eq!(v6([0, 0, 0, 0, 0, 0, 1, 0], 1, 0).to_text(), "[::1:0]:1");
    assert_eq!(v6([1, 0, 0, 0, 0, 0, 0, 0], 1, 0).to_text(), "[1::]:1");
}

#[test]
fn ipv6_with_ipv4_inside() {
    assert_eq!(
        v6([0, 0, 0, 0, 0, 0xffff, 0xc000, 0x0201], 80, 0).to_text(),
        "[::ffff:192.0.2.1]:80"
    );
    assert_eq!(v6([0, 0, 0, 0, 0, 0xffff, 0, 0], 80, 9).to_text(), "[::ffff:0.0.0.0%9]:80");
    assert_eq!(v6([0, 0, 0, 0, 0, 0, 0xc000, 0x0201], 80, 0).to_text(), "[::c000:201]:80");
    assert_eq!(v6([0, 0, 0, 0, 1, 0xffff, 0xc000, 0x0201], 80, 0).to_text(), "[::1:ffff:c000:201]:80");
}

#[test]
fn unix_text() {
    assert_eq!(SocketAddrUnix::new(b"/tmp/sock").unwrap().to_text(), "\"/tmp/sock\"");
    assert_eq!(SocketAddrUnix::new_unnamed().to_text(), "(unnamed)");
    assert_eq!(SocketAddrUnix::new_abstract_name(b"tmp").unwrap().to_text(), "\"\\x00tmp\"");
    assert_eq!(
        SocketAddrUnix::new(b"a\tb\"c\\d'e\n\r\x7f\xff \x1f~").unwrap().to_text(),
        "\"a\\tb\\\"c\\\\d\\'e\\n\\r\\x7f\\xff \\x1f~\""
    );
}

#[test]
fn linux_family_text() {
    assert_eq!(
        SocketAddrNetlink::new(1234, 4294967295).to_text(),
        "SocketAddrNetlink { pid: 1234, groups: 4294967295 }"
    );
    assert_eq!(
        SocketAddrXdp::new(65535, 2, 0, 40).to_text(),
        "SocketAddrXdp { flags: 65535, interface_index: 2, queue_id: 0, shared_umem_fd: 40 }"
    );
}

#[test]
fn any_text_is_the_text_of_the_variant() {
    let v4 = SocketAddrV4::new(Ipv4Addr::new(127, 0, 0, 1), 8080);
    let six = v6([0, 0, 0, 0, 0, 0, 0, 1], 8080, 0);
    let unix = SocketAddrUnix::new(b"/tmp/sock").unwrap();
    let nl = SocketAddrNetlink::new(1, 2);
    let xdp = SocketAddrXdp::new(1, 2, 3, 4);
    assert_eq!(SocketAddrAny::V4(v4).to_text(), "127.0.0.1:8080");
    assert_eq!(SocketAddrAny::V6(six).to_text(), "[::1]:8080");
    assert_eq!(SocketAddrAny::Unix(unix).to_text(), "\"/tmp/sock\"");
    assert_eq!(SocketAddrAny::Netlink(nl).to_text(), nl.to_text());
    assert_eq!(SocketAddrAny::Xdp(xdp).to_text(), xdp.to_text());
}
