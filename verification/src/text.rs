//! Addresses in their usual written form.
//!
//! An IPv4 socket address is written `a.b.c.d:port`, an IPv6 socket address
//! `[groups]:port` with the longest run of zero groups left out, and a
//! Unix-domain address as its path between quotes, with the bytes that are
//! not printable escaped.

use vstd::prelude::*;
use crate::ip::{Ipv4Addr, Ipv6Addr, SocketAddrV4, SocketAddrV6};
use crate::linux::{SocketAddrNetlink, SocketAddrXdp};
use crate::unix::SocketAddrUnix;

verus! {

/// The character for the digit `d` of a number written to a base of up to
/// sixteen.
pub open spec fn digit(d: nat) -> char {
    if d == 0 {
        '0'
    } else if d == 1 {
        '1'
    } else if d == 2 {
        '2'
    } else if d == 3 {
        '3'
    } else if d == 4 {
        '4'
    } else if d == 5 {
        '5'
    } else if d == 6 {
        '6'
    } else if d == 7 {
        '7'
    } else if d == 8 {
        '8'
    } else if d == 9 {
        '9'
    } else if d == 10 {
        'a'
    } else if d == 11 {
        'b'
    } else if d == 12 {
        'c'
    } else if d == 13 {
        'd'
    } else if d == 14 {
        'e'
    } else {
        'f'
    }
}

/// `n` written in decimal, without leading zeros.
pub open spec fn decimal(n: nat) -> Seq<char>
    decreases n,
{
    if n < 10 {
        seq![digit(n)]
    } else {
        decimal(n / 10) + seq![digit(n % 10)]
    }
}

/// `n` written in hexadecimal, in lower case and without leading zeros.
pub open spec fn hex(n: nat) -> Seq<char>
    decreases n,
{
    if n < 16 {
        seq![digit(n)]
    } else {
        hex(n / 16) + seq![digit(n % 16)]
    }
}

/// Computes [`digit`].
pub fn digit_char(d: u32) -> (c: char)
    requires
        d < 16,
    ensures
        c == digit(d as nat),
{
    if d == 0 {
        '0'
    } else if d == 1 {
        '1'
    } else if d == 2 {
        '2'
    } else if d == 3 {
        '3'
    } else if d == 4 {
        '4'
    } else if d == 5 {
        '5'
    } else if d == 6 {
        '6'
    } else if d == 7 {
        '7'
    } else if d == 8 {
        '8'
    } else if d == 9 {
        '9'
    } else if d == 10 {
        'a'
    } else if d == 11 {
        'b'
    } else if d == 12 {
        'c'
    } else if d == 13 {
        'd'
    } else if d == 14 {
        'e'
    } else {
        'f'
    }
}

/// Appends the characters of `s` to `out`.
pub fn push_str(out: &mut Vec<char>, s: &str)
    ensures
        final(out)@ == old(out)@ + s@,
{
    let n = s.unicode_len();
    let mut i: usize = 0;
    while i < n
        invariant
            i <= n,
            n == s@.len(),
            out@ == old(out)@ + s@.take(i as int),
        decreases n - i,
    {
        out.push(s.get_char(i));
        i += 1;
        assert(out@ =~= old(out)@ + s@.take(i as int));
    }
    assert(s@.take(n as int) =~= s@);
}

/// Appends `n` in decimal to `out`.
pub fn push_decimal(out: &mut Vec<char>, n: u32)
    ensures
        final(out)@ == old(out)@ + decimal(n as nat),
    decreases n,
{
    if n >= 10 {
        push_decimal(out, n / 10);
    }
    out.push(digit_char(n % 10));
    assert(out@ =~= old(out)@ + decimal(n as nat));
}

/// Appends `n` in hexadecimal to `out`.
pub fn push_hex(out: &mut Vec<char>, n: u32)
    ensures
        final(out)@ == old(out)@ + hex(n as nat),
    decreases n,
{
    if n >= 16 {
        push_hex(out, n / 16);
    }
    out.push(digit_char(n % 16));
    assert(out@ =~= old(out)@ + hex(n as nat));
}

/// One byte of a path as text: a printable character stands for itself, but
/// for the quote marks and the backslash, which get a backslash before them;
/// tab, line feed and carriage return are `\t`, `\n` and `\r`; every other
/// byte is `\x` and its two hexadecimal digits.
pub open spec fn escaped_byte(b: u8) -> Seq<char> {
    if b == 9 {
        seq!['\\', 't']
    } else if b == 10 {
        seq!['\\', 'n']
    } else if b == 13 {
        seq!['\\', 'r']
    } else if b == 34 {
        seq!['\\', '"']
    } else if b == 39 {
        seq!['\\', '\'']
    } else if b == 92 {
        seq!['\\', '\\']
    } else if 0x20 <= b <= 0x7e {
        seq![b as char]
    } else {
        seq!['\\', 'x', digit((b / 16) as nat), digit((b % 16) as nat)]
    }
}

/// The bytes of a path as text, each as [`escaped_byte`] has it.
pub open spec fn escaped(bytes: Seq<u8>) -> Seq<char>
    decreases bytes.len(),
{
    if bytes.len() == 0 {
        Seq::empty()
    } else {
        escaped(bytes.drop_last()) + escaped_byte(bytes.last())
    }
}

/// Appends [`escaped_byte`] of `b` to `out`.
pub fn push_escaped_byte(out: &mut Vec<char>, b: u8)
    ensures
        final(out)@ == old(out)@ + escaped_byte(b),
{
    if b == 9 {
        out.push('\\');
        out.push('t');
    } else if b == 10 {
        out.push('\\');
        out.push('n');
    } else if b == 13 {
        out.push('\\');
        out.push('r');
    } else if b == 34 {
        out.push('\\');
        out.push('"');
    } else if b == 39 {
        out.push('\\');
        out.push('\'');
    } else if b == 92 {
        out.push('\\');
        out.push('\\');
    } else if 0x20 <= b && b <= 0x7e {
        out.push(b as char);
    } else {
        out.push('\\');
        out.push('x');
        out.push(digit_char((b / 16) as u32));
        out.push(digit_char((b % 16) as u32));
    }
    assert(out@ =~= old(out)@ + escaped_byte(b));
}

/// Appends [`escaped`] of `bytes` to `out`.
pub fn push_escaped(out: &mut Vec<char>, bytes: &[u8])
    ensures
        final(out)@ == old(out)@ + escaped(bytes@),
{
    let n = bytes.len();
    let mut i: usize = 0;
    assert(escaped(bytes@.take(0)) =~= Seq::<char>::empty());
    assert(out@ =~= old(out)@ + escaped(bytes@.take(0)));
    while i < n
        invariant
            i <= n,
            n == bytes@.len(),
            out@ == old(out)@ + escaped(bytes@.take(i as int)),
        decreases n - i,
    {
        push_escaped_byte(out, bytes[i]);
        proof {
            let next = bytes@.take(i + 1);
            assert(next.drop_last() =~= bytes@.take(i as int));
            assert(next.last() == bytes@[i as int]);
            assert(out@ =~= old(out)@ + escaped(next));
        }
        i += 1;
    }
    assert(bytes@.take(n as int) =~= bytes@);
}

/// An IPv4 address as text: its four octets in decimal with dots between
/// them.
pub open spec fn ipv4_text(ip: Ipv4Addr) -> Seq<char> {
    decimal(ip.a as nat) + seq!['.'] + decimal(ip.b as nat) + seq!['.'] + decimal(ip.c as nat)
        + seq!['.'] + decimal(ip.d as nat)
}

/// An IPv4 socket address as text: the address, a colon and the port.
pub open spec fn socket_addr_v4_text(addr: SocketAddrV4) -> Seq<char> {
    ipv4_text(addr.ip) + seq![':'] + decimal(addr.port as nat)
}

/// Groups in hexadecimal with colons between them.
pub open spec fn hex_groups(groups: Seq<u16>) -> Seq<char>
    decreases groups.len(),
{
    if groups.len() == 0 {
        Seq::empty()
    } else if groups.len() == 1 {
        hex(groups[0] as nat)
    } else {
        hex_groups(groups.drop_last()) + seq![':'] + hex(groups.last() as nat)
    }
}

/// The number of zero groups in a row that start at `start`.
pub open spec fn zero_run_from(groups: Seq<u16>, start: int) -> nat
    decreases groups.len() - start,
{
    if 0 <= start < groups.len() && groups[start] == 0 {
        1 + zero_run_from(groups, start + 1)
    } else {
        0
    }
}

/// Whether the run of `len` zero groups that starts at `start` is the
/// longest one in `groups`, and of several longest ones the first.
pub open spec fn is_longest_zero_run(groups: Seq<u16>, start: int, len: nat) -> bool {
    &&& 0 <= start <= groups.len()
    &&& zero_run_from(groups, start) == len
    &&& forall|s: int| 0 <= s < groups.len() ==> #[trigger] zero_run_from(groups, s) <= len
    &&& forall|s: int| 0 <= s < start ==> #[trigger] zero_run_from(groups, s) < len
}

/// Where the longest run of zero groups starts, and how long it is.
pub open spec fn longest_zero_run(groups: Seq<u16>) -> (int, nat) {
    choose|run: (int, nat)| is_longest_zero_run(groups, run.0, run.1)
}

/// There is one longest run of zero groups and no other.
pub proof fn lemma_longest_zero_run_unique(groups: Seq<u16>, start: int, len: nat)
    requires
        is_longest_zero_run(groups, start, len),
    ensures
        longest_zero_run(groups) == (start, len),
{
    let found = longest_zero_run(groups);
    assert(is_longest_zero_run(groups, (start, len).0, (start, len).1));
    assert(is_longest_zero_run(groups, found.0, found.1));
    assert(zero_run_from(groups, groups.len() as int) == 0);
    assert(found.1 <= len);
    assert(len <= found.1);
    if found.0 < start {
        assert(zero_run_from(groups, found.0) < len);
    }
    if start < found.0 {
        assert(zero_run_from(groups, start) < found.1);
    }
}

/// Whether an IPv6 address holds an IPv4 address: its first five groups are
/// zero and the sixth is `ffff`.
pub open spec fn is_ipv4_mapped(ip: Ipv6Addr) -> bool {
    ip.a == 0 && ip.b == 0 && ip.c == 0 && ip.d == 0 && ip.e == 0 && ip.f == 0xffff
}

/// The IPv4 address that the last two groups of an IPv6 address hold.
pub open spec fn mapped_ipv4(ip: Ipv6Addr) -> Ipv4Addr {
    Ipv4Addr {
        a: (ip.g / 0x100) as u8,
        b: (ip.g % 0x100) as u8,
        c: (ip.h / 0x100) as u8,
        d: (ip.h % 0x100) as u8,
    }
}

/// An IPv6 address as text. An address that holds an IPv4 address is
/// `::ffff:` and that address. Any other is its groups in hexadecimal with
/// colons between them; where two or more zero groups stand in a row, the
/// longest such run, and of several the first, is left out and `::` stands
/// in its place.
pub open spec fn ipv6_text(ip: Ipv6Addr) -> Seq<char> {
    if is_ipv4_mapped(ip) {
        "::ffff:"@ + ipv4_text(mapped_ipv4(ip))
    } else {
        let groups = ip.groups();
        let (start, len) = longest_zero_run(groups);
        if len > 1 {
            hex_groups(groups.take(start)) + "::"@ + hex_groups(groups.skip(start + len))
        } else {
            hex_groups(groups)
        }
    }
}

/// An IPv6 socket address as text: between square brackets the address
/// and, where the scope is not zero, a percent sign and the scope; then a
/// colon and the port.
pub open spec fn socket_addr_v6_text(addr: SocketAddrV6) -> Seq<char> {
    if addr.scope_id == 0 {
        seq!['['] + ipv6_text(addr.ip) + "]:"@ + decimal(addr.port as nat)
    } else {
        seq!['['] + ipv6_text(addr.ip) + seq!['%'] + decimal(addr.scope_id as nat) + "]:"@
            + decimal(addr.port as nat)
    }
}

/// Appends [`ipv4_text`] of `ip` to `out`.
pub fn push_ipv4(out: &mut Vec<char>, ip: &Ipv4Addr)
    ensures
        final(out)@ == old(out)@ + ipv4_text(*ip),
{
    push_decimal(out, ip.a as u32);
    out.push('.');
    push_decimal(out, ip.b as u32);
    out.push('.');
    push_decimal(out, ip.c as u32);
    out.push('.');
    push_decimal(out, ip.d as u32);
    assert(out@ =~= old(out)@ + ipv4_text(*ip));
}

/// Appends [`hex_groups`] of the groups from `from` up to `to` to `out`.
pub fn push_hex_groups(out: &mut Vec<char>, groups: &[u16; 8], from: usize, to: usize)
    requires
        from <= to <= 8,
    ensures
        final(out)@ == old(out)@ + hex_groups(groups@.subrange(from as int, to as int)),
{
    let mut i: usize = from;
    assert(hex_groups(groups@.subrange(from as int, from as int)) =~= Seq::<char>::empty());
    assert(out@ =~= old(out)@ + hex_groups(groups@.subrange(from as int, i as int)));
    while i < to
        invariant
            from <= i <= to <= 8,
            out@ == old(out)@ + hex_groups(groups@.subrange(from as int, i as int)),
        decreases to - i,
    {
        if i > from {
            out.push(':');
        }
        push_hex(out, groups[i] as u32);
        proof {
            let done = groups@.subrange(from as int, i as int);
            let next = groups@.subrange(from as int, i + 1);
            assert(next.drop_last() =~= done);
            assert(next.last() == groups@[i as int]);
            if i == from {
                assert(done.len() == 0);
                assert(hex_groups(done) =~= Seq::<char>::empty());
                assert(out@ =~= old(out)@ + hex_groups(next));
            } else {
                assert(out@ =~= old(out)@ + hex_groups(next));
            }
        }
        i += 1;
    }
}

/// Counts the zero groups in a row that start at `start`.
pub fn count_zero_run(groups: &[u16; 8], start: usize) -> (len: usize)
    requires
        start <= 8,
    ensures
        len == zero_run_from(groups@, start as int),
        start + len <= 8,
{
    let mut end: usize = start;
    while end < 8 && groups[end] == 0
        invariant
            start <= end <= 8,
            zero_run_from(groups@, start as int) == (end - start) + zero_run_from(
                groups@,
                end as int,
            ),
        decreases 8 - end,
    {
        end += 1;
    }
    end - start
}

/// Finds the longest run of zero groups.
pub fn find_longest_zero_run(groups: &[u16; 8]) -> (run: (usize, usize))
    ensures
        longest_zero_run(groups@) == (run.0 as int, run.1 as nat),
        run.0 + run.1 <= 8,
{
    let mut best_start: usize = 0;
    let mut best_len: usize = count_zero_run(groups, 0);
    let mut start: usize = 1;
    while start < 8
        invariant
            1 <= start <= 8,
            best_start < start,
            best_start + best_len <= 8,
            zero_run_from(groups@, best_start as int) == best_len,
            forall|s: int| 0 <= s < start ==> #[trigger] zero_run_from(groups@, s) <= best_len,
            forall|s: int| 0 <= s < best_start ==> #[trigger] zero_run_from(groups@, s) < best_len,
        decreases 8 - start,
    {
        let len = count_zero_run(groups, start);
        if len > best_len {
            best_start = start;
            best_len = len;
        }
        start += 1;
    }
    proof {
        lemma_longest_zero_run_unique(groups@, best_start as int, best_len as nat);
    }
    (best_start, best_len)
}

/// Appends [`ipv6_text`] of `ip` to `out`.
pub fn push_ipv6(out: &mut Vec<char>, ip: &Ipv6Addr)
    ensures
        final(out)@ == old(out)@ + ipv6_text(*ip),
{
    if ip.a == 0 && ip.b == 0 && ip.c == 0 && ip.d == 0 && ip.e == 0 && ip.f == 0xffff {
        push_str(out, "::ffff:");
        let v4 = Ipv4Addr::new(
            (ip.g / 0x100) as u8,
            (ip.g % 0x100) as u8,
            (ip.h / 0x100) as u8,
            (ip.h % 0x100) as u8,
        );
        push_ipv4(out, &v4);
        assert(out@ =~= old(out)@ + ipv6_text(*ip));
    } else {
        let groups = ip.segments();
        let (start, len) = find_longest_zero_run(&groups);
        if len > 1 {
            push_hex_groups(out, &groups, 0, start);
            push_str(out, "::");
            push_hex_groups(out, &groups, start + len, 8);
            proof {
                assert(groups@.subrange(0, start as int) =~= groups@.take(start as int));
                assert(groups@.subrange(start + len, 8) =~= groups@.skip(start + len));
                assert(out@ =~= old(out)@ + ipv6_text(*ip));
            }
        } else {
            push_hex_groups(out, &groups, 0, 8);
            proof {
                assert(groups@.subrange(0, 8) =~= groups@);
                assert(out@ =~= old(out)@ + ipv6_text(*ip));
            }
        }
    }
}

/// A Unix-domain address as text: `(unnamed)` for the address without a
/// name, and else the path or name between double quotes, as
/// [`escaped`] has it. The zero byte at the start of a name in the abstract
/// namespace is escaped like any other.
pub open spec fn unix_text(path: Seq<u8>) -> Seq<char> {
    if path.len() == 0 {
        "(unnamed)"@
    } else {
        seq!['"'] + escaped(path) + seq!['"']
    }
}

/// A netlink socket address as text: the name of the type and its two
/// fields in decimal.
pub open spec fn netlink_text(addr: SocketAddrNetlink) -> Seq<char> {
    "SocketAddrNetlink { pid: "@ + decimal(addr.pid as nat) + ", groups: "@ + decimal(
        addr.groups as nat,
    ) + " }"@
}

/// An XDP socket address as text: the name of the type and its four fields
/// in decimal.
pub open spec fn xdp_text(addr: SocketAddrXdp) -> Seq<char> {
    "SocketAddrXdp { flags: "@ + decimal(addr.flags as nat) + ", interface_index: "@ + decimal(
        addr.interface_index as nat,
    ) + ", queue_id: "@ + decimal(addr.queue_id as nat) + ", shared_umem_fd: "@ + decimal(
        addr.shared_umem_fd as nat,
    ) + " }"@
}

/// Appends [`socket_addr_v4_text`] of `addr` to `out`.
pub fn push_socket_addr_v4(out: &mut Vec<char>, addr: &SocketAddrV4)
    ensures
        final(out)@ == old(out)@ + socket_addr_v4_text(*addr),
{
    push_ipv4(out, &addr.ip);
    out.push(':');
    push_decimal(out, addr.port as u32);
    assert(out@ =~= old(out)@ + socket_addr_v4_text(*addr));
}

/// Appends [`socket_addr_v6_text`] of `addr` to `out`.
pub fn push_socket_addr_v6(out: &mut Vec<char>, addr: &SocketAddrV6)
    ensures
        final(out)@ == old(out)@ + socket_addr_v6_text(*addr),
{
    out.push('[');
    push_ipv6(out, &addr.ip);
    if addr.scope_id != 0 {
        out.push('%');
        push_decimal(out, addr.scope_id);
    }
    push_str(out, "]:");
    push_decimal(out, addr.port as u32);
    assert(out@ =~= old(out)@ + socket_addr_v6_text(*addr));
}

/// Appends [`unix_text`] of the path of `addr` to `out`.
pub fn push_socket_addr_unix(out: &mut Vec<char>, addr: &SocketAddrUnix)
    ensures
        final(out)@ == old(out)@ + unix_text(addr@),
{
    if addr.is_unnamed() {
        push_str(out, "(unnamed)");
    } else {
        out.push('"');
        push_escaped(out, addr.path_bytes());
        out.push('"');
        assert(out@ =~= old(out)@ + unix_text(addr@));
    }
}

/// Appends [`netlink_text`] of `addr` to `out`.
pub fn push_socket_addr_netlink(out: &mut Vec<char>, addr: &SocketAddrNetlink)
    ensures
        final(out)@ == old(out)@ + netlink_text(*addr),
{
    push_str(out, "SocketAddrNetlink { pid: ");
    push_decimal(out, addr.pid);
    push_str(out, ", groups: ");
    push_decimal(out, addr.groups);
    push_str(out, " }");
    assert(out@ =~= old(out)@ + netlink_text(*addr));
}

/// Appends [`xdp_text`] of `addr` to `out`.
pub fn push_socket_addr_xdp(out: &mut Vec<char>, addr: &SocketAddrXdp)
    ensures
        final(out)@ == old(out)@ + xdp_text(*addr),
{
    push_str(out, "SocketAddrXdp { flags: ");
    push_decimal(out, addr.flags as u32);
    push_str(out, ", interface_index: ");
    push_decimal(out, addr.interface_index);
    push_str(out, ", queue_id: ");
    push_decimal(out, addr.queue_id);
    push_str(out, ", shared_umem_fd: ");
    push_decimal(out, addr.shared_umem_fd);
    push_str(out, " }");
    assert(out@ =~= old(out)@ + xdp_text(*addr));
}

/// The string that is made of the characters of `chars`, in their order:
/// what `String::from_iter` makes of them. Verus takes this on trust.
#[verifier::external_body]
pub(crate) fn string_from_chars(chars: &Vec<char>) -> (s: String)
    ensures
        s@ == chars@,
{
    String::from_iter(chars.iter())
}

impl SocketAddrV4 {
    /// The address as text: see [`socket_addr_v4_text`].
    pub fn to_text(&self) -> (s: String)
        ensures
            s@ == socket_addr_v4_text(*self),
    {
        let mut out: Vec<char> = Vec::new();
        push_socket_addr_v4(&mut out, self);
        assert(out@ =~= socket_addr_v4_text(*self));
        string_from_chars(&out)
    }
}

impl SocketAddrV6 {
    /// The address as text: see [`socket_addr_v6_text`].
    pub fn to_text(&self) -> (s: String)
        ensures
            s@ == socket_addr_v6_text(*self),
    {
        let mut out: Vec<char> = Vec::new();
        push_socket_addr_v6(&mut out, self);
        assert(out@ =~= socket_addr_v6_text(*self));
        string_from_chars(&out)
    }
}

impl SocketAddrUnix {
    /// The address as text: see [`unix_text`].
    pub fn to_text(&self) -> (s: String)
        ensures
            s@ == unix_text(self@),
    {
        let mut out: Vec<char> = Vec::new();
        push_socket_addr_unix(&mut out, self);
        assert(out@ =~= unix_text(self@));
        string_from_chars(&out)
    }
}

impl SocketAddrNetlink {
    /// The address as text: see [`netlink_text`].
    pub fn to_text(&self) -> (s: String)
        ensures
            s@ == netlink_text(*self),
    {
        let mut out: Vec<char> = Vec::new();
        push_socket_addr_netlink(&mut out, self);
        assert(out@ =~= netlink_text(*self));
        string_from_chars(&out)
    }
}

impl SocketAddrXdp {
    /// The address as text: see [`xdp_text`].
    pub fn to_text(&self) -> (s: String)
        ensures
            s@ == xdp_text(*self),
    {
        let mut out: Vec<char> = Vec::new();
        push_socket_addr_xdp(&mut out, self);
        assert(out@ =~= xdp_text(*self));
        string_from_chars(&out)
    }
}

} // verus!
