//! Integers as sequences of bytes, most significant byte first (network
//! order) or least significant byte first (the order of the host).

use vstd::prelude::*;

verus! {

/// The two bytes of `v` in network order.
pub open spec fn be16(v: u16) -> Seq<u8> {
    seq![(v / 0x100) as u8, (v % 0x100) as u8]
}

/// The number whose network-order bytes are `hi`, `lo`.
pub open spec fn from_be16(hi: u8, lo: u8) -> u16 {
    (hi * 0x100 + lo) as u16
}

/// The two bytes of `v` in host order.
pub open spec fn le16(v: u16) -> Seq<u8> {
    seq![(v % 0x100) as u8, (v / 0x100) as u8]
}

/// The number whose host-order bytes are `lo`, `hi`.
pub open spec fn from_le16(lo: u8, hi: u8) -> u16 {
    (hi * 0x100 + lo) as u16
}

/// The four bytes of `v` in network order.
pub open spec fn be32(v: u32) -> Seq<u8> {
    seq![
        (v / 0x100_0000) as u8,
        (v / 0x1_0000 % 0x100) as u8,
        (v / 0x100 % 0x100) as u8,
        (v % 0x100) as u8,
    ]
}

/// The number whose network-order bytes are `b0`, `b1`, `b2`, `b3`.
pub open spec fn from_be32(b0: u8, b1: u8, b2: u8, b3: u8) -> u32 {
    (b0 * 0x100_0000 + b1 * 0x1_0000 + b2 * 0x100 + b3) as u32
}

/// The four bytes of `v` in host order.
pub open spec fn le32(v: u32) -> Seq<u8> {
    seq![
        (v % 0x100) as u8,
        (v / 0x100 % 0x100) as u8,
        (v / 0x1_0000 % 0x100) as u8,
        (v / 0x100_0000) as u8,
    ]
}

/// The number whose host-order bytes are `b0`, `b1`, `b2`, `b3`.
pub open spec fn from_le32(b0: u8, b1: u8, b2: u8, b3: u8) -> u32 {
    (b3 * 0x100_0000 + b2 * 0x1_0000 + b1 * 0x100 + b0) as u32
}

/// Reading back the bytes of a 16-bit number gives the number, in either
/// byte order.
pub proof fn lemma_u16_round_trip(v: u16)
    ensures
        from_be16(be16(v)[0], be16(v)[1]) == v,
        from_le16(le16(v)[0], le16(v)[1]) == v,
{
}

/// Reading back the bytes of a 32-bit number gives the number, in either
/// byte order.
pub proof fn lemma_u32_round_trip(v: u32)
    ensures
        from_be32(be32(v)[0], be32(v)[1], be32(v)[2], be32(v)[3]) == v,
        from_le32(le32(v)[0], le32(v)[1], le32(v)[2], le32(v)[3]) == v,
{
}

/// Computes [`be16`].
pub fn u16_to_be(v: u16) -> (r: [u8; 2])
    ensures
        r@ == be16(v),
{
    let r: [u8; 2] = [(v / 0x100) as u8, (v % 0x100) as u8];
    assert(r@ =~= be16(v));
    r
}

/// Computes [`from_be16`].
pub fn u16_from_be(hi: u8, lo: u8) -> (v: u16)
    ensures
        v == from_be16(hi, lo),
{
    (hi as u16) * 0x100 + (lo as u16)
}

/// Computes [`le16`].
pub fn u16_to_le(v: u16) -> (r: [u8; 2])
    ensures
        r@ == le16(v),
{
    let r: [u8; 2] = [(v % 0x100) as u8, (v / 0x100) as u8];
    assert(r@ =~= le16(v));
    r
}

/// Computes [`from_le16`].
pub fn u16_from_le(lo: u8, hi: u8) -> (v: u16)
    ensures
        v == from_le16(lo, hi),
{
    (hi as u16) * 0x100 + (lo as u16)
}

/// Computes [`be32`].
pub fn u32_to_be(v: u32) -> (r: [u8; 4])
    ensures
        r@ == be32(v),
{
    let r: [u8; 4] = [
        (v / 0x100_0000) as u8,
        (v / 0x1_0000 % 0x100) as u8,
        (v / 0x100 % 0x100) as u8,
        (v % 0x100) as u8,
    ];
    assert(r@ =~= be32(v));
    r
}

/// Computes [`from_be32`].
pub fn u32_from_be(b0: u8, b1: u8, b2: u8, b3: u8) -> (v: u32)
    ensures
        v == from_be32(b0, b1, b2, b3),
{
    (b0 as u32) * 0x100_0000 + (b1 as u32) * 0x1_0000 + (b2 as u32) * 0x100 + (b3 as u32)
}

/// Computes [`le32`].
pub fn u32_to_le(v: u32) -> (r: [u8; 4])
    ensures
        r@ == le32(v),
{
    let r: [u8; 4] = [
        (v % 0x100) as u8,
        (v / 0x100 % 0x100) as u8,
        (v / 0x1_0000 % 0x100) as u8,
        (v / 0x100_0000) as u8,
    ];
    assert(r@ =~= le32(v));
    r
}

/// Computes [`from_le32`].
pub fn u32_from_le(b0: u8, b1: u8, b2: u8, b3: u8) -> (v: u32)
    ensures
        v == from_le32(b0, b1, b2, b3),
{
    (b3 as u32) * 0x100_0000 + (b2 as u32) * 0x1_0000 + (b1 as u32) * 0x100 + (b0 as u32)
}

} // verus!
