//! Byte-order helpers shared by the codecs.

use vstd::prelude::*;

verus! {

/// The two bytes of `x`, most significant first.
pub open spec fn be16(x: u16) -> Seq<u8> {
    seq![(x / 256) as u8, (x % 256) as u8]
}

/// The two bytes of `x`, least significant first.
pub open spec fn le16(x: u16) -> Seq<u8> {
    seq![(x % 256) as u8, (x / 256) as u8]
}

/// The four bytes of `x`, most significant first.
pub open spec fn be32(x: u32) -> Seq<u8> {
    seq![
        (x / 0x100_0000) as u8,
        (x / 0x1_0000 % 256) as u8,
        (x / 0x100 % 256) as u8,
        (x % 256) as u8,
    ]
}

/// The number whose big-endian bytes are `hi`, `lo`.
pub open spec fn from_be16(hi: u8, lo: u8) -> u16 {
    (hi * 256 + lo) as u16
}

/// Sum of all bytes of a sequence.
pub open spec fn byte_sum(bytes: Seq<u8>) -> nat
    decreases bytes.len(),
{
    if bytes.len() == 0 {
        0
    } else {
        byte_sum(bytes.drop_last()) + bytes.last() as nat
    }
}

/// Split a 16-bit value into big-endian bytes.
pub fn u16_to_be(x: u16) -> (r: [u8; 2])
    ensures
        r@ == be16(x),
{
    assert(x >> 8 == x / 256 && x & 0xFF == x % 256 && x >> 8 < 256) by (bit_vector);
    let r = [(x >> 8) as u8, (x & 0xFF) as u8];
    assert(r@ =~= be16(x));
    r
}

/// Split a 16-bit value into little-endian bytes.
pub fn u16_to_le(x: u16) -> (r: [u8; 2])
    ensures
        r@ == le16(x),
{
    assert(x >> 8 == x / 256 && x & 0xFF == x % 256 && x >> 8 < 256) by (bit_vector);
    let r = [(x & 0xFF) as u8, (x >> 8) as u8];
    assert(r@ =~= le16(x));
    r
}

/// Split a 32-bit value into big-endian bytes.
pub fn u32_to_be(x: u32) -> (r: [u8; 4])
    ensures
        r@ == be32(x),
{
    assert(x >> 24 == x / 0x100_0000 && x >> 24 < 256) by (bit_vector);
    assert((x >> 16) & 0xFF == x / 0x1_0000 % 256) by (bit_vector);
    assert((x >> 8) & 0xFF == x / 0x100 % 256) by (bit_vector);
    assert(x & 0xFF == x % 256) by (bit_vector);
    let r = [(x >> 24) as u8, ((x >> 16) & 0xFF) as u8, ((x >> 8) & 0xFF) as u8, (x & 0xFF) as u8];
    assert(r@ =~= be32(x));
    r
}

/// Join two big-endian bytes into a 16-bit value.
pub fn u16_from_be(bytes: [u8; 2]) -> (r: u16)
    ensures
        r == from_be16(bytes[0], bytes[1]),
        be16(r) == bytes@,
{
    let hi: u16 = bytes[0] as u16;
    let lo: u16 = bytes[1] as u16;
    let r: u16 = hi * 256 + lo;
    assert(be16(r) =~= bytes@);
    r
}

} // verus!
