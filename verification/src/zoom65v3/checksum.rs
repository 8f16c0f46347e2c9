//! Checksum of media upload reports: a 32-bit CRC with polynomial
//! 0x04C11DB7 and initial value 0xFFFFFFFF, without reflection or final XOR.

use crate::bytes::{be32, u32_to_be};
use vstd::prelude::*;

verus! {

/// Generator polynomial, without its leading x^32 term.
pub const CHECKSUM_POLY: u32 = 0x04C1_1DB7;

/// Initial value of the shift register.
pub const CHECKSUM_INIT: u32 = 0xFFFF_FFFF;

/// One clock of the shift register: the top bit leaves, and where it was set
/// the polynomial is folded in.
pub open spec fn checksum_shift(reg: u32) -> u32 {
    if reg & 0x8000_0000 != 0 {
        (reg << 1) ^ CHECKSUM_POLY
    } else {
        reg << 1
    }
}

/// `n` clocks of the shift register.
pub open spec fn checksum_shifts(reg: u32, n: nat) -> u32
    decreases n,
{
    if n == 0 {
        reg
    } else {
        checksum_shift(checksum_shifts(reg, (n - 1) as nat))
    }
}

/// The register after one more byte: the byte enters at the top, followed by
/// eight clocks.
pub open spec fn checksum_feed(reg: u32, byte: u8) -> u32 {
    checksum_shifts(reg ^ ((byte as u32) << 24), 8)
}

/// The register after a whole message.
pub open spec fn checksum_of(data: Seq<u8>) -> u32
    decreases data.len(),
{
    if data.len() == 0 {
        CHECKSUM_INIT
    } else {
        checksum_feed(checksum_of(data.drop_last()), data.last())
    }
}

/// Eight clocks of the shift register, written out.
pub open spec fn checksum_shift8(reg: u32) -> u32 {
    checksum_shift(
        checksum_shift(
            checksum_shift(
                checksum_shift(
                    checksum_shift(checksum_shift(checksum_shift(checksum_shift(reg)))),
                ),
            ),
        ),
    )
}

/// The register after four more bytes, written out.
pub open spec fn checksum_feed4(reg: u32, b0: u8, b1: u8, b2: u8, b3: u8) -> u32 {
    let r0 = checksum_shift8(reg ^ ((b0 as u32) << 24));
    let r1 = checksum_shift8(r0 ^ ((b1 as u32) << 24));
    let r2 = checksum_shift8(r1 ^ ((b2 as u32) << 24));
    checksum_shift8(r2 ^ ((b3 as u32) << 24))
}

/// Feeding a byte is eight clocks after the byte has entered.
pub proof fn lemma_feed_is_eight_shifts(reg: u32, byte: u8)
    ensures
        checksum_feed(reg, byte) == checksum_shift8(reg ^ ((byte as u32) << 24)),
{
    reveal_with_fuel(checksum_shifts, 9);
}

/// The message without its last byte, and that byte.
proof fn lemma_checksum_push(data: Seq<u8>, byte: u8)
    ensures
        checksum_of(data.push(byte)) == checksum_feed(checksum_of(data), byte),
{
    assert(data.push(byte).drop_last() =~= data);
}

/// Feeding four bytes one after the other is `checksum_feed4`.
pub proof fn lemma_feed_four(data: Seq<u8>, b0: u8, b1: u8, b2: u8, b3: u8)
    ensures
        checksum_of(data.push(b0).push(b1).push(b2).push(b3)) == checksum_feed4(
            checksum_of(data),
            b0,
            b1,
            b2,
            b3,
        ),
{
    let d1 = data.push(b0);
    let d2 = d1.push(b1);
    let d3 = d2.push(b2);
    lemma_checksum_push(data, b0);
    lemma_feed_is_eight_shifts(checksum_of(data), b0);
    lemma_checksum_push(d1, b1);
    lemma_feed_is_eight_shifts(checksum_of(d1), b1);
    lemma_checksum_push(d2, b2);
    lemma_feed_is_eight_shifts(checksum_of(d2), b2);
    lemma_checksum_push(d3, b3);
    lemma_feed_is_eight_shifts(checksum_of(d3), b3);
}

/// A known vector: the checksum of the first chunk of a gif, with its index
/// in front and two zero bytes behind, is 94, 148, 189, 206.
pub proof fn lemma_known_vector()
    ensures
        be32(
            checksum_of(
                seq![
                    0u8, 0u8, 71u8, 73u8, 70u8, 56u8, 57u8, 97u8, 111u8, 0u8, 111u8, 0u8, 247u8,
                    0u8, 0u8, 0u8, 0u8, 0u8, 0u8, 0u8, 0u8, 0u8, 0u8, 0u8, 0u8, 0u8, 0u8, 0u8,
                ],
            ),
        ) == seq![94u8, 148u8, 189u8, 206u8],
{
    let m0 = Seq::<u8>::empty();
    let m1 = m0.push(0u8).push(0u8).push(71u8).push(73u8);
    let m2 = m1.push(70u8).push(56u8).push(57u8).push(97u8);
    let m3 = m2.push(111u8).push(0u8).push(111u8).push(0u8);
    let m4 = m3.push(247u8).push(0u8).push(0u8).push(0u8);
    let m5 = m4.push(0u8).push(0u8).push(0u8).push(0u8);
    let m6 = m5.push(0u8).push(0u8).push(0u8).push(0u8);
    let m7 = m6.push(0u8).push(0u8).push(0u8).push(0u8);
    assert(checksum_of(m0) == 0xFFFF_FFFFu32);
    lemma_feed_four(m0, 0u8, 0u8, 71u8, 73u8);
    assert(checksum_feed4(0xffffffffu32, 0u8, 0u8, 71u8, 73u8) == 0xa7c24f35u32)
        by (bit_vector);
    lemma_feed_four(m1, 70u8, 56u8, 57u8, 97u8);
    assert(checksum_feed4(0xa7c24f35u32, 70u8, 56u8, 57u8, 97u8) == 0xf16d5ecu32)
        by (bit_vector);
    lemma_feed_four(m2, 111u8, 0u8, 111u8, 0u8);
    assert(checksum_feed4(0xf16d5ecu32, 111u8, 0u8, 111u8, 0u8) == 0x4ac2e02bu32)
        by (bit_vector);
    lemma_feed_four(m3, 247u8, 0u8, 0u8, 0u8);
    assert(checksum_feed4(0x4ac2e02bu32, 247u8, 0u8, 0u8, 0u8) == 0x2ba4dccau32)
        by (bit_vector);
    lemma_feed_four(m4, 0u8, 0u8, 0u8, 0u8);
    assert(checksum_feed4(0x2ba4dccau32, 0u8, 0u8, 0u8, 0u8) == 0xcda2069au32)
        by (bit_vector);
    lemma_feed_four(m5, 0u8, 0u8, 0u8, 0u8);
    assert(checksum_feed4(0xcda2069au32, 0u8, 0u8, 0u8, 0u8) == 0x15343b70u32)
        by (bit_vector);
    lemma_feed_four(m6, 0u8, 0u8, 0u8, 0u8);
    assert(checksum_feed4(0x15343b70u32, 0u8, 0u8, 0u8, 0u8) == 0x5e94bdceu32)
        by (bit_vector);
    assert(m7 =~= seq![
        0u8, 0u8, 71u8, 73u8, 70u8, 56u8, 57u8, 97u8, 111u8, 0u8, 111u8, 0u8, 247u8, 0u8, 0u8,
        0u8, 0u8, 0u8, 0u8, 0u8, 0u8, 0u8, 0u8, 0u8, 0u8, 0u8, 0u8, 0u8,
    ]);
    assert(be32(0x5e94bdceu32) =~= seq![94u8, 148u8, 189u8, 206u8]);
}

/// Checksum function used for media uploads: the register after `data`,
/// most significant byte first.
pub fn checksum(data: &[u8]) -> (sum: [u8; 4])
    ensures
        sum@ == be32(checksum_of(data@)),
{
    let mut val: u32 = 0xFFFF_FFFF;
    let mut i: usize = 0;
    while i < data.len()
        invariant
            i <= data.len(),
            val == checksum_of(data@.take(i as int)),
        decreases data.len() - i,
    {
        val = val ^ ((data[i] as u32) << 24);
        let ghost entered = val;
        let mut bit: u8 = 0;
        while bit < 8
            invariant
                bit <= 8,
                val == checksum_shifts(entered, bit as nat),
            decreases 8 - bit,
        {
            if val & 0x8000_0000 != 0 {
                val = (val << 1) ^ 0x04C1_1DB7;
            } else {
                val = val << 1;
            }
            bit = bit + 1;
        }
        proof {
            let next = data@.take(i + 1);
            assert(next.drop_last() =~= data@.take(i as int));
            assert(next.last() == data[i as int]);
        }
        i = i + 1;
    }
    proof {
        assert(data@.take(data.len() as int) =~= data@);
    }
    u32_to_be(val)
}

} // verus!
