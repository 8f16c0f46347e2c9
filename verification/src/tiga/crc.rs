//! CRC-16/CCITT-FALSE: polynomial 0x1021, initial value 0xFFFF, no input or
//! output reflection, no final XOR.

use vstd::prelude::*;

verus! {

/// Generator polynomial, without its leading x^16 term.
pub const CRC16_POLY: u16 = 0x1021;

/// Initial value of the shift register.
pub const CRC16_INIT: u16 = 0xFFFF;

/// One clock of the shift register: the top bit leaves, and where it was set
/// the polynomial is folded in.
pub open spec fn crc16_shift(reg: u16) -> u16 {
    if reg & 0x8000 != 0 {
        (reg << 1) ^ CRC16_POLY
    } else {
        reg << 1
    }
}

/// `n` clocks of the shift register.
pub open spec fn crc16_shifts(reg: u16, n: nat) -> u16
    decreases n,
{
    if n == 0 {
        reg
    } else {
        crc16_shift(crc16_shifts(reg, (n - 1) as nat))
    }
}

/// The register after one more message byte: the byte enters at the top,
/// followed by eight clocks.
pub open spec fn crc16_feed(reg: u16, byte: u8) -> u16 {
    crc16_shifts(reg ^ ((byte as u16) << 8), 8)
}

/// The CRC-16/CCITT-FALSE of a message.
pub open spec fn crc16_of(data: Seq<u8>) -> u16
    decreases data.len(),
{
    if data.len() == 0 {
        CRC16_INIT
    } else {
        crc16_feed(crc16_of(data.drop_last()), data.last())
    }
}

/// Eight clocks of the shift register, written out.
pub open spec fn crc16_shift8(reg: u16) -> u16 {
    crc16_shift(
        crc16_shift(
            crc16_shift(
                crc16_shift(crc16_shift(crc16_shift(crc16_shift(crc16_shift(reg))))),
            ),
        ),
    )
}

/// Feeding a byte is eight clocks after the byte has entered.
pub proof fn lemma_feed_is_eight_shifts(reg: u16, byte: u8)
    ensures
        crc16_feed(reg, byte) == crc16_shift8(reg ^ ((byte as u16) << 8)),
{
    reveal_with_fuel(crc16_shifts, 9);
}

/// The message without its last byte, and that byte.
proof fn lemma_crc16_push(data: Seq<u8>, byte: u8)
    ensures
        crc16_of(data.push(byte)) == crc16_feed(crc16_of(data), byte),
{
    assert(data.push(byte).drop_last() =~= data);
}

/// The check value of CRC-16/CCITT-FALSE: the CRC of the ASCII digits
/// `123456789` is 0x29B1.
pub proof fn lemma_check_value()
    ensures
        crc16_of(seq![0x31u8, 0x32u8, 0x33u8, 0x34u8, 0x35u8, 0x36u8, 0x37u8, 0x38u8, 0x39u8])
            == 0x29B1,
{
    let empty = Seq::<u8>::empty();
    let m1 = empty.push(0x31u8);
    let m2 = m1.push(0x32u8);
    let m3 = m2.push(0x33u8);
    let m4 = m3.push(0x34u8);
    let m5 = m4.push(0x35u8);
    let m6 = m5.push(0x36u8);
    let m7 = m6.push(0x37u8);
    let m8 = m7.push(0x38u8);
    let m9 = m8.push(0x39u8);
    assert(crc16_of(empty) == 0xFFFF);
    lemma_crc16_push(empty, 0x31u8);
    lemma_feed_is_eight_shifts(0xFFFF, 0x31u8);
    assert(crc16_shift8(0xFFFFu16 ^ ((0x31u8 as u16) << 8)) == 0xC782u16) by (bit_vector);
    lemma_crc16_push(m1, 0x32u8);
    lemma_feed_is_eight_shifts(0xC782, 0x32u8);
    assert(crc16_shift8(0xC782u16 ^ ((0x32u8 as u16) << 8)) == 0x3DBAu16) by (bit_vector);
    lemma_crc16_push(m2, 0x33u8);
    lemma_feed_is_eight_shifts(0x3DBA, 0x33u8);
    assert(crc16_shift8(0x3DBAu16 ^ ((0x33u8 as u16) << 8)) == 0x5BCEu16) by (bit_vector);
    lemma_crc16_push(m3, 0x34u8);
    lemma_feed_is_eight_shifts(0x5BCE, 0x34u8);
    assert(crc16_shift8(0x5BCEu16 ^ ((0x34u8 as u16) << 8)) == 0x5349u16) by (bit_vector);
    lemma_crc16_push(m4, 0x35u8);
    lemma_feed_is_eight_shifts(0x5349, 0x35u8);
    assert(crc16_shift8(0x5349u16 ^ ((0x35u8 as u16) << 8)) == 0x4560u16) by (bit_vector);
    lemma_crc16_push(m5, 0x36u8);
    lemma_feed_is_eight_shifts(0x4560, 0x36u8);
    assert(crc16_shift8(0x4560u16 ^ ((0x36u8 as u16) << 8)) == 0x2EF4u16) by (bit_vector);
    lemma_crc16_push(m6, 0x37u8);
    lemma_feed_is_eight_shifts(0x2EF4, 0x37u8);
    assert(crc16_shift8(0x2EF4u16 ^ ((0x37u8 as u16) << 8)) == 0x7718u16) by (bit_vector);
    lemma_crc16_push(m7, 0x38u8);
    lemma_feed_is_eight_shifts(0x7718, 0x38u8);
    assert(crc16_shift8(0x7718u16 ^ ((0x38u8 as u16) << 8)) == 0xA12Bu16) by (bit_vector);
    lemma_crc16_push(m8, 0x39u8);
    lemma_feed_is_eight_shifts(0xA12B, 0x39u8);
    assert(crc16_shift8(0xA12Bu16 ^ ((0x39u8 as u16) << 8)) == 0x29B1u16) by (bit_vector);
    assert(m9 =~= seq![
        0x31u8,
        0x32u8,
        0x33u8,
        0x34u8,
        0x35u8,
        0x36u8,
        0x37u8,
        0x38u8,
        0x39u8,
    ]);
}

/// Calculate the CRC-16/CCITT-FALSE checksum of `data`.
pub fn crc16(data: &[u8]) -> (crc: u16)
    ensures
        crc == crc16_of(data@),
{
    let mut crc: u16 = 0xFFFF;
    let mut i: usize = 0;
    while i < data.len()
        invariant
            i <= data.len(),
            crc == crc16_of(data@.take(i as int)),
        decreases data.len() - i,
    {
        let ghost before = crc;
        crc = crc ^ ((data[i] as u16) << 8);
        let ghost entered = crc;
        let mut bit: u8 = 0;
        while bit < 8
            invariant
                bit <= 8,
                crc == crc16_shifts(entered, bit as nat),
            decreases 8 - bit,
        {
            if (crc & 0x8000) != 0 {
                crc = (crc << 1) ^ 0x1021;
            } else {
                crc = crc << 1;
            }
            bit = bit + 1;
        }
        proof {
            let next = data@.take(i + 1);
            assert(next.drop_last() =~= data@.take(i as int));
            assert(next.last() == data[i as int]);
        }
        i = i + 1;
    }
    proof {
        assert(data@.take(data.len() as int) =~= data@);
    }
    crc
}

} // verus!
