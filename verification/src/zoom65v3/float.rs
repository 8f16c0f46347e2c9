//! The 16-bit fixed-point number that carries the download rate.

use crate::bytes::{be16, from_be16, u16_from_be, u16_to_be};
use crate::zoom65v3::abi::Arg;
use vstd::prelude::*;

verus! {

/// A download rate in steps of one hundredth, from 0.00 to 655.35. Bit `i`
/// of the number weighs 0.01 * 2^i.
#[derive(Clone, Copy, Debug, PartialEq, Eq, PartialOrd, Ord)]
pub struct DumbFloat16(u16);

impl DumbFloat16 {
    /// The sixteen bits of the number.
    pub closed spec fn bits(self) -> u16 {
        self.0
    }

    /// The number of hundredths that this value stands for.
    pub open spec fn hundredths(self) -> nat {
        self.bits() as nat
    }

    /// 0.00, the smallest value.
    pub fn min() -> (v: Self)
        ensures
            v.bits() == 0,
    {
        DumbFloat16(0)
    }

    /// 655.35, the largest value.
    pub fn max() -> (v: Self)
        ensures
            v.bits() == 0xFFFF,
    {
        DumbFloat16(0xFFFF)
    }

    /// Convert the number to its byte representation, most significant byte
    /// first.
    pub fn to_bit_repr(&self) -> (repr: [u8; 2])
        ensures
            repr@ == be16(self.bits()),
    {
        u16_to_be(self.0)
    }

    /// Convert a byte representation back to the number.
    pub fn from_bit_repr(repr: [u8; 2]) -> (v: Self)
        ensures
            v.bits() == from_be16(repr[0], repr[1]),
            be16(v.bits()) == repr@,
    {
        DumbFloat16(u16_from_be(repr))
    }
}

/// Reading a byte representation and writing it out again gives the same two
/// bytes.
pub proof fn lemma_bit_repr_round_trip(hi: u8, lo: u8)
    ensures
        be16(from_be16(hi, lo)) == seq![hi, lo],
{
    assert(be16(from_be16(hi, lo)) =~= seq![hi, lo]);
}

impl Arg for DumbFloat16 {
    open spec fn size() -> nat {
        2
    }

    open spec fn wire(&self) -> Seq<u8> {
        be16(self.bits())
    }

    fn to_bytes(&self) -> (bytes: Vec<u8>) {
        let repr = self.to_bit_repr();
        let mut bytes: Vec<u8> = Vec::new();
        bytes.push(repr[0]);
        bytes.push(repr[1]);
        assert(bytes@ =~= self.wire());
        bytes
    }
}

} // verus!
