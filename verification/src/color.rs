//! Colors as users write them: `#rrggbb`, or `#rgb` for short.

use crate::tiga::types::pack_rgb565;
use vstd::prelude::*;
use vstd::string::StringSliceAdditionalSpecFns;

verus! {

/// The byte `#`.
pub const HASH: u8 = 0x23;

/// The byte `+`.
pub const PLUS: u8 = 0x2B;

/// The value of a hexadecimal digit, upper or lower case.
pub open spec fn hex_value(digit: u8) -> Option<u8> {
    if 0x30 <= digit <= 0x39 {
        Some((digit - 0x30) as u8)
    } else if 0x61 <= digit <= 0x66 {
        Some((digit - 0x61 + 10) as u8)
    } else if 0x41 <= digit <= 0x46 {
        Some((digit - 0x41 + 10) as u8)
    } else {
        None
    }
}

/// Number of `#` bytes at the start of a text.
pub open spec fn leading_hashes(text: Seq<u8>) -> nat
    decreases text.len(),
{
    if text.len() > 0 && text[0] == HASH {
        1 + leading_hashes(text.skip(1))
    } else {
        0
    }
}

/// A text without the `#` bytes at its start.
pub open spec fn without_hashes(text: Seq<u8>) -> Seq<u8> {
    text.skip(leading_hashes(text) as int)
}

/// The byte that two hexadecimal digits stand for, where both are digits.
pub open spec fn digit_pair(high: u8, low: u8) -> Option<u8> {
    match (hex_value(high), hex_value(low)) {
        (Some(h), Some(l)) => Some((h * 16 + l) as u8),
        _ => None,
    }
}

/// The byte that two characters stand for when they are read as a number of
/// their own: two hexadecimal digits, or a plus sign and one digit.
pub open spec fn hex_byte(high: u8, low: u8) -> Option<u8> {
    if high == PLUS {
        hex_value(low)
    } else {
        digit_pair(high, low)
    }
}

/// The color that six characters stand for when each pair of them is read
/// as a number of its own: `ff8000`, and `+1+2+3` as well.
pub open spec fn color_of_pairs(text: Seq<u8>) -> Option<Seq<u8>> {
    if text.len() != 6 {
        None
    } else {
        match (hex_byte(text[0], text[1]), hex_byte(text[2], text[3]), hex_byte(text[4], text[5])) {
            (Some(r), Some(g), Some(b)) => Some(seq![r, g, b]),
            _ => None,
        }
    }
}

/// The color that six characters stand for when they are read as one
/// number: six hexadecimal digits, or a plus sign and five digits, of which
/// the first alone is the red channel.
pub open spec fn color_of_number(text: Seq<u8>) -> Option<Seq<u8>> {
    if text.len() != 6 {
        None
    } else {
        match (
            if text[0] == PLUS {
                hex_value(text[1])
            } else {
                digit_pair(text[0], text[1])
            },
            digit_pair(text[2], text[3]),
            digit_pair(text[4], text[5]),
        ) {
            (Some(r), Some(g), Some(b)) => Some(seq![r, g, b]),
            _ => None,
        }
    }
}

/// The color that a text stands for: any `#` in front is passed over, and
/// exactly six characters must follow, which are read pair by pair.
pub open spec fn hex_color(text: Seq<u8>) -> Option<Seq<u8>> {
    color_of_pairs(without_hashes(text))
}

/// The color that a text stands for when digits may be written once for
/// twice: any `#` in front is passed over; three characters are each taken
/// twice, so that `#rgb` stands for `#rrggbb`; and the six characters are
/// read as one number.
pub open spec fn short_or_long_color(text: Seq<u8>) -> Result<Seq<u8>, ColorError> {
    let digits = without_hashes(text);
    if digits.len() == 3 {
        match color_of_number(
            seq![digits[0], digits[0], digits[1], digits[1], digits[2], digits[2]],
        ) {
            Some(color) => Ok(color),
            None => Err(ColorError::InvalidDigit),
        }
    } else if digits.len() == 6 {
        match color_of_number(digits) {
            Some(color) => Ok(color),
            None => Err(ColorError::InvalidDigit),
        }
    } else {
        Err(ColorError::InvalidLength(digits.len() as usize))
    }
}

/// Why a text is no color.
#[derive(Debug, Clone, Copy, PartialEq, Eq, Structural)]
pub enum ColorError {
    /// Neither three nor six digits, but this many
    InvalidLength(usize),
    /// Something that is no hexadecimal digit
    InvalidDigit,
}

fn digit_value(digit: u8) -> (value: Option<u8>)
    ensures
        value == hex_value(digit),
        value matches Some(v) ==> v < 16,
{
    if 0x30 <= digit && digit <= 0x39 {
        Some(digit - 0x30)
    } else if 0x61 <= digit && digit <= 0x66 {
        Some(digit - 0x61 + 10)
    } else if 0x41 <= digit && digit <= 0x46 {
        Some(digit - 0x41 + 10)
    } else {
        None
    }
}

fn pair_value(high: u8, low: u8) -> (value: Option<u8>)
    ensures
        value == digit_pair(high, low),
{
    match digit_value(high) {
        Some(h) => match digit_value(low) {
            Some(l) => Some(h * 16 + l),
            None => None,
        },
        None => None,
    }
}

fn byte_of(high: u8, low: u8) -> (value: Option<u8>)
    ensures
        value == hex_byte(high, low),
{
    if high == PLUS {
        digit_value(low)
    } else {
        pair_value(high, low)
    }
}

fn count_hashes(text: &[u8]) -> (n: usize)
    ensures
        n == leading_hashes(text@),
        n <= text.len(),
{
    let mut n: usize = 0;
    assert(text@.skip(0) =~= text@);
    while n < text.len() && text[n] == HASH
        invariant
            n <= text.len(),
            leading_hashes(text@) == n + leading_hashes(text@.skip(n as int)),
        decreases text.len() - n,
    {
        assert(text@.skip(n as int).skip(1) =~= text@.skip(n + 1));
        n = n + 1;
    }
    n
}

fn from_pairs(d0: u8, d1: u8, d2: u8, d3: u8, d4: u8, d5: u8) -> (color: Option<[u8; 3]>)
    ensures
        color is Some <==> color_of_pairs(seq![d0, d1, d2, d3, d4, d5]) is Some,
        color matches Some(c) ==> color_of_pairs(seq![d0, d1, d2, d3, d4, d5]) == Some(c@),
{
    match (byte_of(d0, d1), byte_of(d2, d3), byte_of(d4, d5)) {
        (Some(r), Some(g), Some(b)) => {
            let color = [r, g, b];
            assert(color@ =~= seq![r, g, b]);
            Some(color)
        },
        _ => None,
    }
}

fn from_number(d0: u8, d1: u8, d2: u8, d3: u8, d4: u8, d5: u8) -> (color: Option<[u8; 3]>)
    ensures
        color is Some <==> color_of_number(seq![d0, d1, d2, d3, d4, d5]) is Some,
        color matches Some(c) ==> color_of_number(seq![d0, d1, d2, d3, d4, d5]) == Some(c@),
{
    let red = if d0 == PLUS {
        digit_value(d1)
    } else {
        pair_value(d0, d1)
    };
    match (red, pair_value(d2, d3), pair_value(d4, d5)) {
        (Some(r), Some(g), Some(b)) => {
            let color = [r, g, b];
            assert(color@ =~= seq![r, g, b]);
            Some(color)
        },
        _ => None,
    }
}

/// Read a color written as six hexadecimal digits, with or without `#` in
/// front. Each pair of characters is read as a number of its own, so a plus
/// sign may stand for the first digit of a pair. A text that is no color
/// gives `None`, whatever it holds.
pub fn parse_hex_color(hex: &str) -> (color: Option<[u8; 3]>)
    ensures
        color is Some <==> hex_color(hex.spec_bytes()) is Some,
        color matches Some(c) ==> hex_color(hex.spec_bytes()) == Some(c@),
{
    let text = hex.as_bytes();
    let start = count_hashes(text);
    if text.len() - start != 6 {
        return None;
    }
    proof {
        let digits = without_hashes(text@);
        assert(digits =~= seq![
            text[start as int],
            text[start + 1],
            text[start + 2],
            text[start + 3],
            text[start + 4],
            text[start + 5],
        ]);
    }
    from_pairs(
        text[start],
        text[start + 1],
        text[start + 2],
        text[start + 3],
        text[start + 4],
        text[start + 5],
    )
}

/// Read a color written as three or six hexadecimal digits, with or without
/// `#` in front. The six characters are read as one number, so a plus sign
/// may stand for the first of them.
pub fn parse_color(code: &str) -> (color: Result<[u8; 3], ColorError>)
    ensures
        match color {
            Ok(c) => short_or_long_color(code.spec_bytes()) == Ok::<Seq<u8>, ColorError>(c@),
            Err(e) => short_or_long_color(code.spec_bytes()) == Err::<Seq<u8>, ColorError>(e),
        },
{
    let text = code.as_bytes();
    let start = count_hashes(text);
    let len = text.len() - start;
    let ghost digits = without_hashes(text@);
    if len == 3 {
        // Extend 3 character hex colors
        let (r, g, b) = (text[start], text[start + 1], text[start + 2]);
        assert(seq![digits[0], digits[0], digits[1], digits[1], digits[2], digits[2]] =~= seq![
            r,
            r,
            g,
            g,
            b,
            b,
        ]);
        match from_number(r, r, g, g, b, b) {
            Some(color) => Ok(color),
            None => Err(ColorError::InvalidDigit),
        }
    } else if len == 6 {
        proof {
            assert(digits =~= seq![
                text[start as int],
                text[start + 1],
                text[start + 2],
                text[start + 3],
                text[start + 4],
                text[start + 5],
            ]);
        }
        match from_number(
            text[start],
            text[start + 1],
            text[start + 2],
            text[start + 3],
            text[start + 4],
            text[start + 5],
        ) {
            Some(color) => Ok(color),
            None => Err(ColorError::InvalidDigit),
        }
    } else {
        Err(ColorError::InvalidLength(len))
    }
}

/// Convert RGB888 to RGB565
pub fn rgb_to_rgb565(rgb: [u8; 3]) -> (color: u16)
    ensures
        color == pack_rgb565(rgb[0], rgb[1], rgb[2]),
{
    crate::tiga::types::Rgb565::from_rgb(rgb[0], rgb[1], rgb[2]).0
}

} // verus!
