//! Pixel buffers as the keyboards take them. Decoding, resizing and
//! blending of images is the caller's part; it hands over opaque RGB pixels.

use crate::bytes::{be16, u16_to_be};
use vstd::prelude::*;

verus! {

/// Five bits of an eight-bit channel value, as the `rgb565` crate scales it.
pub open spec fn to_five_bits(value: u8) -> int {
    (value + 1) * 31 / 255
}

/// Six bits of an eight-bit channel value, as the `rgb565` crate scales it.
pub open spec fn to_six_bits(value: u8) -> int {
    (value + 1) * 63 / 255
}

/// The RGB565 color of an RGB888 color: red in the top five bits, green in
/// the middle six, blue in the low five.
pub open spec fn rgb565_of(r: u8, g: u8, b: u8) -> u16 {
    (to_five_bits(r) * 2048 + to_six_bits(g) * 32 + to_five_bits(b)) as u16
}

/// Calls `rgb565::Rgb565::from_rgb888_components`, and on the color it
/// returns `Rgb565::to_rgb565_be`.
///
/// Believed of `rgb565`, not proved: each channel `v` is scaled to
/// `(v + 1) * 31 / 255`, green to `(v + 1) * 63 / 255`, the three are packed
/// as `rrrrrggg gggbbbbb`, and the two bytes come out most significant
/// first.
#[verifier::external_body]
fn rgb565_be(r: u8, g: u8, b: u8) -> (bytes: [u8; 2])
    ensures
        bytes@ == be16(rgb565_of(r, g, b)),
{
    rgb565::Rgb565::from_rgb888_components(r, g, b).to_rgb565_be()
}

/// Value of the alpha byte that follows every pixel.
pub const OPAQUE: u8 = 0xFF;

/// One encoded pixel: the RGB565 color, most significant byte first, and an
/// opaque alpha byte.
pub open spec fn encoded_pixel(r: u8, g: u8, b: u8) -> Seq<u8> {
    be16(rgb565_of(r, g, b)) + seq![OPAQUE]
}

/// The encoding of a buffer of RGB pixels, three bytes each: every pixel
/// becomes its encoded pixel. Bytes behind the last whole pixel are left
/// out.
pub open spec fn encoded_pixels(rgb: Seq<u8>) -> Seq<u8> {
    Seq::new(
        (rgb.len() / 3 * 3) as nat,
        |i: int| encoded_pixel(rgb[i / 3 * 3], rgb[i / 3 * 3 + 1], rgb[i / 3 * 3 + 2])[i % 3],
    )
}

/// Encode opaque RGB pixels as RGB565 with an 8 bit alpha channel.
pub fn encode_pixels(rgb: &[u8]) -> (encoded: Vec<u8>)
    ensures
        encoded@ == encoded_pixels(rgb@),
        encoded@.len() == rgb@.len() / 3 * 3,
{
    let count = rgb.len() / 3;
    let mut encoded: Vec<u8> = Vec::new();
    let mut pixel: usize = 0;
    while pixel < count
        invariant
            pixel <= count,
            count == rgb@.len() / 3,
            3 * count <= rgb@.len() <= usize::MAX,
            encoded@.len() == 3 * pixel,
            forall|i: int| 0 <= i < 3 * pixel ==> encoded@[i] == encoded_pixels(rgb@)[i],
        decreases count - pixel,
    {
        let at = pixel * 3;
        let color = rgb565_be(rgb[at], rgb[at + 1], rgb[at + 2]);
        let ghost before = encoded@;
        encoded.push(color[0]);
        encoded.push(color[1]);
        encoded.push(OPAQUE);
        proof {
            let whole = encoded_pixel(rgb[at as int], rgb[at + 1], rgb[at + 2]);
            assert(whole[0] == color[0] && whole[1] == color[1] && whole[2] == OPAQUE);
            assert forall|i: int| 0 <= i < 3 * (pixel + 1) implies encoded@[i] == encoded_pixels(
                rgb@,
            )[i] by {
                if i >= 3 * pixel {
                    assert(i / 3 == pixel);
                    assert(i / 3 * 3 == at);
                    assert(i % 3 == i - at);
                } else {
                    assert(encoded@[i] == before[i]);
                }
            }
        }
        pixel = pixel + 1;
    }
    assert(encoded@ =~= encoded_pixels(rgb@));
    encoded
}

/// Delay of a frame in centiseconds, from the delay in milliseconds given
/// as a fraction. Only the low sixteen bits are kept.
pub open spec fn centiseconds(numer: u32, denom: u32) -> u16 {
    ((numer / denom / 10) % 0x1_0000) as u16
}

/// Delay of a frame in centiseconds.
pub fn delay_centiseconds(numer: u32, denom: u32) -> (delay: u16)
    requires
        denom != 0,
    ensures
        delay == centiseconds(numer, denom),
{
    ((numer / denom / 10) % 0x1_0000) as u16
}

/// A frame of an animation: how long it is shown, in centiseconds, and its
/// encoded pixels.
#[derive(Debug, Clone, PartialEq, Eq)]
pub struct AnimationFrame {
    pub delay: u16,
    pub pixels: Vec<u8>,
}

/// Largest number of frames that the frame count can express.
pub const MAX_FRAMES: usize = 0xFFFF;

/// The delays of the frames, two bytes each, most significant byte first.
pub open spec fn delay_table(frames: Seq<AnimationFrame>) -> Seq<u8>
    decreases frames.len(),
{
    if frames.len() == 0 {
        seq![]
    } else {
        delay_table(frames.drop_last()) + be16(frames.last().delay)
    }
}

/// The pixels of the frames, one frame after the other.
pub open spec fn frame_data(frames: Seq<AnimationFrame>) -> Seq<u8>
    decreases frames.len(),
{
    if frames.len() == 0 {
        seq![]
    } else {
        frame_data(frames.drop_last()) + frames.last().pixels@
    }
}

/// An animation as the Tiga keyboards take it: the number of frames (two
/// bytes, most significant first), the delay of every frame, the pixels of
/// every frame.
pub open spec fn animation(frames: Seq<AnimationFrame>) -> Seq<u8> {
    be16(frames.len() as u16) + delay_table(frames) + frame_data(frames)
}

/// Put encoded frames together into one animation buffer. There is none for
/// more frames than the count can express.
pub fn assemble_animation(frames: &Vec<AnimationFrame>) -> (buffer: Option<Vec<u8>>)
    ensures
        buffer is Some <==> frames@.len() <= MAX_FRAMES,
        buffer matches Some(bytes) ==> bytes@ == animation(frames@),
{
    if frames.len() > MAX_FRAMES {
        return None;
    }
    let count = u16_to_be(frames.len() as u16);
    let mut output: Vec<u8> = Vec::new();
    output.push(count[0]);
    output.push(count[1]);
    assert(output@ =~= be16(frames@.len() as u16));

    // Frame delays (2 bytes each, BE)
    let mut i: usize = 0;
    while i < frames.len()
        invariant
            i <= frames.len(),
            output@ == be16(frames@.len() as u16) + delay_table(frames@.take(i as int)),
        decreases frames.len() - i,
    {
        let delay = u16_to_be(frames[i].delay);
        proof {
            assert(frames@.take(i + 1).drop_last() =~= frames@.take(i as int));
            assert(frames@.take(i + 1).last() == frames@[i as int]);
        }
        output.push(delay[0]);
        output.push(delay[1]);
        assert(output@ =~= be16(frames@.len() as u16) + delay_table(frames@.take(i + 1)));
        i = i + 1;
    }
    assert(frames@.take(frames.len() as int) =~= frames@);

    // Frame data (concatenated)
    let ghost head = output@;
    let mut f: usize = 0;
    while f < frames.len()
        invariant
            f <= frames.len(),
            head == be16(frames@.len() as u16) + delay_table(frames@),
            output@ == head + frame_data(frames@.take(f as int)),
        decreases frames.len() - f,
    {
        let pixels = &frames[f].pixels;
        let ghost start = output@;
        let mut p: usize = 0;
        while p < pixels.len()
            invariant
                p <= pixels.len(),
                output@ == start + pixels@.take(p as int),
            decreases pixels.len() - p,
        {
            output.push(pixels[p]);
            assert(pixels@.take(p + 1) =~= pixels@.take(p as int).push(pixels@[p as int]));
            assert(output@ =~= start + pixels@.take(p + 1));
            p = p + 1;
        }
        proof {
            assert(pixels@.take(pixels.len() as int) =~= pixels@);
            assert(frames@.take(f + 1).drop_last() =~= frames@.take(f as int));
            assert(frames@.take(f + 1).last() == frames@[f as int]);
            assert(output@ =~= head + frame_data(frames@.take(f + 1)));
        }
        f = f + 1;
    }
    assert(frames@.take(frames.len() as int) =~= frames@);
    Some(output)
}

} // verus!
