//! HID frame layout of the Tiga protocol.
//!
//! Frame structure (32 bytes):
//! - Byte 0: 0x1C (report type)
//! - Byte 1: 0x02 or 0x03 (sub-type)
//! - Bytes 2-4: Reserved (0)
//! - Byte 5: Payload size (4 + payload length + 1)
//! - Bytes 6-7: CRC16 (little-endian)
//! - Byte 8: 0xA5 (magic identifier)
//! - Byte 9: Command byte
//! - Byte 10: Reserved (0)
//! - Byte 11: Payload length
//! - Bytes 12+: Payload data
//! - Byte after the payload: Checksum (sum of bytes 9+ XOR 0xFF)

use crate::bytes::{be16, byte_sum, u16_to_be};
use crate::tiga::crc::{crc16, crc16_of};
use crate::tiga::types::{Rgb565, ScreenMode, WeatherIcon};
use vstd::prelude::*;

verus! {

/// Length of every frame.
pub const FRAME_LEN: usize = 32;

/// Largest payload that leaves room for the checksum byte.
pub const MAX_PAYLOAD: usize = 19;

/// Largest slice of image data that fits into one frame beside its index.
pub const CHUNK_SIZE: usize = 16;

/// First byte of every frame.
pub const REPORT_TYPE: u8 = 0x1C;

/// Marker in front of the command byte.
pub const MAGIC: u8 = 0xA5;

/// Sub-type of every frame but the datetime frame.
pub const SUB_TYPE_COMMAND: u8 = 0x02;

/// Sub-type of the datetime frame.
pub const SUB_TYPE_DATETIME: u8 = 0x03;

/// DateTime sync command
pub const CMD_DATETIME: u8 = 0x38;

/// Screen control command
pub const CMD_SCREEN: u8 = 0x39;

/// Image upload command
pub const CMD_IMAGE: u8 = 0xFC;

/// Theme settings command
pub const CMD_THEME: u8 = 0xFD;

/// Weather display command
pub const CMD_WEATHER: u8 = 0xFE;

/// The bytes that the additive checksum covers: command, reserved byte,
/// payload length, payload.
pub open spec fn checked_region(command: u8, payload: Seq<u8>) -> Seq<u8> {
    seq![command, 0u8, payload.len() as u8] + payload
}

/// Additive checksum: the byte sum, XOR 0xFF, reduced to its low byte.
pub open spec fn additive_checksum(bytes: Seq<u8>) -> u8 {
    (255 - byte_sum(bytes) % 256) as u8
}

/// The frame with its CRC field still zero, byte by byte.
pub open spec fn unsealed_frame(command: u8, payload: Seq<u8>, sub_type: u8) -> Seq<u8> {
    Seq::new(
        FRAME_LEN as nat,
        |i: int|
            if i == 0 {
                REPORT_TYPE
            } else if i == 1 {
                sub_type
            } else if i == 5 {
                (payload.len() + 5) as u8
            } else if i == 8 {
                MAGIC
            } else if i == 9 {
                command
            } else if i == 11 {
                payload.len() as u8
            } else if 12 <= i < 12 + payload.len() {
                payload[i - 12]
            } else if i == 12 + payload.len() {
                additive_checksum(checked_region(command, payload))
            } else {
                0u8
            },
    )
}

/// The finished frame: the CRC-16 of the whole unsealed frame stands in
/// bytes 6 and 7, low byte first.
pub open spec fn frame(command: u8, payload: Seq<u8>, sub_type: u8) -> Seq<u8> {
    let open = unsealed_frame(command, payload, sub_type);
    let crc = crc16_of(open);
    open.update(6, (crc % 256) as u8).update(7, (crc / 256) as u8)
}

/// Every frame has the fixed length, whatever the payload.
pub proof fn lemma_frame_len(command: u8, payload: Seq<u8>, sub_type: u8)
    ensures
        frame(command, payload, sub_type).len() == FRAME_LEN,
{
}

/// The payload can be read back from the frame it was built into.
pub proof fn lemma_frame_carries_payload(command: u8, payload: Seq<u8>, sub_type: u8)
    requires
        payload.len() <= MAX_PAYLOAD,
    ensures
        frame(command, payload, sub_type)[9] == command,
        frame(command, payload, sub_type)[11] == payload.len(),
        frame(command, payload, sub_type).subrange(12, 12 + payload.len() as int) == payload,
{
    let f = frame(command, payload, sub_type);
    assert(f.subrange(12, 12 + payload.len() as int) =~= payload);
}

/// Build a 32-byte HID frame with proper framing, checksum, and CRC.
///
/// * `command` - Command byte (e.g., 0x38 for datetime)
/// * `payload` - Payload data (excluding command byte)
/// * `sub_type` - Sub-type byte (0x02 for most commands, 0x03 for datetime)
pub fn build_packet(command: u8, payload: &[u8], sub_type: u8) -> (packet: [u8; 32])
    requires
        payload.len() <= MAX_PAYLOAD,
    ensures
        packet@ == frame(command, payload@, sub_type),
        packet@.len() == FRAME_LEN,
{
    let mut packet = [0u8; 32];
    let data_length = payload.len();

    packet[0] = REPORT_TYPE;
    packet[1] = sub_type;
    packet[5] = (4 + data_length + 1) as u8;
    packet[8] = MAGIC;
    packet[9] = command;
    packet[11] = data_length as u8;

    let mut i: usize = 0;
    while i < data_length
        invariant
            i <= data_length,
            data_length == payload.len(),
            data_length <= MAX_PAYLOAD,
            forall|j: int|
                0 <= j < 12 ==> packet[j] == unsealed_frame(command, payload@, sub_type)[j],
            forall|j: int| 0 <= j < i ==> packet[12 + j] == payload[j],
            forall|j: int| 12 + i <= j < 32 ==> packet[j] == 0,
        decreases data_length - i,
    {
        packet[12 + i] = payload[i];
        i = i + 1;
    }

    let ghost region = checked_region(command, payload@);
    let end = 12 + data_length;
    let mut sum: u16 = 0;
    let mut k: usize = 9;
    assert(region.take(0) =~= Seq::<u8>::empty());
    while k < end
        invariant
            9 <= k <= end,
            end == 12 + data_length,
            data_length <= MAX_PAYLOAD,
            region.len() == data_length + 3,
            forall|j: int| 9 <= j < end ==> packet[j] == region[j - 9],
            sum == byte_sum(region.take(k - 9)),
            sum <= 255 * (k - 9),
        decreases end - k,
    {
        proof {
            let next = region.take(k - 9 + 1);
            assert(next.drop_last() =~= region.take(k - 9));
            assert(next.last() == packet[k as int]);
        }
        sum = sum + packet[k] as u16;
        k = k + 1;
    }
    proof {
        assert(region.take(end - 9) =~= region);
    }
    assert((sum ^ 0xFF) & 0xFF == 255 - (sum % 256)) by (bit_vector);
    packet[end] = ((sum ^ 0xFF) & 0xFF) as u8;
    assert(packet@ =~= unsealed_frame(command, payload@, sub_type));

    let crc = crc16(&packet);
    assert(crc & 0xFF == crc % 256 && crc >> 8 == crc / 256 && crc >> 8 < 256) by (bit_vector);
    packet[6] = (crc & 0xFF) as u8;
    packet[7] = (crc >> 8) as u8;
    assert(packet@ =~= frame(command, payload@, sub_type));
    packet
}

/// Payload of the datetime frame: two flag bytes, the year (big-endian),
/// month, day, hour, minute, second and day of week (0 is Sunday).
pub open spec fn datetime_payload(
    year: u16,
    month: u8,
    day: u8,
    hour: u8,
    minute: u8,
    second: u8,
    day_of_week: u8,
) -> Seq<u8> {
    seq![0x00u8, 0x01u8] + be16(year) + seq![month, day, hour, minute, second, day_of_week]
}

/// Build a datetime sync frame.
pub fn datetime(
    year: u16,
    month: u8,
    day: u8,
    hour: u8,
    minute: u8,
    second: u8,
    day_of_week: u8,
) -> (packet: [u8; 32])
    ensures
        packet@ == frame(
            CMD_DATETIME,
            datetime_payload(year, month, day, hour, minute, second, day_of_week),
            SUB_TYPE_DATETIME,
        ),
{
    let y = u16_to_be(year);
    let payload: [u8; 10] = [0x00, 0x01, y[0], y[1], month, day, hour, minute, second, day_of_week];
    assert(payload@ =~= datetime_payload(year, month, day, hour, minute, second, day_of_week));
    build_packet(CMD_DATETIME, &payload, SUB_TYPE_DATETIME)
}

/// Build a screen control frame.
pub fn screen_control(mode: ScreenMode) -> (packet: [u8; 32])
    ensures
        packet@ == frame(CMD_SCREEN, mode.payload(), SUB_TYPE_COMMAND),
{
    let payload = mode.to_bytes();
    build_packet(CMD_SCREEN, &payload, SUB_TYPE_COMMAND)
}

/// Payload of the theme frame: a zero sub-command, background and font
/// color (RGB565, big-endian), theme id.
pub open spec fn theme_payload(bg_color: Rgb565, font_color: Rgb565, theme_id: u8) -> Seq<u8> {
    seq![0x00u8] + be16(bg_color.0) + be16(font_color.0) + seq![theme_id]
}

/// Build a theme settings frame.
pub fn theme(bg_color: Rgb565, font_color: Rgb565, theme_id: u8) -> (packet: [u8; 32])
    ensures
        packet@ == frame(
            CMD_THEME,
            theme_payload(bg_color, font_color, theme_id),
            SUB_TYPE_COMMAND,
        ),
{
    let bg = bg_color.to_be_bytes();
    let font = font_color.to_be_bytes();
    let payload: [u8; 6] = [0x00, bg[0], bg[1], font[0], font[1], theme_id];
    assert(payload@ =~= theme_payload(bg_color, font_color, theme_id));
    build_packet(CMD_THEME, &payload, SUB_TYPE_COMMAND)
}

/// Payload of the weather frame: a zero sub-command, the icon, then the
/// current, maximum and minimum temperature (encoded, big-endian).
pub open spec fn weather_payload(icon: WeatherIcon, current: u16, max: u16, min: u16) -> Seq<u8> {
    seq![0x00u8, icon.spec_code()] + be16(current) + be16(max) + be16(min)
}

/// Build a weather display frame.
pub fn weather(icon: WeatherIcon, current: u16, max: u16, min: u16) -> (packet: [u8; 32])
    ensures
        packet@ == frame(CMD_WEATHER, weather_payload(icon, current, max, min), SUB_TYPE_COMMAND),
{
    let c = u16_to_be(current);
    let hi = u16_to_be(max);
    let lo = u16_to_be(min);
    let payload: [u8; 8] = [0x00, icon.code(), c[0], c[1], hi[0], hi[1], lo[0], lo[1]];
    assert(payload@ =~= weather_payload(icon, current, max, min));
    build_packet(CMD_WEATHER, &payload, SUB_TYPE_COMMAND)
}

/// Payload of an image data frame: a zero sub-command, the page index
/// (big-endian), the chunk.
pub open spec fn image_chunk_payload(page_index: u16, chunk: Seq<u8>) -> Seq<u8> {
    seq![0x00u8] + be16(page_index) + chunk
}

/// Build an image data chunk frame.
pub fn image_chunk(page_index: u16, chunk: &[u8]) -> (packet: [u8; 32])
    requires
        chunk.len() <= CHUNK_SIZE,
    ensures
        packet@ == frame(CMD_IMAGE, image_chunk_payload(page_index, chunk@), SUB_TYPE_COMMAND),
{
    let index = u16_to_be(page_index);
    let mut payload: Vec<u8> = Vec::new();
    payload.push(0x00);
    payload.push(index[0]);
    payload.push(index[1]);
    let mut i: usize = 0;
    while i < chunk.len()
        invariant
            i <= chunk.len(),
            payload@ == image_chunk_payload(page_index, chunk@.take(i as int)),
        decreases chunk.len() - i,
    {
        payload.push(chunk[i]);
        assert(chunk@.take(i + 1) =~= chunk@.take(i as int).push(chunk[i as int]));
        assert(payload@ =~= image_chunk_payload(page_index, chunk@.take(i + 1)));
        i = i + 1;
    }
    assert(chunk@.take(chunk.len() as int) =~= chunk@);
    build_packet(CMD_IMAGE, payload.as_slice(), SUB_TYPE_COMMAND)
}

/// Payload of the frame that ends an image upload.
pub open spec fn image_end_payload() -> Seq<u8> {
    seq![0x00u8, 0xFFu8, 0xFFu8]
}

/// Build an image upload termination frame.
pub fn image_end() -> (packet: [u8; 32])
    ensures
        packet@ == frame(CMD_IMAGE, image_end_payload(), SUB_TYPE_COMMAND),
{
    let payload: [u8; 3] = [0x00, 0xFF, 0xFF];
    assert(payload@ =~= image_end_payload());
    build_packet(CMD_IMAGE, &payload, SUB_TYPE_COMMAND)
}

} // verus!
