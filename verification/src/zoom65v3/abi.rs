//! Report layout of the Zoom65 V3 protocol.
//!
//! Report structure (33 bytes):
//! - Byte 0: 0 (report id)
//! - Byte 1: 88 (command marker)
//! - Byte 2: Length of the body
//! - Bytes 3+: Body: the bytes that name the command, then its arguments
//! - Remaining bytes: 0

use crate::bytes::{be32, u32_to_be};
use crate::zoom65v3::float::DumbFloat16;
use crate::zoom65v3::types::{Icon, ScreenTheme, UploadChannel};
use vstd::prelude::*;

verus! {

/// Length of every report.
pub const REPORT_LEN: usize = 33;

/// Marker in front of every command.
pub const COMMAND_MARKER: u8 = 88;

/// Largest body that fits behind the three header bytes.
pub const MAX_BODY: usize = 30;

/// A value that can stand as an argument in a command body.
pub trait Arg {
    /// Number of bytes that the argument takes.
    spec fn size() -> nat;

    /// The bytes of the argument as they stand in the body.
    spec fn wire(&self) -> Seq<u8>;

    /// Write the argument out.
    fn to_bytes(&self) -> (bytes: Vec<u8>)
        ensures
            bytes@ == self.wire(),
            bytes@.len() == Self::size(),
    ;
}

impl Arg for u8 {
    open spec fn size() -> nat {
        1
    }

    open spec fn wire(&self) -> Seq<u8> {
        seq![*self]
    }

    fn to_bytes(&self) -> (bytes: Vec<u8>) {
        let mut bytes: Vec<u8> = Vec::new();
        bytes.push(*self);
        assert(bytes@ =~= self.wire());
        bytes
    }
}

impl Arg for u32 {
    open spec fn size() -> nat {
        4
    }

    open spec fn wire(&self) -> Seq<u8> {
        be32(*self)
    }

    fn to_bytes(&self) -> (bytes: Vec<u8>) {
        let b = u32_to_be(*self);
        let mut bytes: Vec<u8> = Vec::new();
        bytes.push(b[0]);
        bytes.push(b[1]);
        bytes.push(b[2]);
        bytes.push(b[3]);
        assert(bytes@ =~= self.wire());
        bytes
    }
}

/// The report that carries `body`, byte by byte.
pub open spec fn report(body: Seq<u8>) -> Seq<u8> {
    Seq::new(
        REPORT_LEN as nat,
        |i: int|
            if i == 1 {
                COMMAND_MARKER
            } else if i == 2 {
                body.len() as u8
            } else if 3 <= i < 3 + body.len() {
                body[i - 3]
            } else {
                0u8
            },
    )
}

/// Every report has the fixed length, whatever the body.
pub proof fn lemma_report_len(body: Seq<u8>)
    ensures
        report(body).len() == REPORT_LEN,
{
}

/// Build the report that carries `body`.
pub fn build_report(body: &[u8]) -> (buf: [u8; 33])
    requires
        body.len() <= MAX_BODY,
    ensures
        buf@ == report(body@),
        buf@.len() == REPORT_LEN,
{
    let mut buf = [0u8; 33];
    buf[1] = COMMAND_MARKER;
    buf[2] = body.len() as u8;
    let mut i: usize = 0;
    while i < body.len()
        invariant
            i <= body.len(),
            body.len() <= MAX_BODY,
            buf[0] == 0,
            buf[1] == COMMAND_MARKER,
            buf[2] == body.len() as u8,
            forall|j: int| 0 <= j < i ==> buf[3 + j] == body[j],
            forall|j: int| 3 + i <= j < 33 ==> buf[j] == 0,
        decreases body.len() - i,
    {
        buf[3 + i] = body[i];
        i = i + 1;
    }
    assert(buf@ =~= report(body@));
    buf
}

/// Construct a payload for resetting screen back to meletrix logo
pub fn reset_screen() -> (buf: [u8; 33])
    ensures
        buf@ == report(seq![165u8, 1u8, 255u8]),
{
    let body: [u8; 3] = [165, 1, 255];
    assert(body@ =~= seq![165u8, 1u8, 255u8]);
    build_report(&body)
}

/// Construct a payload for setting the screen theme
pub fn screen_theme(theme: ScreenTheme) -> (buf: [u8; 33])
    ensures
        buf@ == report(seq![165u8, 1u8, 255u8] + theme.wire()),
{
    let body: [u8; 4] = [165, 1, 255, theme.code()];
    assert(body@ =~= seq![165u8, 1u8, 255u8] + theme.wire());
    build_report(&body)
}

/// Construct a payload for moving the screen up one position
pub fn screen_up() -> (buf: [u8; 33])
    ensures
        buf@ == report(seq![165u8, 0u8, 34u8]),
{
    let body: [u8; 3] = [165, 0, 34];
    assert(body@ =~= seq![165u8, 0u8, 34u8]);
    build_report(&body)
}

/// Construct a payload for moving the screen down one position
pub fn screen_down() -> (buf: [u8; 33])
    ensures
        buf@ == report(seq![165u8, 0u8, 33u8]),
{
    let body: [u8; 3] = [165, 0, 33];
    assert(body@ =~= seq![165u8, 0u8, 33u8]);
    build_report(&body)
}

/// Construct a payload for switching the screen to the next page
pub fn screen_switch() -> (buf: [u8; 33])
    ensures
        buf@ == report(seq![165u8, 0u8, 32u8]),
{
    let body: [u8; 3] = [165, 0, 32];
    assert(body@ =~= seq![165u8, 0u8, 32u8]);
    build_report(&body)
}

/// Construct a payload for deleting the currently uploaded image and reset
/// back to the chrome dino
pub fn delete_image() -> (buf: [u8; 33])
    ensures
        buf@ == report(seq![165u8, 2u8, 224u8]),
{
    let body: [u8; 3] = [165, 2, 224];
    assert(body@ =~= seq![165u8, 2u8, 224u8]);
    build_report(&body)
}

/// Construct a payload for deleting the currently uploaded gif and reset
/// back to nyan cat
pub fn delete_gif() -> (buf: [u8; 33])
    ensures
        buf@ == report(seq![165u8, 2u8, 225u8]),
{
    let body: [u8; 3] = [165, 2, 225];
    assert(body@ =~= seq![165u8, 2u8, 225u8]);
    build_report(&body)
}

/// Construct a payload for signaling the start of an upload
pub fn upload_start(channel: UploadChannel) -> (buf: [u8; 33])
    ensures
        buf@ == report(seq![165u8, 2u8, 240u8] + channel.wire()),
{
    let body: [u8; 4] = [165, 2, 240, channel.code()];
    assert(body@ =~= seq![165u8, 2u8, 240u8] + channel.wire());
    build_report(&body)
}

/// Construct a payload for signaling the length of an upload
pub fn upload_length(len: u32) -> (buf: [u8; 33])
    ensures
        buf@ == report(seq![165u8, 2u8, 208u8] + be32(len)),
{
    let l = u32_to_be(len);
    let body: [u8; 7] = [165, 2, 208, l[0], l[1], l[2], l[3]];
    assert(body@ =~= seq![165u8, 2u8, 208u8] + be32(len));
    build_report(&body)
}

/// Construct a payload for signaling the end of an upload
pub fn upload_end() -> (buf: [u8; 33])
    ensures
        buf@ == report(seq![165u8, 2u8, 241u8, 1u8]),
{
    let body: [u8; 4] = [165, 2, 241, 1];
    assert(body@ =~= seq![165u8, 2u8, 241u8, 1u8]);
    build_report(&body)
}

/// Construct a payload for setting the system clock
pub fn set_time(year: u8, month: u8, day: u8, hour: u8, minute: u8, second: u8) -> (buf: [u8; 33])
    ensures
        buf@ == report(seq![165u8, 1u8, 16u8, year, month, day, hour, minute, second]),
{
    let body: [u8; 9] = [165, 1, 16, year, month, day, hour, minute, second];
    assert(body@ =~= seq![165u8, 1u8, 16u8, year, month, day, hour, minute, second]);
    build_report(&body)
}

/// Construct a payload for setting the weather icon and current/min/max
/// temperatures
pub fn set_weather(icon: Icon, current: u8, low: u8, high: u8) -> (buf: [u8; 33])
    ensures
        buf@ == report(seq![165u8, 1u8, 32u8] + icon.wire() + seq![current, low, high]),
{
    let body: [u8; 7] = [165, 1, 32, icon.code(), current, low, high];
    assert(body@ =~= seq![165u8, 1u8, 32u8] + icon.wire() + seq![current, low, high]);
    build_report(&body)
}

/// Construct a payload for setting the cpu/gpu temp and download rate
pub fn set_system_info(cpu_temp: u8, gpu_temp: u8, download: DumbFloat16) -> (buf: [u8; 33])
    ensures
        buf@ == report(seq![165u8, 1u8, 64u8, cpu_temp, gpu_temp] + download.wire()),
{
    let d = download.to_bit_repr();
    let body: [u8; 7] = [165, 1, 64, cpu_temp, gpu_temp, d[0], d[1]];
    assert(body@ =~= seq![165u8, 1u8, 64u8, cpu_temp, gpu_temp] + download.wire());
    build_report(&body)
}

/// The report that asks the keyboard for its protocol version.
pub open spec fn version_request() -> Seq<u8> {
    Seq::new(REPORT_LEN as nat, |i: int| if i == 1 { 1u8 } else { 0u8 })
}

/// Construct a payload for getting the abi version of the keyboard
pub fn get_version() -> (buf: [u8; 33])
    ensures
        buf@ == version_request(),
{
    let mut buf = [0u8; 33];
    buf[1] = 1;
    assert(buf@ =~= version_request());
    buf
}

} // verus!
