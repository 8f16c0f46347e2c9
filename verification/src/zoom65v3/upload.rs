//! Framing of media uploads: the upload is announced with its channel and
//! length, the buffer follows in chunks of 24 bytes, each under its index
//! and a checksum, and the upload is ended and the screen reset.

use crate::bytes::{be16, be32, u16_to_be};
use crate::session::{
    lemma_plan_view_push, plan_view, AckPolicy, Exchange, ExchangeView, Packet,
};
use crate::zoom65v3::abi::{
    build_report, report, reset_screen, upload_end, upload_length, upload_start,
};
use crate::zoom65v3::abi::Arg;
use crate::zoom65v3::checksum::{checksum, checksum_of};
use crate::zoom65v3::types::UploadChannel;
use vstd::prelude::*;
use vstd::slice::slice_subrange;

verus! {

/// Number of data bytes in a full chunk.
pub const CHUNK_SIZE: usize = 24;

/// First buffer length whose chunks can no longer all be numbered.
pub const MEDIA_LIMIT: usize = 1_572_864;

/// The exchange that writes `packet` and needs the keyboard's two success
/// bytes back.
pub open spec fn acknowledged(packet: Seq<u8>) -> ExchangeView {
    ExchangeView { packet, ack: AckPolicy::StatusBytes, progress: None }
}

/// Wrap a report into an exchange that needs the keyboard's success bytes.
pub fn request(packet: [u8; 33]) -> (exchange: Exchange)
    ensures
        exchange@ == acknowledged(packet@),
{
    Exchange { packet: Packet::Report(packet), ack: AckPolicy::StatusBytes, progress: None }
}

/// Number of chunks that a buffer of `len` bytes is cut into.
pub open spec fn chunk_count(len: nat) -> nat {
    (len + CHUNK_SIZE - 1) as nat / CHUNK_SIZE as nat
}

/// The `i`-th chunk of a buffer: 24 bytes, or what is left at the end.
pub open spec fn chunk(data: Seq<u8>, i: int) -> Seq<u8> {
    data.subrange(
        CHUNK_SIZE * i,
        if CHUNK_SIZE * i + CHUNK_SIZE <= data.len() {
            CHUNK_SIZE * i + CHUNK_SIZE
        } else {
            data.len() as int
        },
    )
}

/// Number of bytes in the `i`-th chunk of a buffer of `len` bytes.
pub open spec fn chunk_len(len: nat, i: int) -> int {
    if CHUNK_SIZE * i + CHUNK_SIZE <= len {
        CHUNK_SIZE as int
    } else {
        len - CHUNK_SIZE * i
    }
}

/// Zero bytes that follow the `i`-th chunk. Only the short last chunk of a
/// gif is padded, up to the next multiple of four bytes.
pub open spec fn padding(channel: UploadChannel, len: nat, i: int) -> nat {
    if channel == UploadChannel::Gif && i == len / CHUNK_SIZE as nat {
        ((4 - (len % CHUNK_SIZE as nat) % 4) % 4) as nat
    } else {
        0
    }
}

/// `n` zero bytes.
pub open spec fn zeros(n: nat) -> Seq<u8> {
    Seq::new(n, |i: int| 0u8)
}

/// What a chunk report carries in front of its checksum: the chunk's index
/// (big-endian), the chunk, the padding.
pub open spec fn chunk_body(index: u16, piece: Seq<u8>, pad: nat) -> Seq<u8> {
    be16(index) + piece + zeros(pad)
}

/// The checksum of a chunk report. It covers the body and the two zero
/// bytes behind it.
pub open spec fn chunk_checksum(index: u16, piece: Seq<u8>, pad: nat) -> Seq<u8> {
    be32(checksum_of(chunk_body(index, piece, pad) + zeros(2)))
}

/// The report that carries a chunk. Its length byte counts the body, padding
/// included, and the four bytes of the checksum behind it.
pub open spec fn chunk_report(index: u16, piece: Seq<u8>, pad: nat) -> Seq<u8> {
    report(chunk_body(index, piece, pad) + chunk_checksum(index, piece, pad))
}

/// The exchange that carries the `i`-th chunk. Progress is reported as the
/// chunk's index.
pub open spec fn chunk_exchange(data: Seq<u8>, channel: UploadChannel, i: int) -> ExchangeView {
    ExchangeView {
        packet: chunk_report(i as u16, chunk(data, i), padding(channel, data.len(), i)),
        ack: AckPolicy::StatusBytes,
        progress: Some(i as usize),
    }
}

/// The exchange that ends an upload of `count` chunks. Progress is reported
/// as the number of chunks.
pub open spec fn end_exchange(count: nat) -> ExchangeView {
    ExchangeView {
        packet: report(seq![165u8, 2u8, 241u8, 1u8]),
        ack: AckPolicy::StatusBytes,
        progress: Some(count as usize),
    }
}

/// The exchanges of an upload: the start on the channel, the length, one
/// exchange for each chunk in order, the end, and a reset of the screen.
pub open spec fn upload_plan(data: Seq<u8>, channel: UploadChannel) -> Seq<ExchangeView> {
    let count = chunk_count(data.len());
    Seq::new(
        count + 4,
        |k: int|
            if k == 0 {
                acknowledged(report(seq![165u8, 2u8, 240u8] + channel.wire()))
            } else if k == 1 {
                acknowledged(report(seq![165u8, 2u8, 208u8] + be32(data.len() as u32)))
            } else if k < count + 2 {
                chunk_exchange(data, channel, k - 2)
            } else if k == count + 2 {
                end_exchange(count)
            } else {
                acknowledged(report(seq![165u8, 1u8, 255u8]))
            },
    )
}

/// An upload reports progress once for each chunk and once for its end, with
/// the numbers 0, 1, ... up to the number of chunks, and for nothing else.
pub proof fn lemma_progress_counts_up(data: Seq<u8>, channel: UploadChannel)
    requires
        data.len() < MEDIA_LIMIT,
    ensures
        upload_plan(data, channel).len() == chunk_count(data.len()) + 4,
        forall|i: int|
            0 <= i <= chunk_count(data.len()) ==> (#[trigger] upload_plan(data, channel)[i
                + 2]).progress == Some(i as usize),
        upload_plan(data, channel)[0].progress is None,
        upload_plan(data, channel)[1].progress is None,
        upload_plan(data, channel)[chunk_count(data.len()) as int + 3].progress is None,
{
}

/// With its padding, and with the two index bytes in front and two zero
/// bytes behind, every chunk of a gif is a whole number of 32-bit words; the
/// padding is never counted as data.
pub proof fn lemma_padding_aligns(len: nat, i: int)
    requires
        0 <= i < chunk_count(len),
    ensures
        padding(UploadChannel::Gif, len, i) < 4,
        (2 + chunk_len(len, i) + padding(UploadChannel::Gif, len, i) + 2) % 4 == 0,
        0 < chunk_len(len, i),
        chunk_len(len, i) + padding(UploadChannel::Gif, len, i) <= CHUNK_SIZE,
        padding(UploadChannel::Image, len, i) == 0,
{
}

/// The chunks are as long as `chunk_len` says.
pub proof fn lemma_chunk_len(data: Seq<u8>, i: int)
    requires
        0 <= i < chunk_count(data.len()),
    ensures
        chunk(data, i).len() == chunk_len(data.len(), i),
{
}

/// Build the report that carries one chunk.
pub fn chunk_packet(index: u16, piece: &[u8], pad: usize) -> (packet: [u8; 33])
    requires
        piece.len() + pad <= CHUNK_SIZE,
    ensures
        packet@ == chunk_report(index, piece@, pad as nat),
{
    let idx = u16_to_be(index);
    let mut body: Vec<u8> = Vec::new();
    body.push(idx[0]);
    body.push(idx[1]);
    let mut i: usize = 0;
    while i < piece.len()
        invariant
            i <= piece.len(),
            body@ == be16(index) + piece@.take(i as int),
        decreases piece.len() - i,
    {
        body.push(piece[i]);
        assert(piece@.take(i + 1) =~= piece@.take(i as int).push(piece[i as int]));
        assert(body@ =~= be16(index) + piece@.take(i + 1));
        i = i + 1;
    }
    assert(piece@.take(piece.len() as int) =~= piece@);
    let mut p: usize = 0;
    while p < pad
        invariant
            p <= pad,
            body@ == chunk_body(index, piece@, p as nat),
        decreases pad - p,
    {
        body.push(0);
        assert(body@ =~= chunk_body(index, piece@, (p + 1) as nat));
        p = p + 1;
    }
    let mut covered = body.clone();
    covered.push(0);
    covered.push(0);
    assert(covered@ =~= chunk_body(index, piece@, pad as nat) + zeros(2));
    let sum = checksum(covered.as_slice());
    body.push(sum[0]);
    body.push(sum[1]);
    body.push(sum[2]);
    body.push(sum[3]);
    assert(body@ =~= chunk_body(index, piece@, pad as nat) + chunk_checksum(
        index,
        piece@,
        pad as nat,
    ));
    build_report(body.as_slice())
}

/// Cut an encoded buffer into the exchanges that upload it on a channel.
pub fn upload_reports(data: &[u8], channel: UploadChannel) -> (plan: Vec<Exchange>)
    requires
        data.len() < MEDIA_LIMIT,
    ensures
        plan_view(plan@) == upload_plan(data@, channel),
{
    let ghost whole = upload_plan(data@, channel);
    let count = (data.len() + (CHUNK_SIZE - 1)) / CHUNK_SIZE;
    let mut plan: Vec<Exchange> = Vec::new();

    let start = request(upload_start(channel));
    proof {
        lemma_plan_view_push(plan@, start);
        assert(plan_view(plan@.push(start)) =~= whole.take(1));
    }
    plan.push(start);

    let length = request(upload_length(data.len() as u32));
    proof {
        lemma_plan_view_push(plan@, length);
        assert(whole.take(1).push(length@) =~= whole.take(2));
    }
    plan.push(length);

    let is_gif = match channel {
        UploadChannel::Gif => true,
        UploadChannel::Image => false,
    };
    let mut i: usize = 0;
    while i < count
        invariant
            i <= count,
            count == chunk_count(data@.len()),
            data.len() < MEDIA_LIMIT,
            is_gif == (channel == UploadChannel::Gif),
            whole == upload_plan(data@, channel),
            plan_view(plan@) == whole.take(i + 2),
        decreases count - i,
    {
        let begin = i * CHUNK_SIZE;
        let end = if begin + CHUNK_SIZE <= data.len() {
            begin + CHUNK_SIZE
        } else {
            data.len()
        };
        let piece = slice_subrange(data, begin, end);
        // Images are always aligned; the last chunk of a gif is padded so
        // that the checksum runs over whole 32-bit words.
        let pad: usize = if is_gif && i == data.len() / CHUNK_SIZE {
            (4 - (data.len() % CHUNK_SIZE) % 4) % 4
        } else {
            0
        };
        let packet = chunk_packet(i as u16, piece, pad);
        let exchange = Exchange {
            packet: Packet::Report(packet),
            ack: AckPolicy::StatusBytes,
            progress: Some(i),
        };
        proof {
            assert(piece@ =~= chunk(data@, i as int));
            assert(pad == padding(channel, data@.len(), i as int));
            assert(exchange@ == chunk_exchange(data@, channel, i as int));
            assert(whole[i + 2] == chunk_exchange(data@, channel, i as int));
            lemma_plan_view_push(plan@, exchange);
            assert(whole.take(i + 2).push(exchange@) =~= whole.take(i + 3));
        }
        plan.push(exchange);
        i = i + 1;
    }

    let finish = Exchange {
        packet: Packet::Report(upload_end()),
        ack: AckPolicy::StatusBytes,
        progress: Some(count),
    };
    proof {
        assert(finish@ == end_exchange(count as nat));
        assert(whole[count + 2] == end_exchange(count as nat));
        lemma_plan_view_push(plan@, finish);
        assert(whole.take(count + 2).push(finish@) =~= whole.take(count + 3));
    }
    plan.push(finish);

    let reset = request(reset_screen());
    proof {
        lemma_plan_view_push(plan@, reset);
        assert(whole.take(count + 3).push(reset@) =~= whole);
    }
    plan.push(reset);
    plan
}

} // verus!
