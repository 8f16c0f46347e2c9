//! Framing of media uploads: the buffer is cut into chunks of sixteen bytes,
//! each sent in a frame of its own under a running page index, and a last
//! frame ends the upload.

use crate::board::BoardError;
use crate::session::{
    lemma_plan_view_push, plan_view, AckPolicy, Exchange, ExchangeView, Packet,
};
use crate::tiga::abi::{
    frame, image_chunk, image_chunk_payload, image_end, image_end_payload, CHUNK_SIZE, CMD_IMAGE,
    SUB_TYPE_COMMAND,
};
use vstd::prelude::*;
use vstd::slice::slice_subrange;

verus! {

/// Page index that marks the end of an upload; data pages stay below it.
pub const END_OF_UPLOAD: u16 = 0xFFFF;

/// Largest buffer whose pages can all be numbered: 65535 chunks.
pub const MAX_UPLOAD: usize = 1_048_560;

/// What is said of a buffer that is too large.
pub open spec fn too_large() -> BoardError {
    BoardError::MediaTooLarge("media does not fit into 65535 pages")
}

/// Number of chunks that a buffer of `len` bytes is cut into.
pub open spec fn chunk_count(len: nat) -> nat {
    (len + CHUNK_SIZE - 1) as nat / CHUNK_SIZE as nat
}

/// The `i`-th chunk of a buffer: sixteen bytes, or what is left at the end.
pub open spec fn chunk(data: Seq<u8>, i: int) -> Seq<u8> {
    data.subrange(
        CHUNK_SIZE * i,
        if CHUNK_SIZE * i + CHUNK_SIZE <= data.len() {
            CHUNK_SIZE * i + CHUNK_SIZE
        } else {
            data.len() as int
        },
    )
}

/// The exchange that carries the `i`-th chunk. Progress is reported as the
/// chunk's index.
pub open spec fn chunk_exchange(data: Seq<u8>, i: int) -> ExchangeView {
    ExchangeView {
        packet: frame(CMD_IMAGE, image_chunk_payload(i as u16, chunk(data, i)), SUB_TYPE_COMMAND),
        ack: AckPolicy::FireAndForget,
        progress: Some(i as usize),
    }
}

/// The exchange that ends an upload of `count` chunks. Progress is reported
/// as the number of chunks.
pub open spec fn end_exchange(count: nat) -> ExchangeView {
    ExchangeView {
        packet: frame(CMD_IMAGE, image_end_payload(), SUB_TYPE_COMMAND),
        ack: AckPolicy::FireAndForget,
        progress: Some(count as usize),
    }
}

/// The exchanges of an upload: one for each chunk, in order, then the end.
pub open spec fn upload_plan(data: Seq<u8>) -> Seq<ExchangeView> {
    Seq::new(
        chunk_count(data.len()) + 1,
        |i: int|
            if i < chunk_count(data.len()) {
                chunk_exchange(data, i)
            } else {
                end_exchange(chunk_count(data.len()))
            },
    )
}

/// The exchanges of an upload or the refusal of a buffer that is too large.
pub open spec fn upload(data: Seq<u8>) -> Result<Seq<ExchangeView>, BoardError> {
    if data.len() > MAX_UPLOAD {
        Err(too_large())
    } else {
        Ok(upload_plan(data))
    }
}

/// An upload reports progress once for each chunk and once for the end of
/// the upload: with the numbers 0, 1, ... up to the number of chunks.
pub proof fn lemma_progress_counts_up(data: Seq<u8>)
    requires
        data.len() <= MAX_UPLOAD,
    ensures
        upload_plan(data).len() == chunk_count(data.len()) + 1,
        forall|i: int|
            0 <= i <= chunk_count(data.len()) ==> (#[trigger] upload_plan(data)[i]).progress
                == Some(i as usize),
{
}

/// The chunks of a buffer, put together again in order, are the buffer.
pub proof fn lemma_chunks_cover_buffer(data: Seq<u8>, i: int)
    requires
        0 <= i < chunk_count(data.len()),
    ensures
        chunk(data, i).len() <= CHUNK_SIZE,
        chunk(data, i).len() > 0,
        forall|j: int|
            0 <= j < chunk(data, i).len() ==> chunk(data, i)[j] == data[CHUNK_SIZE * i + j],
        i + 1 < chunk_count(data.len()) ==> chunk(data, i).len() == CHUNK_SIZE,
        i + 1 == chunk_count(data.len()) ==> CHUNK_SIZE * i + chunk(data, i).len() == data.len(),
{
}

/// Cut an encoded buffer into the exchanges that upload it.
pub fn upload_frames(data: &[u8]) -> (outcome: Result<Vec<Exchange>, BoardError>)
    ensures
        outcome is Err ==> outcome == Err::<Vec<Exchange>, BoardError>(too_large()),
        outcome is Err <==> data.len() > MAX_UPLOAD,
        outcome matches Ok(plan) ==> plan_view(plan@) == upload_plan(data@),
{
    if data.len() > MAX_UPLOAD {
        return Err(BoardError::MediaTooLarge("media does not fit into 65535 pages"));
    }
    let page_count = (data.len() + (CHUNK_SIZE - 1)) / CHUNK_SIZE;
    let mut plan: Vec<Exchange> = Vec::new();
    let mut page: usize = 0;
    while page < page_count
        invariant
            page <= page_count,
            page_count == chunk_count(data@.len()),
            data.len() <= MAX_UPLOAD,
            plan_view(plan@) == upload_plan(data@).take(page as int),
        decreases page_count - page,
    {
        let start = page * CHUNK_SIZE;
        let end = if start + CHUNK_SIZE <= data.len() {
            start + CHUNK_SIZE
        } else {
            data.len()
        };
        let piece = slice_subrange(data, start, end);
        let packet = image_chunk(page as u16, piece);
        let exchange = Exchange {
            packet: Packet::Frame(packet),
            ack: AckPolicy::FireAndForget,
            progress: Some(page),
        };
        proof {
            assert(piece@ =~= chunk(data@, page as int));
            assert(exchange@ == chunk_exchange(data@, page as int));
            lemma_plan_view_push(plan@, exchange);
            assert(upload_plan(data@)[page as int] == chunk_exchange(data@, page as int));
            assert(upload_plan(data@).take(page as int).push(exchange@) =~= upload_plan(
                data@,
            ).take(page + 1));
        }
        plan.push(exchange);
        page = page + 1;
    }
    let last = Exchange {
        packet: Packet::Frame(image_end()),
        ack: AckPolicy::FireAndForget,
        progress: Some(page_count),
    };
    proof {
        assert(last@ == end_exchange(page_count as nat));
        lemma_plan_view_push(plan@, last);
        assert(upload_plan(data@)[page_count as int] == end_exchange(page_count as nat));
        assert(upload_plan(data@).take(page_count as int).push(last@) =~= upload_plan(data@));
    }
    plan.push(last);
    Ok(plan)
}

} // verus!
