//! The transfer of a level: a start, the data in blocks of 1024 bytes, and
//! an end that gives the level's size.

use crate::packets::{Outgoing, OutgoingView, Vector3, CHUNK_WIDTH};
use vstd::prelude::*;

verus! {

/// How many blocks the data takes. Data of no bytes still takes one block,
/// so that the transfer has a block that says it is complete.
pub open spec fn chunk_count(length: int) -> int {
    if length <= 0 {
        1
    } else {
        (length + CHUNK_WIDTH - 1) / (CHUNK_WIDTH as int)
    }
}

/// How many bytes of the data have been sent after the block `index`.
pub open spec fn sent_after(length: int, index: int) -> int {
    if (index + 1) * CHUNK_WIDTH <= length {
        (index + 1) * CHUNK_WIDTH
    } else {
        length
    }
}

/// The bytes of the block `index`: those of the data from `index * 1024`
/// on, then zeros up to the full width.
pub open spec fn chunk_bytes(data: Seq<u8>, index: int) -> Seq<u8> {
    Seq::new(
        CHUNK_WIDTH as nat,
        |i: int|
            if index * CHUNK_WIDTH + i < data.len() {
                data[index * CHUNK_WIDTH + i]
            } else {
                0u8
            },
    )
}

/// The share of the data, in hundredths, that has been sent after the block
/// `index`.
pub open spec fn percent_after(length: int, index: int) -> int {
    if length <= 0 {
        100
    } else {
        sent_after(length, index) * 100 / length
    }
}

/// The packet that carries the block `index` of the data.
pub open spec fn chunk_of(data: Seq<u8>, index: int) -> OutgoingView {
    OutgoingView::LevelDataChunk {
        data_length: (sent_after(data.len() as int, index) - index * CHUNK_WIDTH) as u16,
        data_chunk: chunk_bytes(data, index),
        percent_complete: percent_after(data.len() as int, index) as u8,
    }
}

/// The packets of a whole transfer.
pub open spec fn transfer_of(data: Seq<u8>, size: Vector3<u16>) -> Seq<OutgoingView> {
    seq![OutgoingView::LevelInit] + Seq::new(
        chunk_count(data.len() as int) as nat,
        |index: int| chunk_of(data, index),
    ) + seq![OutgoingView::LevelFinalize { size }]
}

/// What a list of packets says.
pub open spec fn packets_of(packets: Seq<Outgoing>) -> Seq<OutgoingView> {
    packets.map_values(|packet: Outgoing| packet@)
}

/// Every block of a transfer holds between none and 1024 bytes of the data,
/// the share that is sent never goes back, and the last block says that
/// all is sent.
pub proof fn lemma_transfer_completes(length: int, index: int)
    requires
        0 <= length,
        0 <= index < chunk_count(length),
    ensures
        index * CHUNK_WIDTH <= sent_after(length, index) <= length,
        sent_after(length, index) - index * CHUNK_WIDTH <= CHUNK_WIDTH,
        percent_after(length, index) <= 100,
        index + 1 == chunk_count(length) ==> sent_after(length, index) == length
            && percent_after(length, index) == 100,
        index + 1 < chunk_count(length) ==> sent_after(length, index) == (index + 1) * CHUNK_WIDTH
            && percent_after(length, index) <= percent_after(length, index + 1),
{
    let width = CHUNK_WIDTH as int;
    let count = chunk_count(length);
    if length > 0 {
        assert(count * width <= length + width - 1 && length + width - 1 < count * width + width)
            by (nonlinear_arith)
            requires
                count == (length + width - 1) / width,
                width == 1024,
        ;
        assert((index + 1) * width <= count * width) by (nonlinear_arith)
            requires
                index + 1 <= count,
                width > 0,
        ;
        assert(index * width + width == (index + 1) * width) by (nonlinear_arith);
        assert((index + 2) * width == (index + 1) * width + width) by (nonlinear_arith);
        let sent = sent_after(length, index);
        assert(sent * 100 / length <= 100) by (nonlinear_arith)
            requires
                0 <= sent <= length,
                length > 0,
        ;
        if index + 1 == count {
            assert((length * 100) / length == 100) by (nonlinear_arith)
                requires
                    length > 0,
            ;
        } else {
            assert((index + 2) * width <= count * width) by (nonlinear_arith)
                requires
                    index + 2 <= count,
                    width > 0,
            ;
            let next = sent_after(length, index + 1);
            assert(sent * 100 / length <= next * 100 / length)
                by (nonlinear_arith)
                requires
                    0 <= sent <= next,
                    length > 0,
            ;
        }
    }
}

/// The packets that transfer a level: the start, the data in blocks, and
/// the end with the level's size.
pub fn level_packets(data: &[u8], size: Vector3<u16>) -> (packets: Vec<Outgoing>)
    ensures
        packets_of(packets@) == transfer_of(data@, size),
{
    let length = data.len();
    let mut packets: Vec<Outgoing> = Vec::new();
    packets.push(Outgoing::LevelInit);
    let mut index: usize = 0;
    let mut offset: usize = 0;
    let ghost count = chunk_count(length as int);
    assert(packets_of(packets@) =~= seq![OutgoingView::LevelInit] + Seq::new(
        0,
        |k: int| chunk_of(data@, k),
    ));
    loop
        invariant_except_break
            index < count,
            offset == index * CHUNK_WIDTH,
        invariant
            length == data@.len(),
            count == chunk_count(length as int),
            index <= count,
            offset <= length,
            packets_of(packets@) == seq![OutgoingView::LevelInit] + Seq::new(
                index as nat,
                |k: int| chunk_of(data@, k),
            ),
        ensures
            index == count,
        decreases count - index,
    {
        proof {
            lemma_transfer_completes(length as int, index as int);
            assert(index * CHUNK_WIDTH + CHUNK_WIDTH == (index + 1) * CHUNK_WIDTH)
                by (nonlinear_arith);
        }
        let taken: usize = if length - offset >= CHUNK_WIDTH {
            CHUNK_WIDTH
        } else {
            length - offset
        };
        let mut chunk: [u8; 1024] = [0u8; 1024];
        let mut at: usize = 0;
        while at < taken
            invariant
                at <= taken <= CHUNK_WIDTH,
                offset + taken <= length,
                length == data@.len(),
                forall|i: int| 0 <= i < at ==> chunk@[i] == data@[offset + i],
                forall|i: int| at <= i < CHUNK_WIDTH ==> chunk@[i] == 0,
            decreases taken - at,
        {
            chunk[at] = data[offset + at];
            at = at + 1;
        }
        assert(chunk@ =~= chunk_bytes(data@, index as int));
        let sent: usize = offset + taken;
        let percent: u8 = if length == 0 {
            100
        } else {
            let scaled: u128 = sent as u128 * 100;
            (scaled / (length as u128)) as u8
        };
        let ghost before = packets_of(packets@);
        packets.push(
            Outgoing::LevelDataChunk {
                data_length: taken as u16,
                data_chunk: chunk,
                percent_complete: percent,
            },
        );
        assert(packets_of(packets@) =~= before.push(chunk_of(data@, index as int)));
        assert(packets_of(packets@) =~= seq![OutgoingView::LevelInit] + Seq::new(
            (index + 1) as nat,
            |k: int| chunk_of(data@, k),
        ));
        index = index + 1;
        offset = sent;
        if offset >= length {
            break;
        }
    }
    let ghost before = packets_of(packets@);
    packets.push(Outgoing::LevelFinalize { size });
    assert(packets_of(packets@) =~= before.push(OutgoingView::LevelFinalize { size }));
    assert(packets_of(packets@) =~= transfer_of(data@, size));
    packets
}

} // verus!
