//! ArtNet framing: splitting a frame's channels into universes, encoding each
//! universe as an ArtDmx packet, and the per-animation transmission schedule.
use vstd::prelude::*;
use crate::animation::Animation;
use crate::frame::AnimationFrame;

verus! {

/// Channels sent in one universe; the protocol allows 512, two are kept free.
pub const CHANNELS_PER_SHARD: usize = 510;

/// UDP port of ArtNet receivers.
pub const ARTNET_PORT: u16 = 6454;

/// `ceil(total / 510)`: the number of universes a frame of `total` channels takes.
pub open spec fn shard_count(total: int) -> int {
    (total + 509) / 510
}

/// First channel of shard `u`.
pub open spec fn shard_start(u: int) -> int {
    510 * u
}

/// One past the last channel of shard `u` of a frame of `total` channels.
pub open spec fn shard_end(total: int, u: int) -> int {
    if 510 * (u + 1) < total {
        510 * (u + 1)
    } else {
        total
    }
}

/// The channel bytes of shard `u`.
pub open spec fn shard_of(data: Seq<u8>, u: int) -> Seq<u8> {
    data.subrange(shard_start(u), shard_end(data.len() as int, u))
}

/// The ArtDmx (OpOutput) packet for one universe: the `Art-Net` header, the
/// opcode, protocol version 14, the sequence number, physical port 0, the
/// 15-bit port address (little endian), the data length rounded up to even
/// (big endian), and the data padded with a zero byte to even length.
pub open spec fn output_packet(sequence: u8, port: u16, data: Seq<u8>) -> Seq<u8> {
    let len: int = if data.len() % 2 == 1 {
        data.len() as int + 1
    } else {
        data.len() as int
    };
    seq![65u8, 114, 116, 45, 78, 101, 116, 0] + seq![0x00u8, 0x50] + seq![0u8, 14] + seq![
        sequence,
        0u8,
    ] + seq![(port % 256) as u8, (port / 256) as u8] + seq![(len / 256) as u8, (len % 256) as u8]
        + data + if data.len() % 2 == 1 {
        seq![0u8]
    } else {
        Seq::<u8>::empty()
    }
}

#[verifier::external_type_specification]
#[verifier::external_body]
pub struct ExArtNetError(artnet_protocol::Error);

/// Relies on artnet_protocol's `ArtCommand::write_to_buffer` on an
/// `ArtCommand::Output` with default version and physical port: for 1 to 512
/// data bytes and a port address below 32768 it yields the packet above.
#[verifier::external_body]
fn art_dmx_packet(data: Vec<u8>, sequence: u8, port: u16) -> (r: Result<Vec<u8>, artnet_protocol::Error>)
    requires
        1 <= data@.len() <= 512,
        port <= 32767,
    ensures
        r is Ok,
        r->Ok_0@ == output_packet(sequence, port, data@),
{
    let port_address = artnet_protocol::PortAddress::try_from(port)?;
    artnet_protocol::ArtCommand::Output(
        artnet_protocol::Output {
            data: data.into(),
            sequence,
            port_address,
            ..artnet_protocol::Output::default()
        },
    ).write_to_buffer()
}

/// The number of universes a frame of `total_channels` channels takes.
pub fn shards(total_channels: usize) -> (r: usize)
    ensures
        r == shard_count(total_channels as int),
{
    (total_channels / CHANNELS_PER_SHARD) + if total_channels % CHANNELS_PER_SHARD == 0 {
        0
    } else {
        1
    }
}

/// Splits a frame's channels into universes of at most 510 channels.
pub fn shard_frame(data: &Vec<u8>) -> (r: Vec<Vec<u8>>)
    ensures
        r@.len() == shard_count(data@.len() as int),
        forall|u: int| 0 <= u < r@.len() ==> #[trigger] r@[u]@ == shard_of(data@, u),
{
    let total = data.len();
    let count = shards(total);
    let mut result: Vec<Vec<u8>> = Vec::new();
    let mut u: usize = 0;
    while u < count
        invariant
            total == data@.len(),
            count == shard_count(total as int),
            u <= count,
            result@.len() == u,
            forall|i: int| 0 <= i < u ==> #[trigger] result@[i]@ == shard_of(data@, i),
        decreases count - u,
    {
        assert(u * 510 < total) by (nonlinear_arith)
            requires
                u < (total + 509) / 510,
        ;
        let start = u * CHANNELS_PER_SHARD;
        let end = if total - start > CHANNELS_PER_SHARD {
            start + CHANNELS_PER_SHARD
        } else {
            total
        };
        let mut shard: Vec<u8> = Vec::new();
        let mut j = start;
        while j < end
            invariant
                start <= j <= end <= total == data@.len(),
                shard@ == data@.subrange(start as int, j as int),
            decreases end - j,
        {
            shard.push(data[j]);
            j = j + 1;
            assert(shard@ =~= data@.subrange(start as int, j as int));
        }
        result.push(shard);
        u = u + 1;
    }
    result
}

/// The ArtDmx packets of one frame: one per universe, universe `u` carrying
/// shard `u` with port address `u`, all with the same sequence number.
pub fn calculate_sharded_commands(frame: &AnimationFrame, sequence_counter: u8) -> (r: Vec<Vec<u8>>)
    requires
        frame.data@.len() <= 510 * 32768,
    ensures
        r@.len() == shard_count(frame.data@.len() as int),
        forall|u: int|
            0 <= u < r@.len() ==> #[trigger] r@[u]@ == output_packet(
                sequence_counter,
                u as u16,
                shard_of(frame.data@, u),
            ),
{
    let shards = shard_frame(&frame.data);
    let mut commands: Vec<Vec<u8>> = Vec::new();
    let mut u: usize = 0;
    while u < shards.len()
        invariant
            shards@.len() == shard_count(frame.data@.len() as int),
            frame.data@.len() <= 510 * 32768,
            forall|i: int| 0 <= i < shards@.len() ==> #[trigger] shards@[i]@ == shard_of(frame.data@, i),
            u <= shards@.len(),
            commands@.len() == u,
            forall|i: int|
                0 <= i < u ==> #[trigger] commands@[i]@ == output_packet(
                    sequence_counter,
                    i as u16,
                    shard_of(frame.data@, i),
                ),
        decreases shards@.len() - u,
    {
        proof {
            lemma_shard_sizes(frame.data@.len() as int, u as int);
        }
        let shard = shards[u].clone();
        match art_dmx_packet(shard, sequence_counter, u as u16) {
            Ok(bytes) => {
                commands.push(bytes);
            },
            Err(_) => {
                assert(false);
            },
        }
        u = u + 1;
    }
    commands
}

/// Shard `u` of a frame holds between 1 and 510 channels.
pub proof fn lemma_shard_sizes(total: int, u: int)
    requires
        0 <= u < shard_count(total),
    ensures
        1 <= shard_end(total, u) - shard_start(u) <= 510,
        u < 32768 || total > 510 * 32768,
{
}

/// The universes of a frame of `total` channels number `ceil(total / 510)`;
/// every universe but the last is full, and the last holds
/// `total − 510·(shards − 1)` channels.
pub proof fn lemma_shard_count(total: int)
    requires
        total > 0,
    ensures
        shard_count(total) * 510 >= total,
        (shard_count(total) - 1) * 510 < total,
        forall|u: int| 0 <= u < shard_count(total) - 1 ==> shard_end(total, u) - shard_start(u) == 510,
        shard_end(total, shard_count(total) - 1) - shard_start(shard_count(total) - 1) == total - 510 * (
        shard_count(total) - 1),
{
}

} // verus!
