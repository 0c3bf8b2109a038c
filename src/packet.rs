//! The data packet: its wire layout, its decoding and its encoding.
use vstd::prelude::*;

use crate::consts::{BLOCK_MARKER, BLOCK_SIZE, BLOCKS_PER_PACKET, CHANNELS_PER_BLOCK, PACKET_SIZE};
use crate::error::Error;
use vstd::arithmetic::div_mod::{lemma_fundamental_div_mod, lemma_fundamental_div_mod_converse};

verus! {

/// One laser return: a raw distance count and an intensity.
#[derive(Clone, Copy, Debug, PartialEq, Eq, Structural)]
pub struct Channel {
    pub distance: u16,
    pub intensity: u8,
}

/// One data block: an azimuth in hundredths of a degree and its channels.
#[derive(Clone, Debug, PartialEq, Eq)]
pub struct Block {
    pub azimuth: u16,
    pub channels: Vec<Channel>,
}

/// A decoded data packet.
#[derive(Clone, Debug, PartialEq, Eq)]
pub struct DataPacket {
    pub blocks: Vec<Block>,
    /// Microseconds since the top of the hour.
    pub timestamp: u32,
    pub return_mode: u8,
    pub product_id: u8,
}

/// The mathematical value of a block.
#[verifier::ext_equal]
pub struct BlockView {
    pub azimuth: u16,
    pub channels: Seq<Channel>,
}

/// The mathematical value of a packet.
#[verifier::ext_equal]
pub struct PacketView {
    pub blocks: Seq<BlockView>,
    pub timestamp: u32,
    pub return_mode: u8,
    pub product_id: u8,
}

impl View for Block {
    type V = BlockView;

    open spec fn view(&self) -> BlockView {
        BlockView { azimuth: self.azimuth, channels: self.channels@ }
    }
}

impl View for DataPacket {
    type V = PacketView;

    open spec fn view(&self) -> PacketView {
        PacketView {
            blocks: self.blocks@.map_values(|b: Block| b@),
            timestamp: self.timestamp,
            return_mode: self.return_mode,
            product_id: self.product_id,
        }
    }
}

impl PacketView {
    /// Twelve blocks of thirty-two channels each.
    pub open spec fn wf(self) -> bool {
        &&& self.blocks.len() == BLOCKS_PER_PACKET
        &&& forall|k: int| 0 <= k < self.blocks.len() ==> #[trigger] self.blocks[k].channels.len()
            == CHANNELS_PER_BLOCK
    }
}

impl DataPacket {
    pub open spec fn wf(&self) -> bool {
        self@.wf()
    }
}

/// A little-endian 16-bit integer at offset `i`.
pub open spec fn le16(b: Seq<u8>, i: int) -> int {
    b[i] + 256 * b[i + 1]
}

/// A little-endian 32-bit integer at offset `i`.
pub open spec fn le32(b: Seq<u8>, i: int) -> int {
    b[i] + 256 * b[i + 1] + 65536 * b[i + 2] + 16777216 * b[i + 3]
}

/// Offset of block `k` in a packet.
pub open spec fn block_offset(k: int) -> int {
    BLOCK_SIZE * k
}

/// Offset of channel `c` of block `k` in a packet.
pub open spec fn channel_offset(k: int, c: int) -> int {
    BLOCK_SIZE * k + 4 + 3 * c
}

/// Every block of `b` starts with the block marker.
pub open spec fn markers_ok(b: Seq<u8>) -> bool {
    forall|k: int| 0 <= k < BLOCKS_PER_PACKET ==> le16(b, #[trigger] block_offset(k)) == BLOCK_MARKER
}

pub open spec fn decode_channel(b: Seq<u8>, k: int, c: int) -> Channel {
    Channel {
        distance: le16(b, channel_offset(k, c)) as u16,
        intensity: b[channel_offset(k, c) + 2],
    }
}

pub open spec fn decode_block(b: Seq<u8>, k: int) -> BlockView {
    BlockView {
        azimuth: le16(b, block_offset(k) + 2) as u16,
        channels: Seq::new(CHANNELS_PER_BLOCK as nat, |c: int| decode_channel(b, k, c)),
    }
}

/// What a well-sized packet with good markers decodes to.
pub open spec fn decode_fields(b: Seq<u8>) -> PacketView {
    PacketView {
        blocks: Seq::new(BLOCKS_PER_PACKET as nat, |k: int| decode_block(b, k)),
        timestamp: le32(b, 1200) as u32,
        return_mode: b[1204],
        product_id: b[1205],
    }
}

/// The packet that the bytes `b` hold, if they hold one.
pub open spec fn decode(b: Seq<u8>) -> Option<PacketView> {
    if b.len() == PACKET_SIZE && markers_ok(b) {
        Some(decode_fields(b))
    } else {
        None
    }
}

/// Byte `o` (below 3) of channel `ch`.
pub open spec fn channel_byte(ch: Channel, o: int) -> u8 {
    if o == 0 {
        (ch.distance % 256) as u8
    } else if o == 1 {
        (ch.distance / 256) as u8
    } else {
        ch.intensity
    }
}

/// Byte `o` (below the block size) of block `blk`.
pub open spec fn block_byte(blk: BlockView, o: int) -> u8 {
    if o == 0 {
        0xEE
    } else if o == 1 {
        0xFF
    } else if o == 2 {
        (blk.azimuth % 256) as u8
    } else if o == 3 {
        (blk.azimuth / 256) as u8
    } else {
        channel_byte(blk.channels[(o - 4) / 3], (o - 4) % 3)
    }
}

/// Byte `i` of the encoding of `p`.
pub open spec fn packet_byte(p: PacketView, i: int) -> u8 {
    if i < 1200 {
        block_byte(p.blocks[i / 100], i % 100)
    } else if i == 1200 {
        (p.timestamp % 256) as u8
    } else if i == 1201 {
        ((p.timestamp / 256) % 256) as u8
    } else if i == 1202 {
        ((p.timestamp / 65536) % 256) as u8
    } else if i == 1203 {
        (p.timestamp / 16777216) as u8
    } else if i == 1204 {
        p.return_mode
    } else {
        p.product_id
    }
}

/// The wire encoding of `p`.
pub open spec fn encode(p: PacketView) -> Seq<u8> {
    Seq::new(PACKET_SIZE as nat, |i: int| packet_byte(p, i))
}

/// Reads a little-endian 16-bit integer.
fn read_u16(b: &[u8], i: usize) -> (r: u16)
    requires
        i + 1 < b@.len(),
    ensures
        r == le16(b@, i as int),
{
    b[i] as u16 + 256 * (b[i + 1] as u16)
}

impl DataPacket {
    /// Decodes a datagram: `PacketMalformed` unless it has the packet size and
    /// every block starts with the block marker.
    pub fn parse(bytes: &[u8]) -> (r: Result<DataPacket, Error>)
        ensures
            match r {
                Ok(p) => decode(bytes@) == Some(p@),
                Err(e) => decode(bytes@) is None && e == Error::PacketMalformed,
            },
    {
        if bytes.len() != PACKET_SIZE {
            return Err(Error::PacketMalformed);
        }
        let ghost b = bytes@;
        let mut blocks: Vec<Block> = Vec::new();
        let mut k: usize = 0;
        while k < BLOCKS_PER_PACKET
            invariant
                b == bytes@,
                b.len() == PACKET_SIZE,
                k <= BLOCKS_PER_PACKET,
                blocks@.len() == k,
                forall|j: int| 0 <= j < k ==> le16(b, #[trigger] block_offset(j)) == BLOCK_MARKER,
                forall|j: int| 0 <= j < k ==> (#[trigger] blocks@[j])@ == decode_block(b, j),
            decreases BLOCKS_PER_PACKET - k,
        {
            let base: usize = BLOCK_SIZE * k;
            let marker = read_u16(bytes, base);
            if marker != BLOCK_MARKER {
                assert(block_offset(k as int) == base);
                assert(le16(b, block_offset(k as int)) != BLOCK_MARKER);
                return Err(Error::PacketMalformed);
            }
            let azimuth = read_u16(bytes, base + 2);
            let mut channels: Vec<Channel> = Vec::new();
            let mut c: usize = 0;
            while c < CHANNELS_PER_BLOCK
                invariant
                    b == bytes@,
                    b.len() == PACKET_SIZE,
                    k < BLOCKS_PER_PACKET,
                    base == BLOCK_SIZE * k,
                    c <= CHANNELS_PER_BLOCK,
                    channels@.len() == c,
                    forall|j: int| 0 <= j < c ==> #[trigger] channels@[j] == decode_channel(b, k as int, j),
                decreases CHANNELS_PER_BLOCK - c,
            {
                let off: usize = base + 4 + 3 * c;
                let distance = read_u16(bytes, off);
                let intensity = bytes[off + 2];
                channels.push(Channel { distance, intensity });
                c = c + 1;
            }
            let ghost bv = decode_block(b, k as int);
            assert(channels@ =~= bv.channels);
            blocks.push(Block { azimuth, channels });
            k = k + 1;
        }
        let t0 = bytes[1200] as u32;
        let t1 = bytes[1201] as u32;
        let t2 = bytes[1202] as u32;
        let t3 = bytes[1203] as u32;
        let timestamp: u32 = t0 + 256 * t1 + 65536 * t2 + 16777216 * t3;
        let p = DataPacket { blocks, timestamp, return_mode: bytes[1204], product_id: bytes[1205] };
        assert(p@.blocks =~= decode_fields(b).blocks);
        Ok(p)
    }
}

/// Byte `100 k + 4 + 3 c + o` of an encoding is byte `o` of channel `c` of block `k`.
proof fn lemma_channel_byte(p: PacketView, k: int, c: int, o: int)
    requires
        0 <= k < 12,
        0 <= c < 32,
        0 <= o < 3,
    ensures
        packet_byte(p, channel_offset(k, c) + o) == channel_byte(p.blocks[k].channels[c], o),
{
    let i = channel_offset(k, c) + o;
    lemma_fundamental_div_mod_converse(i, 100, k, 4 + 3 * c + o);
    lemma_fundamental_div_mod_converse(3 * c + o, 3, c, o);
}

/// Byte `100 k + o` of an encoding, for `o` below 4, is byte `o` of block `k`.
proof fn lemma_block_head_byte(p: PacketView, k: int, o: int)
    requires
        0 <= k < 12,
        0 <= o < 4,
    ensures
        packet_byte(p, block_offset(k) + o) == block_byte(p.blocks[k], o),
{
    lemma_fundamental_div_mod_converse(block_offset(k) + o, 100, k, o);
}

/// The low and high byte of a 16-bit value give it back.
proof fn lemma_split16(x: u16)
    ensures
        (x % 256) as u8 + 256 * ((x / 256) as u8) == x,
{
    lemma_fundamental_div_mod(x as int, 256);
}

/// The four bytes of a 32-bit value give it back.
proof fn lemma_split32(t: u32)
    ensures
        (t % 256) as u8 + 256 * (((t / 256) % 256) as u8) + 65536 * (((t / 65536) % 256) as u8)
            + 16777216 * ((t / 16777216) as u8) == t,
{
    let a = t as int / 256;
    let b = a / 256;
    let c = b / 256;
    lemma_fundamental_div_mod(t as int, 256);
    lemma_fundamental_div_mod(a, 256);
    lemma_fundamental_div_mod(b, 256);
    vstd::arithmetic::div_mod::lemma_div_denominator(t as int, 256, 256);
    vstd::arithmetic::div_mod::lemma_div_denominator(a, 256, 256);
    vstd::arithmetic::div_mod::lemma_div_denominator(t as int, 65536, 256);
    assert(t as int / 65536 == b);
    assert(t as int / 16777216 == c);
    assert(c < 256);
}

/// Decoding the encoding of a well-formed packet gives the packet back.
pub proof fn lemma_decode_encode(p: PacketView)
    requires
        p.wf(),
    ensures
        decode(encode(p)) == Some(p),
{
    let e = encode(p);
    assert forall|k: int| 0 <= k < BLOCKS_PER_PACKET implies le16(e, #[trigger] block_offset(k))
        == BLOCK_MARKER by {
        lemma_block_head_byte(p, k, 0);
        lemma_block_head_byte(p, k, 1);
    }
    assert forall|k: int| 0 <= k < BLOCKS_PER_PACKET implies #[trigger] decode_block(e, k) == p.blocks[k] by {
        lemma_block_head_byte(p, k, 2);
        lemma_block_head_byte(p, k, 3);
        lemma_split16(p.blocks[k].azimuth);
        assert forall|c: int| 0 <= c < CHANNELS_PER_BLOCK implies #[trigger] decode_channel(e, k, c)
            == p.blocks[k].channels[c] by {
            lemma_channel_byte(p, k, c, 0);
            lemma_channel_byte(p, k, c, 1);
            lemma_channel_byte(p, k, c, 2);
            lemma_split16(p.blocks[k].channels[c].distance);
        }
        assert(decode_block(e, k).channels =~= p.blocks[k].channels);
    }
    lemma_split32(p.timestamp);
    assert(decode_fields(e).blocks =~= p.blocks);
    assert(decode_fields(e) =~= p);
}

impl DataPacket {
    /// Encodes the packet in its wire layout.
    pub fn serialize(&self) -> (r: Vec<u8>)
        requires
            self.wf(),
        ensures
            r@ == encode(self@),
    {
        let ghost p = self@;
        let mut out: Vec<u8> = Vec::new();
        let mut k: usize = 0;
        while k < BLOCKS_PER_PACKET
            invariant
                p == self@,
                p.wf(),
                k <= BLOCKS_PER_PACKET,
                out@.len() == BLOCK_SIZE * k,
                forall|i: int| 0 <= i < out@.len() ==> #[trigger] out@[i] == packet_byte(p, i),
            decreases BLOCKS_PER_PACKET - k,
        {
            let block = &self.blocks[k];
            assert(block@ == p.blocks[k as int]);
            proof {
                lemma_block_head_byte(p, k as int, 0);
                lemma_block_head_byte(p, k as int, 1);
                lemma_block_head_byte(p, k as int, 2);
                lemma_block_head_byte(p, k as int, 3);
            }
            out.push(0xEE);
            out.push(0xFF);
            out.push((block.azimuth % 256) as u8);
            out.push((block.azimuth / 256) as u8);
            let mut c: usize = 0;
            while c < CHANNELS_PER_BLOCK
                invariant
                    p == self@,
                    p.wf(),
                    k < BLOCKS_PER_PACKET,
                    block@ == p.blocks[k as int],
                    c <= CHANNELS_PER_BLOCK,
                    out@.len() == BLOCK_SIZE * k + 4 + 3 * c,
                    forall|i: int| 0 <= i < out@.len() ==> #[trigger] out@[i] == packet_byte(p, i),
                decreases CHANNELS_PER_BLOCK - c,
            {
                let ch = block.channels[c];
                proof {
                    lemma_channel_byte(p, k as int, c as int, 0);
                    lemma_channel_byte(p, k as int, c as int, 1);
                    lemma_channel_byte(p, k as int, c as int, 2);
                }
                out.push((ch.distance % 256) as u8);
                out.push((ch.distance / 256) as u8);
                out.push(ch.intensity);
                c = c + 1;
            }
            k = k + 1;
        }
        let t = self.timestamp;
        out.push((t % 256) as u8);
        out.push(((t / 256) % 256) as u8);
        out.push(((t / 65536) % 256) as u8);
        out.push((t / 16777216) as u8);
        out.push(self.return_mode);
        out.push(self.product_id);
        assert(out@ =~= encode(p));
        out
    }
}

} // verus!
