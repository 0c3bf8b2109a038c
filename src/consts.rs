use vstd::prelude::*;

verus! {

/// Number of data blocks in one packet.
pub const BLOCKS_PER_PACKET: usize = 12;

/// Number of channels in one data block.
pub const CHANNELS_PER_BLOCK: usize = 32;

/// Size in bytes of one data packet.
pub const PACKET_SIZE: usize = 1206;

/// Size in bytes of one data block.
pub const BLOCK_SIZE: usize = 100;

/// The marker that starts each data block.
pub const BLOCK_MARKER: u16 = 0xFFEE;

/// Duration of one full firing sequence, in nanoseconds.
pub const FIRING_PERIOD: u64 = 55296;

/// Duration of one laser slot within a firing, in nanoseconds.
pub const CHANNEL_PERIOD: u64 = 2304;

/// One full turn, in hundredths of a degree.
pub const FULL_TURN: u32 = 36000;

} // verus!
