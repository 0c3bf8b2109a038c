//! Firings: the columns of laser returns that a packet holds, with their time
//! and the azimuth range they sweep.
use vstd::prelude::*;

use crate::batcher::AzimuthRange;
use crate::consts::{BLOCKS_PER_PACKET, CHANNELS_PER_BLOCK, FIRING_PERIOD, FULL_TURN};
use crate::error::Error;
use crate::format::{packet_format, FiringFormat};
use crate::packet::{Channel, DataPacket, PacketView};

verus! {

/// A half-open azimuth range `[start, end)` in hundredths of a degree; `end`
/// may lie below `start` when the range crosses 0°.
#[derive(Clone, Copy, Debug, PartialEq, Eq, Structural)]
pub struct AzimuthInterval {
    pub start: u32,
    pub end: u32,
}

impl AzimuthInterval {
    /// Both ends lie in `[0°, 360°)`.
    pub open spec fn wf(self) -> bool {
        self.start < FULL_TURN && self.end < FULL_TURN
    }
}

/// A single-return firing: one channel per laser.
#[derive(Clone, Debug, PartialEq, Eq)]
pub struct FiringSingle {
    /// Nanoseconds since the top of the hour.
    pub time: u64,
    pub azimuth_range: AzimuthInterval,
    pub channels: Vec<Channel>,
}

/// A dual-return firing: the strongest and the last return of each laser.
#[derive(Clone, Debug, PartialEq, Eq)]
pub struct FiringDual {
    /// Nanoseconds since the top of the hour.
    pub time: u64,
    pub azimuth_range: AzimuthInterval,
    pub channels_strongest: Vec<Channel>,
    pub channels_last: Vec<Channel>,
}

/// A firing of any of the four formats.
#[derive(Clone, Debug, PartialEq, Eq)]
pub enum FiringKind {
    Single16(FiringSingle),
    Single32(FiringSingle),
    Dual16(FiringDual),
    Dual32(FiringDual),
}

/// The azimuth of block `k`, reduced into `[0°, 360°)`.
pub open spec fn block_azimuth(p: PacketView, k: int) -> int {
    p.blocks[k].azimuth as int % (FULL_TURN as int)
}

/// The clockwise sweep from `a` to `b`, both in `[0°, 360°)`.
pub open spec fn sweep(a: int, b: int) -> int {
    (b - a + FULL_TURN) % (FULL_TURN as int)
}

/// The azimuth halfway along the sweep from `a` to `b`.
pub open spec fn mid_azimuth(a: int, b: int) -> int {
    (a + sweep(a, b) / 2) % (FULL_TURN as int)
}

/// The azimuth at which the sweep of block `k` ends: that of the block `step`
/// further on, or for the last one an extrapolation by the previous sweep.
pub open spec fn next_azimuth(p: PacketView, k: int, step: int) -> int {
    if k + step < BLOCKS_PER_PACKET {
        block_azimuth(p, k + step)
    } else {
        let a = block_azimuth(p, k);
        (a + sweep(block_azimuth(p, k - step), a)) % (FULL_TURN as int)
    }
}

/// The azimuth range of half `h` of the sweep of block `k`; with `halves` 1,
/// the whole sweep.
pub open spec fn firing_range(p: PacketView, k: int, step: int, halves: int, h: int) -> AzimuthInterval {
    let a = block_azimuth(p, k);
    let n = next_azimuth(p, k, step);
    if halves == 1 {
        AzimuthInterval { start: a as u32, end: n as u32 }
    } else if h == 0 {
        AzimuthInterval { start: a as u32, end: mid_azimuth(a, n) as u32 }
    } else {
        AzimuthInterval { start: mid_azimuth(a, n) as u32, end: n as u32 }
    }
}

/// The time of half `h` of slot `slot` of a packet, in nanoseconds.
pub open spec fn firing_time(p: PacketView, slot: int, h: int) -> int {
    p.timestamp * 1000 + slot * FIRING_PERIOD + h * (FIRING_PERIOD / 2)
}

/// The channels of half `h` of a block; with `halves` 1, all of them.
pub open spec fn channel_half(chs: Seq<Channel>, halves: int, h: int) -> Seq<Channel> {
    if halves == 1 {
        chs
    } else {
        chs.subrange(16 * h, 16 * h + 16)
    }
}

/// Firing `j` of a single-return packet whose blocks hold `halves` firings.
pub open spec fn single_firing_spec(p: PacketView, halves: int, j: int) -> (u64, AzimuthInterval, Seq<Channel>) {
    let k = j / halves;
    let h = j % halves;
    (
        firing_time(p, k, h) as u64,
        firing_range(p, k, 1, halves, h),
        channel_half(p.blocks[k].channels, halves, h),
    )
}

/// Firing `j` of a dual-return packet whose block pairs hold `halves` firings.
pub open spec fn dual_firing_spec(p: PacketView, halves: int, j: int) -> (u64, AzimuthInterval, Seq<Channel>, Seq<Channel>) {
    let i = j / halves;
    let h = j % halves;
    (
        firing_time(p, i, h) as u64,
        firing_range(p, 2 * i, 2, halves, h),
        channel_half(p.blocks[2 * i].channels, halves, h),
        channel_half(p.blocks[2 * i + 1].channels, halves, h),
    )
}

impl FiringSingle {
    pub open spec fn matches(&self, f: (u64, AzimuthInterval, Seq<Channel>)) -> bool {
        self.time == f.0 && self.azimuth_range == f.1 && self.channels@ == f.2
    }
}

impl FiringDual {
    pub open spec fn matches(&self, f: (u64, AzimuthInterval, Seq<Channel>, Seq<Channel>)) -> bool {
        &&& self.time == f.0
        &&& self.azimuth_range == f.1
        &&& self.channels_strongest@ == f.2
        &&& self.channels_last@ == f.3
    }
}

impl FiringKind {
    pub open spec fn format(self) -> FiringFormat {
        match self {
            FiringKind::Single16(_) => FiringFormat::Single16,
            FiringKind::Single32(_) => FiringFormat::Single32,
            FiringKind::Dual16(_) => FiringFormat::Dual16,
            FiringKind::Dual32(_) => FiringFormat::Dual32,
        }
    }

    pub open spec fn range(self) -> AzimuthInterval {
        match self {
            FiringKind::Single16(f) | FiringKind::Single32(f) => f.azimuth_range,
            FiringKind::Dual16(f) | FiringKind::Dual32(f) => f.azimuth_range,
        }
    }

    /// The firing is firing `j` of packet `p`.
    pub open spec fn is_firing_of(self, p: PacketView, j: int) -> bool {
        match self {
            FiringKind::Single16(f) => f.matches(single_firing_spec(p, 2, j)),
            FiringKind::Single32(f) => f.matches(single_firing_spec(p, 1, j)),
            FiringKind::Dual16(f) => f.matches(dual_firing_spec(p, 2, j)),
            FiringKind::Dual32(f) => f.matches(dual_firing_spec(p, 1, j)),
        }
    }

    /// The format of the firing.
    pub fn firing_format(&self) -> (r: FiringFormat)
        ensures
            r == self.format(),
    {
        match self {
            FiringKind::Single16(_) => FiringFormat::Single16,
            FiringKind::Single32(_) => FiringFormat::Single32,
            FiringKind::Dual16(_) => FiringFormat::Dual16,
            FiringKind::Dual32(_) => FiringFormat::Dual32,
        }
    }

    /// The azimuth range that the firing sweeps.
    pub fn azimuth_range(&self) -> (r: AzimuthInterval)
        ensures
            r == self.range(),
    {
        match self {
            FiringKind::Single16(f) | FiringKind::Single32(f) => f.azimuth_range,
            FiringKind::Dual16(f) | FiringKind::Dual32(f) => f.azimuth_range,
        }
    }
}

impl AzimuthRange for FiringKind {
    open spec fn azimuth_range_spec(&self) -> AzimuthInterval {
        self.range()
    }

    fn azimuth_range(&self) -> (r: AzimuthInterval) {
        match self {
            FiringKind::Single16(f) | FiringKind::Single32(f) => f.azimuth_range,
            FiringKind::Dual16(f) | FiringKind::Dual32(f) => f.azimuth_range,
        }
    }
}

/// Number of firings in a packet of the given format.
pub open spec fn firings_per_packet(f: FiringFormat) -> int {
    match f {
        FiringFormat::Single16 => 24,
        FiringFormat::Single32 => 12,
        FiringFormat::Dual16 => 12,
        FiringFormat::Dual32 => 6,
    }
}

/// Copies `n` channels of `src` from index `from`.
fn copy_channels(src: &Vec<Channel>, from: usize, n: usize) -> (r: Vec<Channel>)
    requires
        from + n <= src@.len(),
    ensures
        r@ == src@.subrange(from as int, from + n),
{
    let len = src.len();
    let mut out: Vec<Channel> = Vec::new();
    let mut i: usize = 0;
    while i < n
        invariant
            from + n <= src@.len(),
            len == src@.len(),
            i <= n,
            out@ == src@.subrange(from as int, from + i),
        decreases n - i,
    {
        out.push(src[from + i]);
        i = i + 1;
        assert(out@ =~= src@.subrange(from as int, from + i));
    }
    out
}

/// The clockwise sweep from `a` to `b`.
fn sweep_exec(a: u32, b: u32) -> (r: u32)
    requires
        a < FULL_TURN,
        b < FULL_TURN,
    ensures
        r == sweep(a as int, b as int),
        r < FULL_TURN,
{
    (b + FULL_TURN - a) % FULL_TURN
}

impl DataPacket {
    /// The azimuth of block `k`, reduced into `[0°, 360°)`.
    fn block_azimuth(&self, k: usize) -> (r: u32)
        requires
            self.wf(),
            k < BLOCKS_PER_PACKET,
        ensures
            r == block_azimuth(self@, k as int),
            r < FULL_TURN,
    {
        assert(self.blocks@[k as int]@ == self@.blocks[k as int]);
        self.blocks[k].azimuth as u32 % FULL_TURN
    }

    /// The start, middle and end azimuth of the sweep of block `k`.
    fn block_sweep(&self, k: usize, step: usize) -> (r: (u32, u32, u32))
        requires
            self.wf(),
            step == 1 || step == 2,
            step <= k + step < BLOCKS_PER_PACKET + step,
            k + 2 * step >= BLOCKS_PER_PACKET ==> k >= step,
        ensures
            r.0 == block_azimuth(self@, k as int),
            r.2 == next_azimuth(self@, k as int, step as int),
            r.1 == mid_azimuth(r.0 as int, r.2 as int),
            r.0 < FULL_TURN && r.1 < FULL_TURN && r.2 < FULL_TURN,
    {
        let a = self.block_azimuth(k);
        let n = if k + step < BLOCKS_PER_PACKET {
            self.block_azimuth(k + step)
        } else {
            let prev = self.block_azimuth(k - step);
            (a + sweep_exec(prev, a)) % FULL_TURN
        };
        let mid = (a + sweep_exec(a, n) / 2) % FULL_TURN;
        (a, mid, n)
    }

    /// The time of the packet in nanoseconds.
    fn time_ns(&self) -> (r: u64)
        ensures
            r == self.timestamp * 1000,
    {
        self.timestamp as u64 * 1000
    }

    /// The firings of a single-return packet whose blocks hold `halves` firings
    /// each.
    fn single_firings(&self, halves: usize) -> (r: Vec<FiringKind>)
        requires
            self.wf(),
            halves == 1 || halves == 2,
        ensures
            r@.len() == BLOCKS_PER_PACKET * halves,
            forall|j: int| 0 <= j < r@.len() ==> (#[trigger] r@[j]).is_firing_of(self@, j)
                && r@[j].range().wf()
                && r@[j].format() == (if halves == 2 { FiringFormat::Single16 } else { FiringFormat::Single32 }),
    {
        let t0 = self.time_ns();
        let mut out: Vec<FiringKind> = Vec::new();
        let mut k: usize = 0;
        while k < BLOCKS_PER_PACKET
            invariant
                self.wf(),
                halves == 1 || halves == 2,
                t0 == self.timestamp * 1000,
                k <= BLOCKS_PER_PACKET,
                out@.len() == k * halves,
                forall|j: int| 0 <= j < out@.len() ==> (#[trigger] out@[j]).is_firing_of(self@, j)
                    && out@[j].range().wf()
                    && out@[j].format() == (if halves == 2 { FiringFormat::Single16 } else { FiringFormat::Single32 }),
            decreases BLOCKS_PER_PACKET - k,
        {
            let (a, mid, n) = self.block_sweep(k, 1);
            let block = &self.blocks[k];
            assert(block@ == self@.blocks[k as int]);
            assert(self@.blocks[k as int].channels.len() == CHANNELS_PER_BLOCK);
            let time = t0 + k as u64 * FIRING_PERIOD;
            if halves == 1 {
                let f = FiringSingle {
                    time,
                    azimuth_range: AzimuthInterval { start: a, end: n },
                    channels: copy_channels(&block.channels, 0, CHANNELS_PER_BLOCK),
                };
                assert(f.channels@ =~= self@.blocks[k as int].channels);
                out.push(FiringKind::Single32(f));
            } else {
                let first = FiringSingle {
                    time,
                    azimuth_range: AzimuthInterval { start: a, end: mid },
                    channels: copy_channels(&block.channels, 0, 16),
                };
                let second = FiringSingle {
                    time: time + FIRING_PERIOD / 2,
                    azimuth_range: AzimuthInterval { start: mid, end: n },
                    channels: copy_channels(&block.channels, 16, 16),
                };
                out.push(FiringKind::Single16(first));
                out.push(FiringKind::Single16(second));
                assert((2 * k as int) / 2 == k && (2 * k as int) % 2 == 0);
                assert((2 * k as int + 1) / 2 == k && (2 * k as int + 1) % 2 == 1);
            }
            k = k + 1;
        }
        out
    }

    /// The firings of a dual-return packet whose block pairs hold `halves`
    /// firings each.
    fn dual_firings(&self, halves: usize) -> (r: Vec<FiringKind>)
        requires
            self.wf(),
            halves == 1 || halves == 2,
        ensures
            r@.len() == BLOCKS_PER_PACKET / 2 * halves,
            forall|j: int| 0 <= j < r@.len() ==> (#[trigger] r@[j]).is_firing_of(self@, j)
                && r@[j].range().wf()
                && r@[j].format() == (if halves == 2 { FiringFormat::Dual16 } else { FiringFormat::Dual32 }),
    {
        let t0 = self.time_ns();
        let mut out: Vec<FiringKind> = Vec::new();
        let mut i: usize = 0;
        while i < BLOCKS_PER_PACKET / 2
            invariant
                self.wf(),
                halves == 1 || halves == 2,
                t0 == self.timestamp * 1000,
                i <= BLOCKS_PER_PACKET / 2,
                out@.len() == i * halves,
                forall|j: int| 0 <= j < out@.len() ==> (#[trigger] out@[j]).is_firing_of(self@, j)
                    && out@[j].range().wf()
                    && out@[j].format() == (if halves == 2 { FiringFormat::Dual16 } else { FiringFormat::Dual32 }),
            decreases BLOCKS_PER_PACKET / 2 - i,
        {
            let (a, mid, n) = self.block_sweep(2 * i, 2);
            let strongest = &self.blocks[2 * i];
            let last = &self.blocks[2 * i + 1];
            assert(strongest@ == self@.blocks[2 * i as int]);
            assert(last@ == self@.blocks[2 * i as int + 1]);
            assert(self@.blocks[2 * i as int].channels.len() == CHANNELS_PER_BLOCK);
            assert(self@.blocks[2 * i as int + 1].channels.len() == CHANNELS_PER_BLOCK);
            let time = t0 + i as u64 * FIRING_PERIOD;
            if halves == 1 {
                let f = FiringDual {
                    time,
                    azimuth_range: AzimuthInterval { start: a, end: n },
                    channels_strongest: copy_channels(&strongest.channels, 0, CHANNELS_PER_BLOCK),
                    channels_last: copy_channels(&last.channels, 0, CHANNELS_PER_BLOCK),
                };
                assert(f.channels_strongest@ =~= self@.blocks[2 * i as int].channels);
                assert(f.channels_last@ =~= self@.blocks[2 * i as int + 1].channels);
                out.push(FiringKind::Dual32(f));
            } else {
                let first = FiringDual {
                    time,
                    azimuth_range: AzimuthInterval { start: a, end: mid },
                    channels_strongest: copy_channels(&strongest.channels, 0, 16),
                    channels_last: copy_channels(&last.channels, 0, 16),
                };
                let second = FiringDual {
                    time: time + FIRING_PERIOD / 2,
                    azimuth_range: AzimuthInterval { start: mid, end: n },
                    channels_strongest: copy_channels(&strongest.channels, 16, 16),
                    channels_last: copy_channels(&last.channels, 16, 16),
                };
                out.push(FiringKind::Dual16(first));
                out.push(FiringKind::Dual16(second));
                assert((2 * i as int) / 2 == i && (2 * i as int) % 2 == 0);
                assert((2 * i as int + 1) / 2 == i && (2 * i as int + 1) % 2 == 1);
            }
            i = i + 1;
        }
        out
    }

    /// The firings of the packet, in order, in the format that its tail names;
    /// `PacketMalformed` when the tail names none.
    pub fn firings(&self) -> (r: Result<Vec<FiringKind>, Error>)
        requires
            self.wf(),
        ensures
            match packet_format(self.return_mode, self.product_id) {
                None => r == Err::<Vec<FiringKind>, Error>(Error::PacketMalformed),
                Some(f) => r is Ok && {
                    let v = r->Ok_0@;
                    &&& v.len() == firings_per_packet(f)
                    &&& forall|j: int| 0 <= j < v.len() ==> (#[trigger] v[j]).format() == f
                        && v[j].is_firing_of(self@, j) && v[j].range().wf()
                },
            },
    {
        match self.firing_format() {
            Err(e) => Err(e),
            Ok(FiringFormat::Single16) => Ok(self.single_firings(2)),
            Ok(FiringFormat::Single32) => Ok(self.single_firings(1)),
            Ok(FiringFormat::Dual16) => Ok(self.dual_firings(2)),
            Ok(FiringFormat::Dual32) => Ok(self.dual_firings(1)),
        }
    }
}

} // verus!
