//! The projector: turns firings into points with time, azimuth and Cartesian
//! coordinates, using the per-laser calibration.
use vstd::prelude::*;

use crate::batcher::{frames, AzimuthRange, Batcher};
use crate::consts::{CHANNEL_PERIOD, FIRING_PERIOD, FULL_TURN};
use crate::error::Error;
use crate::firing::{
    dual_firing_spec, firings_per_packet, single_firing_spec, sweep, AzimuthInterval, FiringDual,
    FiringKind, FiringSingle,
};
use crate::format::{beam_count_of, format_of, packet_format, FiringFormat, ReturnMode};
use crate::geometry::{project, spherical_to_xyz, wrap_angle, SineTable, Xyz};
use crate::packet::{Channel, DataPacket, PacketView};
use vstd::arithmetic::div_mod::lemma_fundamental_div_mod_converse;

verus! {

/// Factory calibration of one laser: angles in hundredths of a degree, offsets
/// in micrometres.
#[derive(Clone, Copy, Debug, PartialEq, Eq, Structural)]
pub struct LaserParameter {
    pub elevation: i32,
    pub azimuth_offset: i32,
    pub vertical_offset: i32,
    pub horizontal_offset: i32,
}

/// What a converter is built from.
#[derive(Clone, Debug)]
pub struct Config {
    /// One entry per laser, by laser id.
    pub lasers: Vec<LaserParameter>,
    /// Micrometres per distance count.
    pub distance_resolution: u32,
    pub return_mode: ReturnMode,
    pub product_id: u8,
}

/// One measured return.
#[derive(Clone, Copy, Debug, PartialEq, Eq, Structural)]
pub struct Measurement {
    /// Micrometres.
    pub distance: u64,
    pub intensity: u8,
    pub xyz: Xyz,
}

/// A projected single-return point.
#[derive(Clone, Copy, Debug, PartialEq, Eq, Structural)]
pub struct PointSingle {
    pub laser_id: usize,
    /// Nanoseconds since the top of the hour.
    pub time: u64,
    /// Hundredths of a degree, clockwise from the front of the sensor.
    pub azimuth: u32,
    pub measurement: Measurement,
}

/// A projected dual-return point.
#[derive(Clone, Copy, Debug, PartialEq, Eq, Structural)]
pub struct PointDual {
    pub laser_id: usize,
    pub time: u64,
    pub azimuth: u32,
    pub strongest: Measurement,
    pub last: Measurement,
}

/// A projected single-return firing.
#[derive(Clone, Debug, PartialEq, Eq)]
pub struct FiringXyzSingle {
    pub time: u64,
    pub azimuth_range: AzimuthInterval,
    pub points: Vec<PointSingle>,
}

/// A projected dual-return firing.
#[derive(Clone, Debug, PartialEq, Eq)]
pub struct FiringXyzDual {
    pub time: u64,
    pub azimuth_range: AzimuthInterval,
    pub points: Vec<PointDual>,
}

/// A projected firing of any of the four formats.
#[derive(Clone, Debug, PartialEq, Eq)]
pub enum FiringXyz {
    Single16(FiringXyzSingle),
    Single32(FiringXyzSingle),
    Dual16(FiringXyzDual),
    Dual32(FiringXyzDual),
}

/// A borrowed projected firing of any of the four formats.
#[derive(Clone, Debug, PartialEq, Eq)]
pub enum FiringXyzRef<'a> {
    Single16(&'a FiringXyzSingle),
    Single32(&'a FiringXyzSingle),
    Dual16(&'a FiringXyzDual),
    Dual32(&'a FiringXyzDual),
}

/// The projector of one firing format.
#[derive(Debug)]
pub struct Converter {
    lasers: Vec<LaserParameter>,
    distance_resolution: u32,
    sines: SineTable,
}

/// A projector of any of the four formats.
#[derive(Debug)]
pub enum ConverterKind {
    Single16(Converter),
    Single32(Converter),
    Dual16(Converter),
    Dual32(Converter),
}

/// The slot of laser `k` in a firing: lasers of a 32-beam firing fire in pairs.
pub open spec fn slot(beams: int, k: int) -> int {
    if beams == 16 {
        k
    } else {
        k / 2
    }
}

/// The time at which laser `k` fires.
pub open spec fn channel_time(firing_time: int, beams: int, k: int) -> int {
    firing_time + slot(beams, k) * CHANNEL_PERIOD
}

/// The azimuth of laser `k`: the firing's range interpolated at the laser's
/// time, plus its azimuth offset, reduced into `[0°, 360°)`.
pub open spec fn channel_azimuth(range: AzimuthInterval, beams: int, k: int, offset: int) -> int {
    let dt = slot(beams, k) * CHANNEL_PERIOD;
    wrap_angle(range.start + sweep(range.start as int, range.end as int) * dt / (FIRING_PERIOD as int) + offset)
}

/// The measurement of channel `ch` by `laser` seen at `azimuth`, with
/// `res` micrometres per distance count.
pub open spec fn measure(res: u32, sines: SineTable, laser: LaserParameter, azimuth: int, ch: Channel) -> Measurement {
    let distance = ch.distance * res;
    Measurement {
        distance: distance as u64,
        intensity: ch.intensity,
        xyz: project(
            distance,
            sines.sin(laser.elevation as int),
            sines.cos(laser.elevation as int),
            sines.sin(azimuth),
            sines.cos(azimuth),
            laser.vertical_offset as int,
            laser.horizontal_offset as int,
        ),
    }
}

/// Point `k` of the projection of a single-return firing.
pub open spec fn single_point(
    lasers: Seq<LaserParameter>,
    res: u32,
    sines: SineTable,
    time: u64,
    range: AzimuthInterval,
    chs: Seq<Channel>,
    beams: int,
    k: int,
) -> PointSingle {
    let laser = lasers[k];
    let azimuth = channel_azimuth(range, beams, k, laser.azimuth_offset as int);
    PointSingle {
        laser_id: k as usize,
        time: channel_time(time as int, beams, k) as u64,
        azimuth: azimuth as u32,
        measurement: measure(res, sines, laser, azimuth, chs[k]),
    }
}

/// Point `k` of the projection of a dual-return firing.
pub open spec fn dual_point(
    lasers: Seq<LaserParameter>,
    res: u32,
    sines: SineTable,
    time: u64,
    range: AzimuthInterval,
    strongest: Seq<Channel>,
    last: Seq<Channel>,
    beams: int,
    k: int,
) -> PointDual {
    let laser = lasers[k];
    let azimuth = channel_azimuth(range, beams, k, laser.azimuth_offset as int);
    PointDual {
        laser_id: k as usize,
        time: channel_time(time as int, beams, k) as u64,
        azimuth: azimuth as u32,
        strongest: measure(res, sines, laser, azimuth, strongest[k]),
        last: measure(res, sines, laser, azimuth, last[k]),
    }
}

/// `x` is the projection of a single-return firing with these fields.
pub open spec fn projects_single(
    lasers: Seq<LaserParameter>,
    res: u32,
    sines: SineTable,
    x: FiringXyzSingle,
    time: u64,
    range: AzimuthInterval,
    chs: Seq<Channel>,
    beams: int,
) -> bool {
    &&& x.time == time
    &&& x.azimuth_range == range
    &&& x.points@.len() == beams
    &&& forall|k: int| 0 <= k < beams ==> #[trigger] x.points@[k] == single_point(lasers, res, sines, time, range, chs, beams, k)
}

/// `x` is the projection of a dual-return firing with these fields.
pub open spec fn projects_dual(
    lasers: Seq<LaserParameter>,
    res: u32,
    sines: SineTable,
    x: FiringXyzDual,
    time: u64,
    range: AzimuthInterval,
    strongest: Seq<Channel>,
    last: Seq<Channel>,
    beams: int,
) -> bool {
    &&& x.time == time
    &&& x.azimuth_range == range
    &&& x.points@.len() == beams
    &&& forall|k: int| 0 <= k < beams ==> #[trigger] x.points@[k] == dual_point(lasers, res, sines, time, range, strongest, last, beams, k)
}

impl Converter {
    pub closed spec fn lasers(&self) -> Seq<LaserParameter> {
        self.lasers@
    }

    pub closed spec fn resolution(&self) -> u32 {
        self.distance_resolution
    }

    pub closed spec fn sines(&self) -> SineTable {
        self.sines
    }

    /// A calibration of `beams` lasers and a positive resolution.
    pub open spec fn wf_for(&self, beams: int) -> bool {
        &&& self.lasers().len() == beams
        &&& self.resolution() > 0
    }

    pub open spec fn projects_single(&self, x: FiringXyzSingle, time: u64, range: AzimuthInterval, chs: Seq<Channel>, beams: int) -> bool {
        projects_single(self.lasers(), self.resolution(), self.sines(), x, time, range, chs, beams)
    }

    pub open spec fn projects_dual(
        &self,
        x: FiringXyzDual,
        time: u64,
        range: AzimuthInterval,
        strongest: Seq<Channel>,
        last: Seq<Channel>,
        beams: int,
    ) -> bool {
        projects_dual(self.lasers(), self.resolution(), self.sines(), x, time, range, strongest, last, beams)
    }
}

/// A firing time late enough to overflow is refused by contract.
pub const MAX_FIRING_TIME: u64 = 0xFFFF_FFFF_0000_0000;

/// The firing range is in `[0°, 360°)` and the firing time leaves room for the
/// laser slots.
pub open spec fn firing_fields_ok(time: u64, range: AzimuthInterval) -> bool {
    time <= MAX_FIRING_TIME && range.wf()
}

/// The time, azimuth and calibration of laser `k`.
fn laser_geometry(lasers: &Vec<LaserParameter>, time: u64, range: AzimuthInterval, beams: usize, k: usize) -> (r: (
    u64,
    u32,
    LaserParameter,
))
    requires
        lasers@.len() == beams,
        beams == 16 || beams == 32,
        k < beams,
        firing_fields_ok(time, range),
    ensures
        r.0 == channel_time(time as int, beams as int, k as int),
        r.1 == channel_azimuth(range, beams as int, k as int, r.2.azimuth_offset as int),
        r.1 < FULL_TURN,
        r.2 == lasers@[k as int],
{
    let laser = lasers[k];
    let slot: u64 = if beams == 16 {
        k as u64
    } else {
        (k / 2) as u64
    };
    let dt: u64 = slot * CHANNEL_PERIOD;
    let span: u64 = ((range.end + FULL_TURN - range.start) % FULL_TURN) as u64;
    assert(span * dt <= 36000 * 36000 * 2304) by (nonlinear_arith)
        requires
            span < 36000,
            dt <= 31 * 2304,
    ;
    let interp: u64 = span * dt / FIRING_PERIOD;
    let turn: i64 = FULL_TURN as i64;
    let raw: i64 = range.start as i64 + interp as i64 + laser.azimuth_offset as i64;
    let azimuth = ((raw % turn) + turn) % turn;
    assert(azimuth == wrap_angle(raw as int)) by {
        vstd::arithmetic::div_mod::lemma_fundamental_div_mod(raw as int, FULL_TURN as int);
    }
    (time + dt, azimuth as u32, laser)
}

/// The measurement of `ch` by `laser` seen at `azimuth`.
fn measure_exec(res: u32, sines: &SineTable, laser: LaserParameter, azimuth: u32, ch: Channel) -> (r: Measurement)
    requires
        azimuth < FULL_TURN,
    ensures
        r == measure(res, *sines, laser, azimuth as int, ch),
{
    assert((ch.distance as int) * (res as int) <= 65535 * 0xFFFF_FFFF) by (nonlinear_arith)
        requires
            ch.distance <= 65535,
            res <= 0xFFFF_FFFFu32,
    ;
    let distance: u64 = ch.distance as u64 * res as u64;
    let (sin_el, cos_el) = sines.sin_cos(laser.elevation as i64);
    let (sin_az, cos_az) = sines.sin_cos(azimuth as i64);
    let xyz = spherical_to_xyz(
        distance,
        sin_el,
        cos_el,
        sin_az,
        cos_az,
        laser.vertical_offset,
        laser.horizontal_offset,
    );
    Measurement { distance, intensity: ch.intensity, xyz }
}

/// Projects a single-return firing of `beams` lasers.
fn single_to_xyz(firing: &FiringSingle, res: u32, lasers: &Vec<LaserParameter>, sines: &SineTable, beams: usize) -> (r: FiringXyzSingle)
    requires
        lasers@.len() == beams,
        beams == 16 || beams == 32,
        firing.channels@.len() == beams,
        firing_fields_ok(firing.time, firing.azimuth_range),
    ensures
        projects_single(lasers@, res, *sines, r, firing.time, firing.azimuth_range, firing.channels@, beams as int),
{
    let mut points: Vec<PointSingle> = Vec::new();
    let mut k: usize = 0;
    while k < beams
        invariant
            lasers@.len() == beams,
            beams == 16 || beams == 32,
            firing.channels@.len() == beams,
            firing_fields_ok(firing.time, firing.azimuth_range),
            k <= beams,
            points@.len() == k,
            forall|j: int| 0 <= j < k ==> #[trigger] points@[j] == single_point(
                lasers@,
                res,
                *sines,
                firing.time,
                firing.azimuth_range,
                firing.channels@,
                beams as int,
                j,
            ),
        decreases beams - k,
    {
        let (time, azimuth, laser) = laser_geometry(lasers, firing.time, firing.azimuth_range, beams, k);
        let measurement = measure_exec(res, sines, laser, azimuth, firing.channels[k]);
        points.push(PointSingle { laser_id: k, time, azimuth, measurement });
        k = k + 1;
    }
    FiringXyzSingle { time: firing.time, azimuth_range: firing.azimuth_range, points }
}

/// Projects a dual-return firing of `beams` lasers.
fn dual_to_xyz(firing: &FiringDual, res: u32, lasers: &Vec<LaserParameter>, sines: &SineTable, beams: usize) -> (r: FiringXyzDual)
    requires
        lasers@.len() == beams,
        beams == 16 || beams == 32,
        firing.channels_strongest@.len() == beams,
        firing.channels_last@.len() == beams,
        firing_fields_ok(firing.time, firing.azimuth_range),
    ensures
        projects_dual(
            lasers@,
            res,
            *sines,
            r,
            firing.time,
            firing.azimuth_range,
            firing.channels_strongest@,
            firing.channels_last@,
            beams as int,
        ),
{
    let mut points: Vec<PointDual> = Vec::new();
    let mut k: usize = 0;
    while k < beams
        invariant
            lasers@.len() == beams,
            beams == 16 || beams == 32,
            firing.channels_strongest@.len() == beams,
            firing.channels_last@.len() == beams,
            firing_fields_ok(firing.time, firing.azimuth_range),
            k <= beams,
            points@.len() == k,
            forall|j: int| 0 <= j < k ==> #[trigger] points@[j] == dual_point(
                lasers@,
                res,
                *sines,
                firing.time,
                firing.azimuth_range,
                firing.channels_strongest@,
                firing.channels_last@,
                beams as int,
                j,
            ),
        decreases beams - k,
    {
        let (time, azimuth, laser) = laser_geometry(lasers, firing.time, firing.azimuth_range, beams, k);
        let strongest = measure_exec(res, sines, laser, azimuth, firing.channels_strongest[k]);
        let last = measure_exec(res, sines, laser, azimuth, firing.channels_last[k]);
        points.push(PointDual { laser_id: k, time, azimuth, strongest, last });
        k = k + 1;
    }
    FiringXyzDual { time: firing.time, azimuth_range: firing.azimuth_range, points }
}

/// Projects a single-return 16-beam firing with the given calibration.
pub fn firing_single_16_to_xyz(
    firing: &FiringSingle,
    distance_resolution: u32,
    lasers: &Vec<LaserParameter>,
    sines: &SineTable,
) -> (r: FiringXyzSingle)
    requires
        lasers@.len() == 16,
        firing.channels@.len() == 16,
        firing_fields_ok(firing.time, firing.azimuth_range),
    ensures
        projects_single(lasers@, distance_resolution, *sines, r, firing.time, firing.azimuth_range, firing.channels@, 16),
{
    single_to_xyz(firing, distance_resolution, lasers, sines, 16)
}

/// Projects a single-return 32-beam firing with the given calibration.
pub fn firing_single_32_to_xyz(
    firing: &FiringSingle,
    distance_resolution: u32,
    lasers: &Vec<LaserParameter>,
    sines: &SineTable,
) -> (r: FiringXyzSingle)
    requires
        lasers@.len() == 32,
        firing.channels@.len() == 32,
        firing_fields_ok(firing.time, firing.azimuth_range),
    ensures
        projects_single(lasers@, distance_resolution, *sines, r, firing.time, firing.azimuth_range, firing.channels@, 32),
{
    single_to_xyz(firing, distance_resolution, lasers, sines, 32)
}

/// Projects a dual-return 16-beam firing with the given calibration.
pub fn firing_dual_16_to_xyz(
    firing: &FiringDual,
    distance_resolution: u32,
    lasers: &Vec<LaserParameter>,
    sines: &SineTable,
) -> (r: FiringXyzDual)
    requires
        lasers@.len() == 16,
        firing.channels_strongest@.len() == 16,
        firing.channels_last@.len() == 16,
        firing_fields_ok(firing.time, firing.azimuth_range),
    ensures
        projects_dual(
            lasers@,
            distance_resolution,
            *sines,
            r,
            firing.time,
            firing.azimuth_range,
            firing.channels_strongest@,
            firing.channels_last@,
            16,
        ),
{
    dual_to_xyz(firing, distance_resolution, lasers, sines, 16)
}

/// Projects a dual-return 32-beam firing with the given calibration.
pub fn firing_dual_32_to_xyz(
    firing: &FiringDual,
    distance_resolution: u32,
    lasers: &Vec<LaserParameter>,
    sines: &SineTable,
) -> (r: FiringXyzDual)
    requires
        lasers@.len() == 32,
        firing.channels_strongest@.len() == 32,
        firing.channels_last@.len() == 32,
        firing_fields_ok(firing.time, firing.azimuth_range),
    ensures
        projects_dual(
            lasers@,
            distance_resolution,
            *sines,
            r,
            firing.time,
            firing.azimuth_range,
            firing.channels_strongest@,
            firing.channels_last@,
            32,
        ),
{
    dual_to_xyz(firing, distance_resolution, lasers, sines, 32)
}


/// Firing `j` of a packet has the shape of its format.
proof fn lemma_packet_firing_shape(f: FiringKind, p: PacketView, j: int)
    requires
        p.wf(),
        0 <= j < firings_per_packet(f.format()),
        f.is_firing_of(p, j),
        f.range().wf(),
    ensures
        f.shape_ok(),
{
    match f {
        FiringKind::Single16(_) => {
            assert(0 <= j / 2 < 12);
            assert(p.blocks[j / 2].channels.len() == 32);
        },
        FiringKind::Single32(_) => {
            assert(p.blocks[j].channels.len() == 32);
        },
        FiringKind::Dual16(_) => {
            assert(0 <= j / 2 < 6);
            assert(p.blocks[2 * (j / 2)].channels.len() == 32);
            assert(p.blocks[2 * (j / 2) + 1].channels.len() == 32);
        },
        FiringKind::Dual32(_) => {
            assert(p.blocks[2 * j].channels.len() == 32);
            assert(p.blocks[2 * j + 1].channels.len() == 32);
        },
    }
}

impl FiringKind {
    /// The channels fit the format, and the time and the range are in bounds.
    pub open spec fn shape_ok(self) -> bool {
        match self {
            FiringKind::Single16(f) => f.channels@.len() == 16 && firing_fields_ok(f.time, f.azimuth_range),
            FiringKind::Single32(f) => f.channels@.len() == 32 && firing_fields_ok(f.time, f.azimuth_range),
            FiringKind::Dual16(f) => f.channels_strongest@.len() == 16 && f.channels_last@.len() == 16
                && firing_fields_ok(f.time, f.azimuth_range),
            FiringKind::Dual32(f) => f.channels_strongest@.len() == 32 && f.channels_last@.len() == 32
                && firing_fields_ok(f.time, f.azimuth_range),
        }
    }
}

impl FiringXyz {
    pub open spec fn format(self) -> FiringFormat {
        match self {
            FiringXyz::Single16(_) => FiringFormat::Single16,
            FiringXyz::Single32(_) => FiringFormat::Single32,
            FiringXyz::Dual16(_) => FiringFormat::Dual16,
            FiringXyz::Dual32(_) => FiringFormat::Dual32,
        }
    }

    pub open spec fn time_spec(self) -> u64 {
        match self {
            FiringXyz::Single16(f) | FiringXyz::Single32(f) => f.time,
            FiringXyz::Dual16(f) | FiringXyz::Dual32(f) => f.time,
        }
    }

    pub open spec fn range(self) -> AzimuthInterval {
        match self {
            FiringXyz::Single16(f) | FiringXyz::Single32(f) => f.azimuth_range,
            FiringXyz::Dual16(f) | FiringXyz::Dual32(f) => f.azimuth_range,
        }
    }

    /// The time of the firing, in nanoseconds since the top of the hour.
    pub fn time(&self) -> (r: u64)
        ensures
            r == self.time_spec(),
    {
        match self {
            FiringXyz::Single16(f) | FiringXyz::Single32(f) => f.time,
            FiringXyz::Dual16(f) | FiringXyz::Dual32(f) => f.time,
        }
    }
}

impl<'a> FiringXyzRef<'a> {
    /// The time of the borrowed firing, in nanoseconds since the top of the hour.
    pub fn time(&self) -> (r: u64)
        ensures
            r == match *self {
                FiringXyzRef::Single16(f) | FiringXyzRef::Single32(f) => f.time,
                FiringXyzRef::Dual16(f) | FiringXyzRef::Dual32(f) => f.time,
            },
    {
        match self {
            FiringXyzRef::Single16(f) | FiringXyzRef::Single32(f) => f.time,
            FiringXyzRef::Dual16(f) | FiringXyzRef::Dual32(f) => f.time,
        }
    }
}

impl AzimuthRange for FiringXyz {
    open spec fn azimuth_range_spec(&self) -> AzimuthInterval {
        self.range()
    }

    fn azimuth_range(&self) -> (r: AzimuthInterval) {
        match self {
            FiringXyz::Single16(f) | FiringXyz::Single32(f) => f.azimuth_range,
            FiringXyz::Dual16(f) | FiringXyz::Dual32(f) => f.azimuth_range,
        }
    }
}

impl Config {
    /// The lasers match the beam count of a known product, and the resolution
    /// is positive.
    pub open spec fn valid(&self) -> bool {
        &&& beam_count_of(self.product_id) is Some
        &&& self.lasers@.len() == beam_count_of(self.product_id)->Some_0
        &&& self.distance_resolution > 0
    }

    pub open spec fn format(&self) -> FiringFormat {
        format_of(self.return_mode, beam_count_of(self.product_id)->Some_0)
    }

    /// The firing format that the configuration describes; `ConfigInvalid` for
    /// an unknown product id.
    pub fn firing_format(&self) -> (r: Result<FiringFormat, Error>)
        ensures
            match beam_count_of(self.product_id) {
                Some(n) => r == Ok::<FiringFormat, Error>(format_of(self.return_mode, n)),
                None => r == Err::<FiringFormat, Error>(Error::ConfigInvalid),
            },
    {
        let id = self.product_id;
        let beams: usize = if id == 0x21 || id == 0x28 {
            32
        } else if id == 0x22 || id == 0x24 {
            16
        } else {
            return Err(Error::ConfigInvalid);
        };
        Ok(FiringFormat::from_parts(self.return_mode, beams))
    }
}

/// What goes wrong when a converter of format `fmt` meets packet `p`, if anything.
pub open spec fn packet_error(fmt: FiringFormat, p: PacketView) -> Option<Error> {
    match packet_format(p.return_mode, p.product_id) {
        None => Some(Error::PacketMalformed),
        Some(f) => if f == fmt {
            None
        } else {
            Some(Error::FormatMismatch)
        },
    }
}

impl ConverterKind {
    pub open spec fn format(&self) -> FiringFormat {
        match self {
            ConverterKind::Single16(_) => FiringFormat::Single16,
            ConverterKind::Single32(_) => FiringFormat::Single32,
            ConverterKind::Dual16(_) => FiringFormat::Dual16,
            ConverterKind::Dual32(_) => FiringFormat::Dual32,
        }
    }

    pub open spec fn inner(&self) -> Converter {
        match self {
            ConverterKind::Single16(c) | ConverterKind::Single32(c) => *c,
            ConverterKind::Dual16(c) | ConverterKind::Dual32(c) => *c,
        }
    }

    /// The calibration has one entry per beam of the format.
    pub open spec fn wf(&self) -> bool {
        self.inner().wf_for(self.format().beams() as int)
    }

    /// `x` is the projection of `f`.
    pub open spec fn projects(&self, x: FiringXyz, f: FiringKind) -> bool {
        let c = self.inner();
        &&& f.format() == self.format()
        &&& match (x, f) {
            (FiringXyz::Single16(x), FiringKind::Single16(g)) => c.projects_single(x, g.time, g.azimuth_range, g.channels@, 16),
            (FiringXyz::Single32(x), FiringKind::Single32(g)) => c.projects_single(x, g.time, g.azimuth_range, g.channels@, 32),
            (FiringXyz::Dual16(x), FiringKind::Dual16(g)) => c.projects_dual(
                x,
                g.time,
                g.azimuth_range,
                g.channels_strongest@,
                g.channels_last@,
                16,
            ),
            (FiringXyz::Dual32(x), FiringKind::Dual32(g)) => c.projects_dual(
                x,
                g.time,
                g.azimuth_range,
                g.channels_strongest@,
                g.channels_last@,
                32,
            ),
            _ => false,
        }
    }

    /// `x` is the projection of firing `j` of packet `p`.
    pub open spec fn projects_packet_firing(&self, x: FiringXyz, p: PacketView, j: int) -> bool {
        let c = self.inner();
        &&& x.format() == self.format()
        &&& match x {
            FiringXyz::Single16(x) => {
                let f = single_firing_spec(p, 2, j);
                c.projects_single(x, f.0, f.1, f.2, 16)
            },
            FiringXyz::Single32(x) => {
                let f = single_firing_spec(p, 1, j);
                c.projects_single(x, f.0, f.1, f.2, 32)
            },
            FiringXyz::Dual16(x) => {
                let f = dual_firing_spec(p, 2, j);
                c.projects_dual(x, f.0, f.1, f.2, f.3, 16)
            },
            FiringXyz::Dual32(x) => {
                let f = dual_firing_spec(p, 1, j);
                c.projects_dual(x, f.0, f.1, f.2, f.3, 32)
            },
        }
    }

    /// The firing format that the converter projects.
    pub fn firing_format(&self) -> (r: FiringFormat)
        ensures
            r == self.format(),
    {
        match self {
            ConverterKind::Single16(_) => FiringFormat::Single16,
            ConverterKind::Single32(_) => FiringFormat::Single32,
            ConverterKind::Dual16(_) => FiringFormat::Dual16,
            ConverterKind::Dual32(_) => FiringFormat::Dual32,
        }
    }

    /// Builds the converter of the format that `config` describes;
    /// `ConfigInvalid` for an unknown product, a laser table whose length is
    /// not the beam count, or a zero resolution.
    pub fn from_config(config: Config, sines: SineTable) -> (r: Result<ConverterKind, Error>)
        ensures
            config.valid() ==> r is Ok && {
                let c = r->Ok_0;
                &&& c.wf()
                &&& c.format() == config.format()
                &&& c.inner().lasers() == config.lasers@
                &&& c.inner().resolution() == config.distance_resolution
                &&& c.inner().sines() == sines
            },
            !config.valid() ==> r == Err::<ConverterKind, Error>(Error::ConfigInvalid),
    {
        let format = match config.firing_format() {
            Ok(f) => f,
            Err(e) => return Err(e),
        };
        if config.lasers.len() != format.beam_count() || config.distance_resolution == 0 {
            return Err(Error::ConfigInvalid);
        }
        let conv = Converter {
            lasers: config.lasers,
            distance_resolution: config.distance_resolution,
            sines,
        };
        Ok(
            match format {
                FiringFormat::Single16 => ConverterKind::Single16(conv),
                FiringFormat::Single32 => ConverterKind::Single32(conv),
                FiringFormat::Dual16 => ConverterKind::Dual16(conv),
                FiringFormat::Dual32 => ConverterKind::Dual32(conv),
            },
        )
    }

    /// Projects a firing of the converter's own format.
    fn convert(&self, firing: &FiringKind) -> (r: FiringXyz)
        requires
            self.wf(),
            firing.shape_ok(),
            firing.format() == self.format(),
        ensures
            self.projects(r, *firing),
            r.format() == self.format(),
    {
        match self {
            ConverterKind::Single16(c) => match firing {
                FiringKind::Single16(f) => FiringXyz::Single16(firing_single_16_to_xyz(f, c.distance_resolution, &c.lasers, &c.sines)),
                _ => vstd::pervasive::unreached(),
            },
            ConverterKind::Single32(c) => match firing {
                FiringKind::Single32(f) => FiringXyz::Single32(firing_single_32_to_xyz(f, c.distance_resolution, &c.lasers, &c.sines)),
                _ => vstd::pervasive::unreached(),
            },
            ConverterKind::Dual16(c) => match firing {
                FiringKind::Dual16(f) => FiringXyz::Dual16(firing_dual_16_to_xyz(f, c.distance_resolution, &c.lasers, &c.sines)),
                _ => vstd::pervasive::unreached(),
            },
            ConverterKind::Dual32(c) => match firing {
                FiringKind::Dual32(f) => FiringXyz::Dual32(firing_dual_32_to_xyz(f, c.distance_resolution, &c.lasers, &c.sines)),
                _ => vstd::pervasive::unreached(),
            },
        }
    }

    /// Projects a firing; `FormatMismatch` when it is not of the converter's
    /// format.
    pub fn firing_to_firing_xyz(&self, firing: FiringKind) -> (r: Result<FiringXyz, Error>)
        requires
            self.wf(),
            firing.shape_ok(),
        ensures
            firing.format() == self.format() ==> r is Ok && self.projects(r->Ok_0, firing),
            firing.format() != self.format() ==> r == Err::<FiringXyz, Error>(Error::FormatMismatch),
    {
        if firing.firing_format() != self.firing_format() {
            return Err(Error::FormatMismatch);
        }
        Ok(self.convert(&firing))
    }
}

impl ConverterKind {
    /// Projects the firings of a packet of the converter's format, in order;
    /// `PacketMalformed` when its tail names no format, `FormatMismatch` when
    /// it names another.
    pub fn packet_to_firing_xyz_iter(&self, packet: &DataPacket) -> (r: Result<Vec<FiringXyz>, Error>)
        requires
            self.wf(),
            packet.wf(),
        ensures
            match packet_error(self.format(), packet@) {
                Some(e) => r == Err::<Vec<FiringXyz>, Error>(e),
                None => r is Ok && {
                    let v = r->Ok_0@;
                    &&& v.len() == firings_per_packet(self.format())
                    &&& forall|j: int| 0 <= j < v.len() ==> self.projects_packet_firing(#[trigger] v[j], packet@, j)
                },
            },
    {
        let firings = match packet.firings() {
            Ok(v) => v,
            Err(e) => return Err(e),
        };
        let format = match packet.firing_format() {
            Ok(f) => f,
            Err(e) => return Err(e),
        };
        if format != self.firing_format() {
            return Err(Error::FormatMismatch);
        }
        let mut out: Vec<FiringXyz> = Vec::new();
        let mut j: usize = 0;
        while j < firings.len()
            invariant
                self.wf(),
                packet.wf(),
                format == self.format(),
                firings@.len() == firings_per_packet(format),
                forall|i: int| 0 <= i < firings@.len() ==> (#[trigger] firings@[i]).format() == format
                    && firings@[i].is_firing_of(packet@, i) && firings@[i].range().wf(),
                j <= firings@.len(),
                out@.len() == j,
                forall|i: int| 0 <= i < j ==> self.projects_packet_firing(#[trigger] out@[i], packet@, i),
            decreases firings@.len() - j,
        {
            let firing = &firings[j];
            proof {
                lemma_packet_firing_shape(*firing, packet@, j as int);
            }
            let x = self.convert(firing);
            out.push(x);
            j = j + 1;
        }
        Ok(out)
    }

    /// Projects the firings of every packet, in order; the error of the first
    /// packet that fails, if one does.
    pub fn packet_iter_to_firing_xyz_iter(&self, packets: &Vec<DataPacket>) -> (r: Result<Vec<FiringXyz>, Error>)
        requires
            self.wf(),
            forall|i: int| 0 <= i < packets@.len() ==> (#[trigger] packets@[i]).wf(),
        ensures
            r is Ok <==> forall|i: int| 0 <= i < packets@.len() ==> packet_error(self.format(), (#[trigger] packets@[i])@) is None,
            r is Ok ==> {
                let v = r->Ok_0@;
                let n = firings_per_packet(self.format());
                &&& v.len() == packets@.len() * n
                &&& forall|m: int| 0 <= m < v.len() ==> self.projects_packet_firing(#[trigger] v[m], packets@[m / n]@, m % n)
            },
            r is Err ==> exists|i: int| 0 <= i < packets@.len()
                && packet_error(self.format(), (#[trigger] packets@[i])@) == Some(r->Err_0)
                && forall|h: int| 0 <= h < i ==> packet_error(self.format(), (#[trigger] packets@[h])@) is None,
    {
        let ghost n = firings_per_packet(self.format());
        let mut out: Vec<FiringXyz> = Vec::new();
        let mut i: usize = 0;
        while i < packets.len()
            invariant
                self.wf(),
                n == firings_per_packet(self.format()),
                n > 0,
                forall|h: int| 0 <= h < packets@.len() ==> (#[trigger] packets@[h]).wf(),
                i <= packets@.len(),
                forall|h: int| 0 <= h < i ==> packet_error(self.format(), (#[trigger] packets@[h])@) is None,
                out@.len() == i * n,
                forall|m: int| 0 <= m < out@.len() ==> self.projects_packet_firing(#[trigger] out@[m], packets@[m / n]@, m % n),
            decreases packets@.len() - i,
        {
            let mut v = match self.packet_to_firing_xyz_iter(&packets[i]) {
                Ok(v) => v,
                Err(e) => return Err(e),
            };
            let ghost before = out@;
            let ghost added = v@;
            out.append(&mut v);
            assert forall|m: int| 0 <= m < out@.len() implies self.projects_packet_firing(
                #[trigger] out@[m],
                packets@[m / n]@,
                m % n,
            ) by {
                if m >= before.len() {
                    lemma_fundamental_div_mod_converse(m, n, i as int, m - i * n);
                    assert(out@[m] == added[m - i * n]);
                } else {
                    assert(out@[m] == before[m]);
                }
            }
            assert(out@.len() == (i + 1) * n) by (nonlinear_arith)
                requires
                    out@.len() == i * n + n,
            ;
            i = i + 1;
        }
        Ok(out)
    }

    /// Projects the firings of every packet and groups them into frames, one
    /// per revolution; the error of the first packet that fails, if one does.
    pub fn packet_iter_to_frame_xyz_iter(&self, packets: &Vec<DataPacket>) -> (r: Result<Vec<Vec<FiringXyz>>, Error>)
        requires
            self.wf(),
            forall|i: int| 0 <= i < packets@.len() ==> (#[trigger] packets@[i]).wf(),
        ensures
            r is Ok <==> forall|i: int| 0 <= i < packets@.len() ==> packet_error(self.format(), (#[trigger] packets@[i])@) is None,
            r is Ok ==> exists|s: Seq<FiringXyz>| {
                let n = firings_per_packet(self.format());
                &&& s.len() == packets@.len() * n
                &&& forall|m: int| 0 <= m < s.len() ==> self.projects_packet_firing(#[trigger] s[m], packets@[m / n]@, m % n)
                &&& r->Ok_0@.map_values(|f: Vec<FiringXyz>| f@) == #[trigger] frames(s)
            },
            r is Err ==> exists|i: int| 0 <= i < packets@.len()
                && packet_error(self.format(), (#[trigger] packets@[i])@) == Some(r->Err_0)
                && forall|h: int| 0 <= h < i ==> packet_error(self.format(), (#[trigger] packets@[h])@) is None,
    {
        let firings = match self.packet_iter_to_firing_xyz_iter(packets) {
            Ok(v) => v,
            Err(e) => return Err(e),
        };
        let ghost s = firings@;
        let batcher: Batcher<FiringXyz> = Batcher::new();
        let out = batcher.with_iter(firings);
        assert(Seq::<FiringXyz>::empty() + s =~= s);
        Ok(out)
    }

    /// The single-return 16-beam converter, or the converter unchanged.
    pub fn try_into_single16(self) -> (r: Result<Converter, Self>)
        ensures
            match self {
                ConverterKind::Single16(c) => r == Ok::<Converter, Self>(c),
                _ => r == Err::<Converter, Self>(self),
            },
    {
        match self {
            ConverterKind::Single16(c) => Ok(c),
            other => Err(other),
        }
    }

    /// The single-return 32-beam converter, or the converter unchanged.
    pub fn try_into_single32(self) -> (r: Result<Converter, Self>)
        ensures
            match self {
                ConverterKind::Single32(c) => r == Ok::<Converter, Self>(c),
                _ => r == Err::<Converter, Self>(self),
            },
    {
        match self {
            ConverterKind::Single32(c) => Ok(c),
            other => Err(other),
        }
    }

    /// The dual-return 16-beam converter, or the converter unchanged.
    pub fn try_into_dual16(self) -> (r: Result<Converter, Self>)
        ensures
            match self {
                ConverterKind::Dual16(c) => r == Ok::<Converter, Self>(c),
                _ => r == Err::<Converter, Self>(self),
            },
    {
        match self {
            ConverterKind::Dual16(c) => Ok(c),
            other => Err(other),
        }
    }

    /// The dual-return 32-beam converter, or the converter unchanged.
    pub fn try_into_dual32(self) -> (r: Result<Converter, Self>)
        ensures
            match self {
                ConverterKind::Dual32(c) => r == Ok::<Converter, Self>(c),
                _ => r == Err::<Converter, Self>(self),
            },
    {
        match self {
            ConverterKind::Dual32(c) => Ok(c),
            other => Err(other),
        }
    }

    /// The single-return 16-beam converter.
    pub fn into_single16(self) -> (r: Converter)
        requires
            self is Single16,
        ensures
            r == self.inner(),
    {
        match self {
            ConverterKind::Single16(c) => c,
            _ => vstd::pervasive::unreached(),
        }
    }

    /// The single-return 32-beam converter.
    pub fn into_single32(self) -> (r: Converter)
        requires
            self is Single32,
        ensures
            r == self.inner(),
    {
        match self {
            ConverterKind::Single32(c) => c,
            _ => vstd::pervasive::unreached(),
        }
    }

    /// The dual-return 16-beam converter.
    pub fn into_dual16(self) -> (r: Converter)
        requires
            self is Dual16,
        ensures
            r == self.inner(),
    {
        match self {
            ConverterKind::Dual16(c) => c,
            _ => vstd::pervasive::unreached(),
        }
    }

    /// The dual-return 32-beam converter.
    pub fn into_dual32(self) -> (r: Converter)
        requires
            self is Dual32,
        ensures
            r == self.inner(),
    {
        match self {
            ConverterKind::Dual32(c) => c,
            _ => vstd::pervasive::unreached(),
        }
    }
}

impl FiringXyz {
    /// Number of points.
    pub open spec fn len(self) -> int {
        match self {
            FiringXyz::Single16(f) | FiringXyz::Single32(f) => f.points@.len() as int,
            FiringXyz::Dual16(f) | FiringXyz::Dual32(f) => f.points@.len() as int,
        }
    }

    pub open spec fn laser_id_at(self, k: int) -> usize {
        match self {
            FiringXyz::Single16(f) | FiringXyz::Single32(f) => f.points@[k].laser_id,
            FiringXyz::Dual16(f) | FiringXyz::Dual32(f) => f.points@[k].laser_id,
        }
    }

    pub open spec fn time_at(self, k: int) -> u64 {
        match self {
            FiringXyz::Single16(f) | FiringXyz::Single32(f) => f.points@[k].time,
            FiringXyz::Dual16(f) | FiringXyz::Dual32(f) => f.points@[k].time,
        }
    }

    pub open spec fn azimuth_at(self, k: int) -> u32 {
        match self {
            FiringXyz::Single16(f) | FiringXyz::Single32(f) => f.points@[k].azimuth,
            FiringXyz::Dual16(f) | FiringXyz::Dual32(f) => f.points@[k].azimuth,
        }
    }

    /// Same format, time, range and points.
    pub open spec fn same_as(self, other: FiringXyz) -> bool {
        match (self, other) {
            (FiringXyz::Single16(a), FiringXyz::Single16(b)) | (FiringXyz::Single32(a), FiringXyz::Single32(b)) => {
                a.time == b.time && a.azimuth_range == b.azimuth_range && a.points@ == b.points@
            },
            (FiringXyz::Dual16(a), FiringXyz::Dual16(b)) | (FiringXyz::Dual32(a), FiringXyz::Dual32(b)) => {
                a.time == b.time && a.azimuth_range == b.azimuth_range && a.points@ == b.points@
            },
            _ => false,
        }
    }
}

proof fn lemma_slot_order(beams: int, k1: int, k2: int)
    requires
        beams == 16 || beams == 32,
        0 <= k1 <= k2 < beams,
    ensures
        0 <= slot(beams, k1) <= slot(beams, k2) <= 15,
{
    if beams == 32 {
        vstd::arithmetic::div_mod::lemma_div_is_ordered(k1, k2, 2);
    }
}

/// The laser slots of a firing at `time` follow one another within a firing
/// period.
proof fn lemma_channel_times(time: u64, beams: int, k1: int, k2: int)
    requires
        beams == 16 || beams == 32,
        0 <= k1 <= k2 < beams,
        time <= MAX_FIRING_TIME,
    ensures
        channel_time(time as int, beams, k1) as u64 == channel_time(time as int, beams, k1),
        channel_time(time as int, beams, k2) as u64 == channel_time(time as int, beams, k2),
        channel_time(time as int, beams, k1) <= channel_time(time as int, beams, k2),
        channel_time(time as int, beams, k2) - channel_time(time as int, beams, k1) <= FIRING_PERIOD,
{
    lemma_slot_order(beams, k1, k2);
    lemma_slot_order(beams, 0, k1);
}

proof fn lemma_single_points(c: Converter, x: FiringXyzSingle, time: u64, range: AzimuthInterval, chs: Seq<Channel>, beams: int)
    requires
        beams == 16 || beams == 32,
        c.wf_for(beams),
        time <= MAX_FIRING_TIME,
        c.projects_single(x, time, range, chs, beams),
    ensures
        forall|k: int| 0 <= k < beams ==> (#[trigger] x.points@[k]).laser_id == k && x.points@[k].azimuth < FULL_TURN,
        forall|k1: int, k2: int| 0 <= k1 <= k2 < beams ==> (#[trigger] x.points@[k1]).time <= (#[trigger] x.points@[k2]).time
            && x.points@[k2].time - x.points@[k1].time <= FIRING_PERIOD,
{
    assert forall|k1: int, k2: int| 0 <= k1 <= k2 < beams implies (#[trigger] x.points@[k1]).time
        <= (#[trigger] x.points@[k2]).time && x.points@[k2].time - x.points@[k1].time <= FIRING_PERIOD by {
        lemma_channel_times(time, beams, k1, k2);
    }
}

proof fn lemma_dual_points(
    c: Converter,
    x: FiringXyzDual,
    time: u64,
    range: AzimuthInterval,
    strongest: Seq<Channel>,
    last: Seq<Channel>,
    beams: int,
)
    requires
        beams == 16 || beams == 32,
        c.wf_for(beams),
        time <= MAX_FIRING_TIME,
        c.projects_dual(x, time, range, strongest, last, beams),
    ensures
        forall|k: int| 0 <= k < beams ==> (#[trigger] x.points@[k]).laser_id == k && x.points@[k].azimuth < FULL_TURN,
        forall|k1: int, k2: int| 0 <= k1 <= k2 < beams ==> (#[trigger] x.points@[k1]).time <= (#[trigger] x.points@[k2]).time
            && x.points@[k2].time - x.points@[k1].time <= FIRING_PERIOD,
{
    assert forall|k1: int, k2: int| 0 <= k1 <= k2 < beams implies (#[trigger] x.points@[k1]).time
        <= (#[trigger] x.points@[k2]).time && x.points@[k2].time - x.points@[k1].time <= FIRING_PERIOD by {
        lemma_channel_times(time, beams, k1, k2);
    }
}

/// A projected firing has one point per beam of its format, point `k` comes
/// from laser `k`, the lasers fire in order within one firing period, and
/// every azimuth lies in `[0°, 360°)`.
pub proof fn lemma_firing_xyz_points(conv: ConverterKind, x: FiringXyz, f: FiringKind)
    requires
        conv.wf(),
        f.shape_ok(),
        conv.projects(x, f),
    ensures
        x.len() == conv.format().beams(),
        forall|k: int| 0 <= k < x.len() ==> #[trigger] x.laser_id_at(k) == k,
        forall|k: int| 0 <= k < x.len() ==> #[trigger] x.azimuth_at(k) < FULL_TURN,
        forall|k1: int, k2: int|
            0 <= k1 <= k2 < x.len() ==> x.time_at(k1) <= #[trigger] x.time_at(k2) && x.time_at(k2)
                - #[trigger] x.time_at(k1) <= FIRING_PERIOD,
{
    let c = conv.inner();
    match (x, f) {
        (FiringXyz::Single16(a), FiringKind::Single16(g)) => lemma_single_points(c, a, g.time, g.azimuth_range, g.channels@, 16),
        (FiringXyz::Single32(a), FiringKind::Single32(g)) => lemma_single_points(c, a, g.time, g.azimuth_range, g.channels@, 32),
        (FiringXyz::Dual16(a), FiringKind::Dual16(g)) => lemma_dual_points(
            c,
            a,
            g.time,
            g.azimuth_range,
            g.channels_strongest@,
            g.channels_last@,
            16,
        ),
        (FiringXyz::Dual32(a), FiringKind::Dual32(g)) => lemma_dual_points(
            c,
            a,
            g.time,
            g.azimuth_range,
            g.channels_strongest@,
            g.channels_last@,
            32,
        ),
        _ => {},
    }
}

/// Projection depends on nothing but the packet and the calibration: two
/// projections of one firing of one packet by one converter are the same.
pub proof fn lemma_projection_deterministic(conv: ConverterKind, p: PacketView, j: int, x1: FiringXyz, x2: FiringXyz)
    requires
        conv.projects_packet_firing(x1, p, j),
        conv.projects_packet_firing(x2, p, j),
    ensures
        x1.same_as(x2),
{
    match (x1, x2) {
        (FiringXyz::Single16(a), FiringXyz::Single16(b)) | (FiringXyz::Single32(a), FiringXyz::Single32(b)) => {
            assert(a.points@ =~= b.points@);
        },
        (FiringXyz::Dual16(a), FiringXyz::Dual16(b)) | (FiringXyz::Dual32(a), FiringXyz::Dual32(b)) => {
            assert(a.points@ =~= b.points@);
        },
        _ => {},
    }
}

} // verus!
