use velodyne_lidar::batcher::{frame_azimuth_range, Batcher};
use velodyne_lidar::converter::{
    firing_single_32_to_xyz, Config, ConverterKind, FiringXyz, FiringXyzRef, LaserParameter,
};
use velodyne_lidar::error::Error;
use velodyne_lidar::firing::{AzimuthInterval, FiringDual, FiringKind, FiringSingle};
use velodyne_lidar::format::{FiringFormat, ReturnMode};
use velodyne_lidar::geometry::{spherical_to_xyz, SineTable, Xyz, SINE_ONE};
use velodyne_lidar::ouster::{bool_from_int, bool_to_int};
use velodyne_lidar::packet::{Block, Channel, DataPacket};

const STRONGEST: u8 = 0x37;
const LAST: u8 = 0x38;
const DUAL: u8 = 0x39;
const VLP16: u8 = 0x22;
const HDL32: u8 = 0x21;

fn packet(azimuths: &[u16], timestamp: u32, return_mode: u8, product_id: u8) -> DataPacket {
    let blocks = azimuths
        .iter()
        .enumerate()
        .map(|(k, &azimuth)| Block {
            azimuth,
            channels: (0..32)
                .map(|c| Channel {
                    distance: (100 * k + c + 1) as u16,
                    intensity: (k * 10 + c) as u8,
                })
                .collect(),
        })
        .collect();
    DataPacket {
        blocks,
        timestamp,
        return_mode,
        product_id,
    }
}

fn even_azimuths(first: u16, step: u16) -> Vec<u16> {
    (0..12).map(|k| ((first as u32 + step as u32 * k) % 36000) as u16).collect()
}

fn sines() -> SineTable {
    let values: Vec<i64> = (0..36000)
        .map(|i| {
            let rad = (i as f64 / 100.0).to_radians();
            (rad.sin() * SINE_ONE as f64).round() as i64
        })
        .collect();
    SineTable::new(values).unwrap()
}

fn lasers(n: usize) -> Vec<LaserParameter> {
    (0..n)
        .map(|_| LaserParameter {
            elevation: 0,
            azimuth_offset: 0,
            vertical_offset: 0,
            horizontal_offset: 0,
        })
        .collect()
}

fn converter(return_mode: ReturnMode, product_id: u8, n: usize) -> ConverterKind {
    let config = Config {
        lasers: lasers(n),
        distance_resolution: 2000,
        return_mode,
        product_id,
    };
    ConverterKind::from_config(config, sines()).unwrap()
}

fn start_of(f: &FiringKind) -> u32 {
    f.azimuth_range().start
}

fn end_of(f: &FiringKind) -> u32 {
    f.azimuth_range().end
}

#[test]
fn parse_rejects_wrong_size() {
    assert_eq!(DataPacket::parse(&[0u8; 1205]).unwrap_err(), Error::PacketMalformed);
    assert_eq!(DataPacket::parse(&[0u8; 1207]).unwrap_err(), Error::PacketMalformed);
    assert_eq!(DataPacket::parse(&[]).unwrap_err(), Error::PacketMalformed);
}

#[test]
fn parse_rejects_bad_marker() {
    let p = packet(&even_azimuths(0, 20), 7, STRONGEST, VLP16);
    let mut bytes = p.serialize();
    bytes[500] = 0x00;
    assert_eq!(DataPacket::parse(&bytes).unwrap_err(), Error::PacketMalformed);
}

#[test]
fn serialize_layout_is_little_endian() {
    let p = packet(&even_azimuths(0x1234, 20), 0x0A0B0C0D, DUAL, HDL32);
    let bytes = p.serialize();
    assert_eq!(bytes.len(), 1206);
    assert_eq!(&bytes[0..4], &[0xEE, 0xFF, 0x34, 0x12]);
    assert_eq!(&bytes[4..7], &[1, 0, 0]);
    assert_eq!(&bytes[1200..1206], &[0x0D, 0x0C, 0x0B, 0x0A, DUAL, HDL32]);
}

#[test]
fn parse_of_serialize_gives_packet_back() {
    let p = packet(&even_azimuths(35990, 17), 3_599_999_999, LAST, VLP16);
    let q = DataPacket::parse(&p.serialize()).unwrap();
    assert_eq!(p, q);
}

#[test]
fn tail_bytes_map_to_formats() {
    let mut p = packet(&even_azimuths(0, 20), 0, STRONGEST, VLP16);
    assert_eq!(p.return_mode(), Ok(ReturnMode::Strongest));
    assert_eq!(p.firing_format(), Ok(FiringFormat::Single16));
    p.return_mode = LAST;
    p.product_id = HDL32;
    assert_eq!(p.return_mode(), Ok(ReturnMode::Last));
    assert_eq!(p.firing_format(), Ok(FiringFormat::Single32));
    p.return_mode = DUAL;
    assert_eq!(p.firing_format(), Ok(FiringFormat::Dual32));
    p.product_id = 0x24;
    assert_eq!(p.firing_format(), Ok(FiringFormat::Dual16));
    p.return_mode = 0x40;
    assert_eq!(p.return_mode(), Err(Error::PacketMalformed));
    assert_eq!(p.firing_format(), Err(Error::PacketMalformed));
    p.return_mode = DUAL;
    p.product_id = 0x99;
    assert_eq!(p.beam_count(), Err(Error::PacketMalformed));
    assert_eq!(p.firings().unwrap_err(), Error::PacketMalformed);
}

#[test]
fn firing_count_per_format() {
    let az = even_azimuths(0, 20);
    let count = |mode: u8, id: u8| packet(&az, 0, mode, id).firings().unwrap().len();
    assert_eq!(count(STRONGEST, VLP16), 24);
    assert_eq!(count(STRONGEST, HDL32), 12);
    assert_eq!(count(DUAL, VLP16), 12);
    assert_eq!(count(DUAL, HDL32), 6);
}

#[test]
fn single16_halves_and_times() {
    let p = packet(&even_azimuths(1000, 40), 10, STRONGEST, VLP16);
    let firings = p.firings().unwrap();
    match (&firings[2], &firings[3]) {
        (FiringKind::Single16(a), FiringKind::Single16(b)) => {
            assert_eq!(a.time, 10_000 + 55_296);
            assert_eq!(b.time, 10_000 + 55_296 + 27_648);
            assert_eq!(a.azimuth_range, AzimuthInterval { start: 1040, end: 1060 });
            assert_eq!(b.azimuth_range, AzimuthInterval { start: 1060, end: 1080 });
            assert_eq!(a.channels.len(), 16);
            assert_eq!(a.channels[0], p.blocks[1].channels[0]);
            assert_eq!(b.channels[0], p.blocks[1].channels[16]);
        }
        _ => panic!("expected single-return 16-beam firings"),
    }
}

#[test]
fn azimuth_wrap_inside_packet() {
    let mut az = vec![35900, 35990, 90, 180];
    for k in 4..12 {
        az.push(90 * (k as u16 - 1));
    }
    let p = packet(&az, 0, STRONGEST, HDL32);
    let firings = p.firings().unwrap();
    for f in &firings {
        assert!(start_of(f) < 36000 && end_of(f) < 36000);
    }
    assert_eq!(start_of(&firings[1]), 35990);
    assert_eq!(end_of(&firings[1]), 90);
    assert_eq!(start_of(&firings[2]), 90);

    let p16 = packet(&az, 0, STRONGEST, VLP16);
    let firings16 = p16.firings().unwrap();
    // the sweep from 359.9° to 0.9° is 1°: its middle is 0.4°
    assert_eq!(end_of(&firings16[2]), 40);
    assert_eq!(start_of(&firings16[3]), 40);
    assert_eq!(start_of(&firings16[4]), 90);
}

#[test]
fn last_block_azimuth_extrapolation() {
    let p = packet(&even_azimuths(1000, 20), 0, STRONGEST, VLP16);
    let firings = p.firings().unwrap();
    assert_eq!(end_of(&firings[23]), 1000 + 11 * 20 + 20);

    let p = packet(&even_azimuths(35760, 20), 0, STRONGEST, HDL32);
    let firings = p.firings().unwrap();
    assert_eq!(start_of(&firings[11]), 35980);
    assert_eq!(end_of(&firings[11]), 0);
}

#[test]
fn dual_blocks_pair_up() {
    let mut az = Vec::new();
    for i in 0..6 {
        az.push(2000 + 100 * i);
        az.push(2000 + 100 * i);
    }
    let p = packet(&az, 5, DUAL, HDL32);
    let firings = p.firings().unwrap();
    match &firings[1] {
        FiringKind::Dual32(f) => {
            assert_eq!(f.time, 5_000 + 55_296);
            assert_eq!(f.azimuth_range, AzimuthInterval { start: 2100, end: 2200 });
            assert_eq!(f.channels_strongest, p.blocks[2].channels);
            assert_eq!(f.channels_last, p.blocks[3].channels);
        }
        _ => panic!("expected a dual-return 32-beam firing"),
    }
    match &firings[5] {
        FiringKind::Dual32(f) => assert_eq!(f.azimuth_range.end, 2600),
        _ => panic!("expected a dual-return 32-beam firing"),
    }
}

fn firing_at(start_deg: u32) -> FiringKind {
    FiringKind::Single32(FiringSingle {
        time: 0,
        azimuth_range: AzimuthInterval {
            start: start_deg * 100,
            end: start_deg * 100,
        },
        channels: vec![],
    })
}

#[test]
fn batcher_across_two_revolutions() {
    let input: Vec<FiringKind> = [0, 90, 180, 270, 350, 5, 90, 180]
        .iter()
        .map(|&d| firing_at(d))
        .collect();
    let frames = Batcher::new().with_iter(input.clone());
    assert_eq!(frames.len(), 2);
    assert_eq!(frames[0].len(), 5);
    assert_eq!(frames[1].len(), 3);
    let joined: Vec<FiringKind> = frames.into_iter().flatten().collect();
    assert_eq!(joined, input);
}

#[test]
fn batcher_push_one_and_take() {
    let mut b = Batcher::new();
    assert!(b.take().is_none());
    assert!(b.push_one(firing_at(10)).is_none());
    assert!(b.push_one(firing_at(10)).is_none());
    assert!(b.push_one(firing_at(20)).is_none());
    let frame = b.push_one(firing_at(5)).unwrap();
    assert_eq!(frame.len(), 3);
    let rest = b.take().unwrap();
    assert_eq!(rest, vec![firing_at(5)]);
    assert!(b.take().is_none());
}

#[test]
fn batcher_push_many_keeps_partial_frame() {
    let mut b = Batcher::new();
    let done = b.push_many(vec![firing_at(300), firing_at(10), firing_at(20)]);
    assert_eq!(done, vec![vec![firing_at(300)]]);
    assert_eq!(b.take().unwrap(), vec![firing_at(10), firing_at(20)]);
}

#[test]
fn batcher_three_revolutions_concatenate() {
    let degrees = [10, 200, 350, 20, 30, 359, 1, 2];
    let input: Vec<FiringKind> = degrees.iter().map(|&d| firing_at(d)).collect();
    let frames = Batcher::new().with_iter(input.clone());
    assert_eq!(frames.len(), 3);
    let joined: Vec<FiringKind> = frames.into_iter().flatten().collect();
    assert_eq!(joined, input);
}

#[test]
fn dual_return_points_share_geometry() {
    let conv = converter(ReturnMode::Dual, VLP16, 16);
    let mut az = Vec::new();
    for i in 0..6 {
        az.push(3000 + 200 * i);
        az.push(3000 + 200 * i);
    }
    let mut p = packet(&az, 0, DUAL, VLP16);
    for c in 0..32 {
        p.blocks[1].channels[c].distance = 1000;
    }
    let xs = conv.packet_to_firing_xyz_iter(&p).unwrap();
    assert_eq!(xs.len(), 12);
    match &xs[0] {
        FiringXyz::Dual16(f) => {
            assert_eq!(f.points.len(), 16);
            for (k, point) in f.points.iter().enumerate() {
                assert_eq!(point.laser_id, k);
                assert_eq!(point.strongest.distance, (k as u64 + 1) * 2000);
                assert_eq!(point.last.distance, 1000 * 2000);
                assert_ne!(point.strongest.xyz, point.last.xyz);
            }
        }
        _ => panic!("expected a dual-return 16-beam firing"),
    }
}

#[test]
fn config_with_wrong_laser_count() {
    let config = Config {
        lasers: lasers(15),
        distance_resolution: 2000,
        return_mode: ReturnMode::Strongest,
        product_id: VLP16,
    };
    assert_eq!(
        ConverterKind::from_config(config, sines()).unwrap_err(),
        Error::ConfigInvalid
    );
}

#[test]
fn config_with_zero_resolution_or_unknown_product() {
    let config = Config {
        lasers: lasers(16),
        distance_resolution: 0,
        return_mode: ReturnMode::Strongest,
        product_id: VLP16,
    };
    assert_eq!(config.firing_format(), Ok(FiringFormat::Single16));
    assert_eq!(
        ConverterKind::from_config(config, sines()).unwrap_err(),
        Error::ConfigInvalid
    );
    let config = Config {
        lasers: lasers(16),
        distance_resolution: 2000,
        return_mode: ReturnMode::Strongest,
        product_id: 0x99,
    };
    assert_eq!(config.firing_format(), Err(Error::ConfigInvalid));
    assert_eq!(
        ConverterKind::from_config(config, sines()).unwrap_err(),
        Error::ConfigInvalid
    );
}

#[test]
fn spherical_projection_unit() {
    let one = SINE_ONE;
    let s2 = (SINE_ONE as i128) * (SINE_ONE as i128);
    let ten_m: u64 = 10_000_000;
    assert_eq!(
        spherical_to_xyz(ten_m, 0, one, 0, one, 0, 0),
        Xyz { x: 0, y: 10_000_000 * s2, z: 0 }
    );
    assert_eq!(
        spherical_to_xyz(ten_m, 0, one, one, 0, 0, 0),
        Xyz { x: 10_000_000 * s2, y: 0, z: 0 }
    );
    assert_eq!(
        spherical_to_xyz(ten_m, one, 0, 0, one, 0, 0),
        Xyz { x: 0, y: 0, z: 10_000_000 * s2 }
    );
}

#[test]
fn zero_distance_projects_offsets_only() {
    let one = SINE_ONE;
    let s2 = (SINE_ONE as i128) * (SINE_ONE as i128);
    // elevation 0°, azimuth 0°: the horizontal offset points along -x
    assert_eq!(
        spherical_to_xyz(0, 0, one, 0, one, 300, 50),
        Xyz { x: -50 * s2, y: 0, z: 300 * s2 }
    );
    // azimuth 90°: it turns onto +y
    assert_eq!(
        spherical_to_xyz(0, 0, one, one, 0, 300, 50),
        Xyz { x: 0, y: 50 * s2, z: 300 * s2 }
    );
}

#[test]
fn sine_table_checks_its_values() {
    assert!(SineTable::new(vec![0; 100]).is_none());
    let mut values = vec![0i64; 36000];
    values[7] = SINE_ONE + 1;
    assert!(SineTable::new(values).is_none());
    let table = sines();
    assert_eq!(table.sin_cos(9000), (SINE_ONE, 0));
    assert_eq!(table.sin_cos(-9000), (-SINE_ONE, 0));
    assert_eq!(table.sin_cos(0), (0, SINE_ONE));
}

#[test]
fn projected_times_and_azimuths() {
    let conv = converter(ReturnMode::Strongest, HDL32, 32);
    let p = packet(&even_azimuths(1000, 40), 1, STRONGEST, HDL32);
    let xs = conv.packet_to_firing_xyz_iter(&p).unwrap();
    assert_eq!(xs.len(), 12);
    match &xs[0] {
        FiringXyz::Single32(f) => {
            assert_eq!(f.points.len(), 32);
            assert_eq!(f.points[0].time, 1000);
            assert_eq!(f.points[1].time, 1000);
            assert_eq!(f.points[2].time, 1000 + 2304);
            assert_eq!(f.points[31].time, 1000 + 15 * 2304);
            assert!(f.points[31].time - f.points[0].time <= 55_296);
            // 40 centi-degrees over a firing period, 2.304 µs in: 1 centi-degree
            assert_eq!(f.points[2].azimuth, 1001);
            assert_eq!(f.points[31].azimuth, 1000 + 40 * 15 * 2304 / 55296);
            for (k, point) in f.points.iter().enumerate() {
                assert_eq!(point.laser_id, k);
                assert!(point.azimuth < 36000);
            }
        }
        _ => panic!("expected a single-return 32-beam firing"),
    }
    assert_eq!(xs[3].time(), 1000 + 3 * 55_296);
    assert_eq!(FiringXyzRef::Single32(match &xs[3] {
        FiringXyz::Single32(f) => f,
        _ => panic!("expected a single-return 32-beam firing"),
    })
    .time(), 1000 + 3 * 55_296);
}

#[test]
fn azimuth_offset_wraps_below_zero() {
    let mut ls = lasers(32);
    ls[0].azimuth_offset = -1500;
    let firing = FiringSingle {
        time: 0,
        azimuth_range: AzimuthInterval { start: 1000, end: 1040 },
        channels: vec![Channel { distance: 0, intensity: 0 }; 32],
    };
    let x = firing_single_32_to_xyz(&firing, 2000, &ls, &sines());
    assert_eq!(x.points[0].azimuth, 35500);
}

#[test]
fn projection_is_deterministic() {
    let conv = converter(ReturnMode::Strongest, VLP16, 16);
    let p = packet(&even_azimuths(123, 37), 42, STRONGEST, VLP16);
    let a = conv.packet_to_firing_xyz_iter(&p).unwrap();
    let b = conv.packet_to_firing_xyz_iter(&p).unwrap();
    assert_eq!(a, b);
}

#[test]
fn converter_refuses_other_formats() {
    let conv = converter(ReturnMode::Strongest, VLP16, 16);
    assert_eq!(conv.firing_format(), FiringFormat::Single16);
    let p = packet(&even_azimuths(0, 20), 0, STRONGEST, HDL32);
    assert_eq!(conv.packet_to_firing_xyz_iter(&p).unwrap_err(), Error::FormatMismatch);
    let bad = packet(&even_azimuths(0, 20), 0, 0x10, VLP16);
    assert_eq!(conv.packet_to_firing_xyz_iter(&bad).unwrap_err(), Error::PacketMalformed);
    let firing = FiringKind::Dual16(FiringDual {
        time: 0,
        azimuth_range: AzimuthInterval { start: 0, end: 10 },
        channels_strongest: vec![Channel { distance: 1, intensity: 1 }; 16],
        channels_last: vec![Channel { distance: 1, intensity: 1 }; 16],
    });
    assert_eq!(conv.firing_to_firing_xyz(firing).unwrap_err(), Error::FormatMismatch);
    let firing = FiringKind::Single16(FiringSingle {
        time: 0,
        azimuth_range: AzimuthInterval { start: 0, end: 10 },
        channels: vec![Channel { distance: 1, intensity: 1 }; 16],
    });
    assert!(matches!(conv.firing_to_firing_xyz(firing), Ok(FiringXyz::Single16(_))));
}

#[test]
fn packets_to_frames() {
    let conv = converter(ReturnMode::Strongest, HDL32, 32);
    let packets: Vec<DataPacket> = (0..4)
        .map(|i| packet(&even_azimuths(34000 + 1200 * i, 100), i as u32, STRONGEST, HDL32))
        .collect();
    let firings = conv.packet_iter_to_firing_xyz_iter(&packets).unwrap();
    assert_eq!(firings.len(), 48);
    let frames = conv.packet_iter_to_frame_xyz_iter(&packets).unwrap();
    assert_eq!(frames.len(), 2);
    assert_eq!(frames[0].len() + frames[1].len(), 48);
    assert_eq!(frames.concat(), firings);

    let mut mixed = packets;
    mixed[2].product_id = VLP16;
    assert_eq!(conv.packet_iter_to_frame_xyz_iter(&mixed).unwrap_err(), Error::FormatMismatch);
}

#[test]
fn converter_kind_variants() {
    let conv = converter(ReturnMode::Dual, HDL32, 32);
    let conv = conv.try_into_single16().unwrap_err();
    let conv = conv.try_into_dual16().unwrap_err();
    assert!(conv.try_into_dual32().is_ok());
    let conv = converter(ReturnMode::Last, VLP16, 16);
    let _inner = conv.into_single16();
}

#[test]
fn flags_as_integers() {
    assert_eq!(bool_from_int(0), Ok(false));
    assert_eq!(bool_from_int(1), Ok(true));
    assert_eq!(bool_from_int(2), Err(Error::ProtocolUnexpected));
    assert_eq!(bool_to_int(true), 1);
    assert_eq!(bool_to_int(false), 0);
}

#[test]
fn frame_range_spans_first_start_to_last_end() {
    let frame = vec![firing_at(10), firing_at(20), firing_at(30)];
    assert_eq!(
        frame_azimuth_range(&frame),
        Some(AzimuthInterval { start: 1000, end: 3000 })
    );
    let empty: Vec<FiringKind> = Vec::new();
    assert_eq!(frame_azimuth_range(&empty), None);
    let b: Batcher<FiringKind> = Batcher::default();
    assert!(b.with_iter(empty).is_empty());
}
