//! Byte-level decoding of the file formats.

use pos::bytes::{copy_range, le_i64_at, le_u16_at, le_u32_at, le_u64_at};
use pos::point::SatelliteCount;
use pos::{pof, poq, sbet, Error};

fn put_u16(bytes: &mut [u8], offset: usize, value: u16) {
    bytes[offset..offset + 2].copy_from_slice(&value.to_le_bytes());
}

fn put_u32(bytes: &mut [u8], offset: usize, value: u32) {
    bytes[offset..offset + 4].copy_from_slice(&value.to_le_bytes());
}

fn put_i64(bytes: &mut [u8], offset: usize, value: i64) {
    bytes[offset..offset + 8].copy_from_slice(&value.to_le_bytes());
}

fn put_f64(bytes: &mut [u8], offset: usize, value: f64) {
    bytes[offset..offset + 8].copy_from_slice(&value.to_le_bytes());
}

#[test]
fn little_endian_fields() {
    let bytes: Vec<u8> = vec![
        0x34, 0x12, 0x78, 0x56, 0xFF, 0xFF, 0xFF, 0xFF, 0xFF, 0xFF, 0xFF, 0xFF,
    ];
    assert_eq!(0x1234, le_u16_at(&bytes, 0));
    assert_eq!(0x5678, le_u16_at(&bytes, 2));
    assert_eq!(0x5678_1234, le_u32_at(&bytes, 0));
    assert_eq!(0xFFFF_FFFF_5678_1234, le_u64_at(&bytes, 0));
    assert_eq!(-1i64, le_i64_at(&bytes, 4));
}

#[test]
fn signed_field_round_trips() {
    let mut bytes: Vec<u8> = vec![0; 16];
    put_i64(&mut bytes, 0, -1114521);
    put_i64(&mut bytes, 8, i64::MIN);
    assert_eq!(-1114521, le_i64_at(&bytes, 0));
    assert_eq!(i64::MIN, le_i64_at(&bytes, 8));
}

#[test]
fn copied_ranges_match() {
    let bytes: Vec<u8> = (0u8..32).collect();
    let mid = copy_range(&bytes, 8, 12);
    assert_eq!(vec![8u8, 9, 10, 11], mid);
    let empty = copy_range(&bytes, 5, 5);
    assert!(empty.is_empty());
}

fn pof_header_bytes() -> Vec<u8> {
    let mut bytes: Vec<u8> = vec![0; pof::HEADER_LEN];
    put_u16(&mut bytes, 27, 1); // major
    put_u16(&mut bytes, 29, 1); // minor
    put_u32(&mut bytes, 31, 315); // data offset
    put_u16(&mut bytes, 35, 2015); // year
    put_u16(&mut bytes, 37, 4); // month
    put_u16(&mut bytes, 39, 29); // day
    put_i64(&mut bytes, 41, 1114521); // entries
    put_f64(&mut bytes, 49, -108.0); // minlon
    put_f64(&mut bytes, 57, -107.0); // maxlon
    put_f64(&mut bytes, 97, 0.005); // avgint
    bytes[121] = 1; // time unit: day
    bytes[122] = 0; // time info: gps
    bytes[123..126].copy_from_slice(b"UTC");
    bytes[219..226].copy_from_slice(b"mission");
    bytes
}

#[test]
fn pof_header() {
    let bytes = pof_header_bytes();
    let header = pof::parse_header(&bytes).unwrap();
    assert_eq!(pof::Version::new(1, 1), header.version);
    assert_eq!(315, header.data_offset);
    assert_eq!(2015, header.year);
    assert_eq!(4, header.month);
    assert_eq!(29, header.day);
    assert_eq!(1114521, header.entries);
    assert_eq!((-108.0f64).to_bits(), header.minlon);
    assert_eq!((-107.0f64).to_bits(), header.maxlon);
    assert_eq!(0.005f64.to_bits(), header.avgint);
    assert!(matches!(header.timeunit, pof::TimeUnit::Day));
    assert!(matches!(header.timeinfo, pof::TimeInfo::Gps));
    assert_eq!(b"UTC".to_vec(), header.timezone[..3].to_vec());
    assert_eq!(b"mission".to_vec(), header.project[..7].to_vec());
    assert_eq!(16, header.timezone.len());
    assert_eq!(16, header.location.len());
    assert_eq!(32, header.device.len());
    assert_eq!(32, header.project.len());
    assert_eq!(32, header.company.len());
}

#[test]
fn pof_header_rejects_bad_time_unit() {
    let mut bytes = pof_header_bytes();
    bytes[121] = 3;
    assert_eq!(Err(Error::PofTimeUnit(3)), pof::parse_header(&bytes).map(|_| ()));
}

#[test]
fn pof_header_rejects_bad_time_info() {
    let mut bytes = pof_header_bytes();
    bytes[122] = 9;
    assert_eq!(Err(Error::PofTimeInfo(9)), pof::parse_header(&bytes).map(|_| ()));
}

#[test]
fn pof_time_codes() {
    assert!(matches!(pof::TimeUnit::from_u8(0), Ok(pof::TimeUnit::Normalized)));
    assert!(matches!(pof::TimeUnit::from_u8(2), Ok(pof::TimeUnit::Week)));
    assert!(matches!(pof::TimeUnit::from_u8(3), Err(Error::PofTimeUnit(3))));
    assert!(matches!(pof::TimeInfo::from_u8(1), Ok(pof::TimeInfo::Utc)));
    assert!(matches!(pof::TimeInfo::from_u8(2), Ok(pof::TimeInfo::Unknown)));
    assert!(matches!(pof::TimeInfo::from_u8(255), Err(Error::PofTimeInfo(255))));
}

#[test]
fn pof_versions_decide_the_distance_field() {
    assert!(pof::Version::new(1, 1).has_distance());
    assert!(!pof::Version::new(1, 0).has_distance());
}

#[test]
fn pof_point_with_distance() {
    let mut bytes: Vec<u8> = vec![0; pof::RECORD_LEN_WITH_DISTANCE];
    put_f64(&mut bytes, 0, 53809.00320500246);
    put_f64(&mut bytes, 8, -107.8941420696491);
    put_f64(&mut bytes, 16, 38.52696630463423);
    put_f64(&mut bytes, 24, 1721.1666764324254);
    put_f64(&mut bytes, 32, -0.35218866203789795);
    put_f64(&mut bytes, 40, 2.3209047516182637);
    put_f64(&mut bytes, 48, 359.62872162328546);
    put_f64(&mut bytes, 56, 0.0);
    let record = pof::parse_point(&bytes, true);
    assert_eq!(53809.00320500246, f64::from_bits(record.time));
    assert_eq!(-107.8941420696491, f64::from_bits(record.longitude));
    assert_eq!(38.52696630463423, f64::from_bits(record.latitude));
    assert_eq!(1721.1666764324254, f64::from_bits(record.altitude));
    assert_eq!(-0.35218866203789795, f64::from_bits(record.roll));
    assert_eq!(2.3209047516182637, f64::from_bits(record.pitch));
    assert_eq!(359.62872162328546, f64::from_bits(record.yaw));
    assert_eq!(0.0, f64::from_bits(record.distance.unwrap()));
}

#[test]
fn pof_point_without_distance() {
    let mut bytes: Vec<u8> = vec![0; pof::RECORD_LEN];
    put_f64(&mut bytes, 0, 1.5);
    let record = pof::parse_point(&bytes, false);
    assert_eq!(1.5, f64::from_bits(record.time));
    assert_eq!(None, record.distance);
}

#[test]
fn poq_header() {
    let mut bytes: Vec<u8> = vec![0; poq::HEADER_LEN];
    put_u16(&mut bytes, 35, 1);
    put_u16(&mut bytes, 37, 1);
    put_f64(&mut bytes, 39, 0.1);
    put_f64(&mut bytes, 47, 0.5);
    put_f64(&mut bytes, 55, 0.01);
    let header = poq::parse_header(&bytes);
    assert_eq!(poq::Version::new(1, 1), header.version);
    assert_eq!(0.1f64.to_bits(), header.avgint);
    assert_eq!(0.5f64.to_bits(), header.maxint);
    assert_eq!(0.01f64.to_bits(), header.devint);
}

#[test]
fn poq_versions_decide_the_satellite_count_shape() {
    assert!(poq::Version::new(1, 1).specifies_satellite_count());
    assert!(!poq::Version::new(1, 0).specifies_satellite_count());
}

#[test]
fn poq_record_axes_are_renamed() {
    let mut bytes: Vec<u8> = vec![0; poq::RECORD_LEN_SPECIFIED];
    put_f64(&mut bytes, 0, 100.0); // time
    put_f64(&mut bytes, 8, 1.0); // north
    put_f64(&mut bytes, 16, 2.0); // east
    put_f64(&mut bytes, 24, 3.0); // down
    put_f64(&mut bytes, 56, 1.8); // pdop
    put_u16(&mut bytes, 64, 7);
    put_u16(&mut bytes, 66, 5);
    let record = poq::parse_accuracy(&bytes, true);
    assert_eq!(100.0, f64::from_bits(record.time));
    assert_eq!(1.0, f64::from_bits(record.y));
    assert_eq!(2.0, f64::from_bits(record.x));
    assert_eq!(3.0, f64::from_bits(record.z));
    assert_eq!(1.8, f64::from_bits(record.pdop));
    assert_eq!(SatelliteCount::Specified { gps: 7, glonass: 5 }, record.satellite_count);
}

#[test]
fn poq_record_with_bare_count() {
    let mut bytes: Vec<u8> = vec![0; poq::RECORD_LEN];
    put_u16(&mut bytes, 64, 11);
    let record = poq::parse_accuracy(&bytes, false);
    assert_eq!(SatelliteCount::Unspecified(11), record.satellite_count);
}

#[test]
fn sbet_point() {
    let mut bytes: Vec<u8> = vec![0; sbet::RECORD_LEN];
    put_f64(&mut bytes, 0, 151631.00483607102);
    put_f64(&mut bytes, 8, 0.5680211);
    put_f64(&mut bytes, 16, -1.883);
    put_f64(&mut bytes, 32, 5.5); // x velocity
    put_f64(&mut bytes, 80, 0.25); // wander angle
    put_f64(&mut bytes, 128, -0.125); // z angular rate
    let record = sbet::parse_point(&bytes);
    assert_eq!(151631.00483607102, f64::from_bits(record.time));
    assert_eq!(0.5680211, f64::from_bits(record.latitude));
    assert_eq!(-1.883, f64::from_bits(record.longitude));
    assert_eq!(5.5, f64::from_bits(record.x_velocity));
    assert_eq!(0.25, f64::from_bits(record.wander_angle));
    assert_eq!(-0.125, f64::from_bits(record.z_angular_rate));
}
