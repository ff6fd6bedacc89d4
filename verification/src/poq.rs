//! Position and orientation quality files.
//!
//! The companion accuracy stream of a position file.  This module owns the
//! byte layout of the file header and of one accuracy record; reading the
//! bytes and interpreting the raw 64-bit field payloads belong to the
//! decoder layer.

use vstd::prelude::*;

use crate::bytes::{le_u16, le_u16_at, le_u64, le_u64_at};
use crate::point::SatelliteCount;

verus! {

/// The number of bytes of a quality file's header.
pub const HEADER_LEN: usize = 63;

/// The number of bytes of one record whose satellite count is a bare count.
pub const RECORD_LEN: usize = 66;

/// The number of bytes of one record that tells GPS and GLONASS apart.
pub const RECORD_LEN_SPECIFIED: usize = 68;

/// poq file version.
#[derive(Clone, Copy, Debug, PartialEq)]
pub struct Version {
    /// The major version of the file format.
    pub major: u16,
    /// The minor version of the file format.
    pub minor: u16,
}

impl Version {
    /// From this minor version on, a record tells GPS satellites from
    /// GLONASS satellites instead of giving one bare count.
    pub open spec fn spec_specifies_satellite_count(self) -> bool {
        self.minor >= 1
    }

    /// Creates a new version.
    pub fn new(major: u16, minor: u16) -> (r: Version)
        ensures
            r == (Version { major, minor }),
    {
        Version { major, minor }
    }

    /// Does a record of this version tell the satellite systems apart?
    pub fn specifies_satellite_count(&self) -> (r: bool)
        ensures
            r == self.spec_specifies_satellite_count(),
    {
        self.minor >= 1
    }
}

/// Everything a quality file's header holds.
///
/// The interval statistics are the raw 64-bit little-endian payloads of
/// their fields, carried through for the decoder layer to interpret.
pub struct Header {
    /// The average time interval between records, as its raw field payload.
    pub avgint: u64,
    /// The standard deviation of the interval, as its raw field payload.
    pub devint: u64,
    /// The maximum interval, as its raw field payload.
    pub maxint: u64,
    /// The version of this file.
    pub version: Version,
}

/// Parses a quality file's header.
pub fn parse_header(bytes: &[u8]) -> (h: Header)
    requires
        bytes.len() >= HEADER_LEN,
    ensures
        h.version.major as int == le_u16(bytes@, 35),
        h.version.minor as int == le_u16(bytes@, 37),
        h.avgint as int == le_u64(bytes@, 39),
        h.maxint as int == le_u64(bytes@, 47),
        h.devint as int == le_u64(bytes@, 55),
{
    let major = le_u16_at(bytes, 35);
    let minor = le_u16_at(bytes, 37);
    Header {
        avgint: le_u64_at(bytes, 39),
        devint: le_u64_at(bytes, 55),
        maxint: le_u64_at(bytes, 47),
        version: Version::new(major, minor),
    }
}

/// One accuracy record, as raw 64-bit little-endian field payloads, with
/// the satellite count decoded.
///
/// The file stores the positional errors in north, east, down order; the
/// record already carries them under the engine's axis names: `y` north,
/// `x` east, `z` down.
pub struct Record {
    /// The moment of the sample.
    pub time: u64,
    /// Positional error east.
    pub x: u64,
    /// Positional error north.
    pub y: u64,
    /// Positional error down.
    pub z: u64,
    /// Roll error.
    pub roll: u64,
    /// Pitch error.
    pub pitch: u64,
    /// Yaw error.
    pub yaw: u64,
    /// Position dilution of precision.
    pub pdop: u64,
    /// The satellite count, in the shape the file version prescribes.
    pub satellite_count: SatelliteCount,
}

/// Parses one accuracy record; `specified` is the file version's
/// [`Version::specifies_satellite_count`].
pub fn parse_accuracy(bytes: &[u8], specified: bool) -> (r: Record)
    requires
        specified ==> bytes.len() >= RECORD_LEN_SPECIFIED,
        !specified ==> bytes.len() >= RECORD_LEN,
    ensures
        r.time as int == le_u64(bytes@, 0),
        r.y as int == le_u64(bytes@, 8),
        r.x as int == le_u64(bytes@, 16),
        r.z as int == le_u64(bytes@, 24),
        r.roll as int == le_u64(bytes@, 32),
        r.pitch as int == le_u64(bytes@, 40),
        r.yaw as int == le_u64(bytes@, 48),
        r.pdop as int == le_u64(bytes@, 56),
        specified ==> (r.satellite_count matches SatelliteCount::Specified { gps, glonass }
            && gps as int == le_u16(bytes@, 64) && glonass as int == le_u16(bytes@, 66)),
        !specified ==> (r.satellite_count matches SatelliteCount::Unspecified(n) && n as int
            == le_u16(bytes@, 64)),
{
    let satellite_count = if specified {
        SatelliteCount::Specified { gps: le_u16_at(bytes, 64), glonass: le_u16_at(bytes, 66) }
    } else {
        SatelliteCount::Unspecified(le_u16_at(bytes, 64))
    };
    Record {
        time: le_u64_at(bytes, 0),
        y: le_u64_at(bytes, 8),
        x: le_u64_at(bytes, 16),
        z: le_u64_at(bytes, 24),
        roll: le_u64_at(bytes, 32),
        pitch: le_u64_at(bytes, 40),
        yaw: le_u64_at(bytes, 48),
        pdop: le_u64_at(bytes, 56),
        satellite_count,
    }
}

} // verus!
