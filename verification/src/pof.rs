//! Position and orientation files.
//!
//! These are Riegl-specific GNSS/IMU data files.  This module owns the
//! byte layout of the fixed-size file header and of one point record; the
//! reading of those bytes from a file, and the turning of raw 64-bit field
//! payloads into scaled samples, belong to the decoder layer around the
//! engine.

use vstd::prelude::*;

use crate::bytes::{copy_range, le_i64, le_i64_at, le_u16, le_u16_at, le_u32, le_u32_at, le_u64, le_u64_at};
use crate::error::Error;

verus! {

/// The number of bytes of a position file's fixed-size header.
pub const HEADER_LEN: usize = 315;

/// The number of bytes of one point record without the distance field.
pub const RECORD_LEN: usize = 56;

/// The number of bytes of one point record with the distance field.
pub const RECORD_LEN_WITH_DISTANCE: usize = 64;

/// pof file version.
#[derive(Clone, Copy, Debug, PartialEq)]
pub struct Version {
    /// The major version of the file format.
    pub major: u16,
    /// The minor version of the file format.
    pub minor: u16,
}

impl Version {
    /// From this minor version on, a point record carries a distance field.
    pub open spec fn spec_has_distance(self) -> bool {
        self.minor >= 1
    }

    /// Creates a new version.
    pub fn new(major: u16, minor: u16) -> (r: Version)
        ensures
            r == (Version { major, minor }),
    {
        Version { major, minor }
    }

    /// Does a point record of this version carry a distance field?
    pub fn has_distance(&self) -> (r: bool)
        ensures
            r == self.spec_has_distance(),
    {
        self.minor >= 1
    }
}

/// Seconds format.
#[derive(Clone, Copy, Debug, PartialEq)]
pub enum TimeUnit {
    /// Normalized time is referenced to some start point, allowing for
    /// higher precision.
    Normalized,
    /// GPS day time.
    Day,
    /// GPS week time.
    Week,
}

/// The time unit a code below three stands for.
pub open spec fn time_unit_of(n: u8) -> TimeUnit
    recommends
        n <= 2,
{
    if n == 0 {
        TimeUnit::Normalized
    } else if n == 1 {
        TimeUnit::Day
    } else {
        TimeUnit::Week
    }
}

impl TimeUnit {
    /// Decodes a time unit code; every code above two is invalid.
    pub fn from_u8(n: u8) -> (r: Result<TimeUnit, Error>)
        ensures
            match r {
                Ok(t) => n <= 2 && t == time_unit_of(n),
                Err(e) => n > 2 && e == Error::PofTimeUnit(n),
            },
    {
        match n {
            0 => Ok(TimeUnit::Normalized),
            1 => Ok(TimeUnit::Day),
            2 => Ok(TimeUnit::Week),
            _ => Err(Error::PofTimeUnit(n)),
        }
    }
}

/// Time format.
#[derive(Clone, Copy, Debug, PartialEq)]
pub enum TimeInfo {
    /// GPS time.
    Gps,
    /// UTC time.
    Utc,
    /// Unknown time information.
    Unknown,
}

/// The time format a code below three stands for.
pub open spec fn time_info_of(n: u8) -> TimeInfo
    recommends
        n <= 2,
{
    if n == 0 {
        TimeInfo::Gps
    } else if n == 1 {
        TimeInfo::Utc
    } else {
        TimeInfo::Unknown
    }
}

impl TimeInfo {
    /// Decodes a time info code; every code above two is invalid.
    pub fn from_u8(n: u8) -> (r: Result<TimeInfo, Error>)
        ensures
            match r {
                Ok(t) => n <= 2 && t == time_info_of(n),
                Err(e) => n > 2 && e == Error::PofTimeInfo(n),
            },
    {
        match n {
            0 => Ok(TimeInfo::Gps),
            1 => Ok(TimeInfo::Utc),
            2 => Ok(TimeInfo::Unknown),
            _ => Err(Error::PofTimeInfo(n)),
        }
    }
}

/// Everything a position file's fixed-size header holds.
///
/// The interval and extent statistics are the raw 64-bit little-endian
/// payloads of their fields, carried through for the decoder layer to
/// interpret; the engine itself never reads them.
pub struct Header {
    /// The average time interval between points, as its raw field payload.
    pub avgint: u64,
    /// The name of the company that produced this file.
    pub company: Vec<u8>,
    /// The byte offset of the first point record in the file.
    pub data_offset: u32,
    /// The day this file was written.
    pub day: u16,
    /// The name of the device that collected this file.
    pub device: Vec<u8>,
    /// The standard deviation of the time interval between points, as its
    /// raw field payload.
    pub devint: u64,
    /// The number of points in this file.
    pub entries: i64,
    /// The location that this file was collected.
    pub location: Vec<u8>,
    /// The maximum altitude in this file, as its raw field payload.
    pub maxalt: u64,
    /// The maximum time interval between points, as its raw field payload.
    pub maxint: u64,
    /// The maximum latitude, as its raw field payload.
    pub maxlat: u64,
    /// The maximum longitude, as its raw field payload.
    pub maxlon: u64,
    /// The minimum altitude, as its raw field payload.
    pub minalt: u64,
    /// The minimum latitude, as its raw field payload.
    pub minlat: u64,
    /// The minimum longitude, as its raw field payload.
    pub minlon: u64,
    /// The month this file was collected.
    pub month: u16,
    /// The name of this project.
    pub project: Vec<u8>,
    /// Information about the time stamps in this file.
    pub timeinfo: TimeInfo,
    /// The units of the times in this file.
    pub timeunit: TimeUnit,
    /// This file's time zone.
    pub timezone: Vec<u8>,
    /// The version of this file.
    pub version: Version,
    /// The year this file was collected.
    pub year: u16,
}

/// Parses a position file's fixed-size header.
///
/// Fails exactly when the time unit or time info code is out of range;
/// every other field is taken as it stands.
pub fn parse_header(bytes: &[u8]) -> (r: Result<Header, Error>)
    requires
        bytes.len() >= HEADER_LEN,
    ensures
        match r {
            Ok(h) => {
                &&& h.version.major as int == le_u16(bytes@, 27)
                &&& h.version.minor as int == le_u16(bytes@, 29)
                &&& h.data_offset as int == le_u32(bytes@, 31)
                &&& h.year as int == le_u16(bytes@, 35)
                &&& h.month as int == le_u16(bytes@, 37)
                &&& h.day as int == le_u16(bytes@, 39)
                &&& h.entries as int == le_i64(bytes@, 41)
                &&& h.minlon as int == le_u64(bytes@, 49)
                &&& h.maxlon as int == le_u64(bytes@, 57)
                &&& h.minlat as int == le_u64(bytes@, 65)
                &&& h.maxlat as int == le_u64(bytes@, 73)
                &&& h.minalt as int == le_u64(bytes@, 81)
                &&& h.maxalt as int == le_u64(bytes@, 89)
                &&& h.avgint as int == le_u64(bytes@, 97)
                &&& h.maxint as int == le_u64(bytes@, 105)
                &&& h.devint as int == le_u64(bytes@, 113)
                &&& bytes@[121] <= 2 && h.timeunit == time_unit_of(bytes@[121])
                &&& bytes@[122] <= 2 && h.timeinfo == time_info_of(bytes@[122])
                &&& h.timezone@ == bytes@.subrange(123, 139)
                &&& h.location@ == bytes@.subrange(139, 155)
                &&& h.device@ == bytes@.subrange(155, 187)
                &&& h.project@ == bytes@.subrange(219, 251)
                &&& h.company@ == bytes@.subrange(251, 283)
            },
            Err(e) => (e == Error::PofTimeUnit(bytes@[121]) && bytes@[121] > 2) || (e
                == Error::PofTimeInfo(bytes@[122]) && bytes@[121] <= 2 && bytes@[122] > 2),
        },
        r is Ok <==> bytes@[121] <= 2 && bytes@[122] <= 2,
{
    let major = le_u16_at(bytes, 27);
    let minor = le_u16_at(bytes, 29);
    let version = Version::new(major, minor);
    let data_offset = le_u32_at(bytes, 31);
    let year = le_u16_at(bytes, 35);
    let month = le_u16_at(bytes, 37);
    let day = le_u16_at(bytes, 39);
    let entries = le_i64_at(bytes, 41);
    let minlon = le_u64_at(bytes, 49);
    let maxlon = le_u64_at(bytes, 57);
    let minlat = le_u64_at(bytes, 65);
    let maxlat = le_u64_at(bytes, 73);
    let minalt = le_u64_at(bytes, 81);
    let maxalt = le_u64_at(bytes, 89);
    let avgint = le_u64_at(bytes, 97);
    let maxint = le_u64_at(bytes, 105);
    let devint = le_u64_at(bytes, 113);
    let timeunit = match TimeUnit::from_u8(bytes[121]) {
        Ok(t) => t,
        Err(e) => {
            return Err(e);
        },
    };
    let timeinfo = match TimeInfo::from_u8(bytes[122]) {
        Ok(t) => t,
        Err(e) => {
            return Err(e);
        },
    };
    let timezone = copy_range(bytes, 123, 139);
    let location = copy_range(bytes, 139, 155);
    let device = copy_range(bytes, 155, 187);
    let project = copy_range(bytes, 219, 251);
    let company = copy_range(bytes, 251, 283);
    Ok(
        Header {
            avgint,
            company,
            data_offset,
            day,
            device,
            devint,
            entries,
            location,
            maxalt,
            maxint,
            maxlat,
            maxlon,
            minalt,
            minlat,
            minlon,
            month,
            project,
            timeinfo,
            timeunit,
            timezone,
            version,
            year,
        },
    )
}

/// One point record of a position file, as raw 64-bit little-endian field
/// payloads in file order.
pub struct Record {
    /// The moment of the sample.
    pub time: u64,
    /// Longitude, in degrees in the file.
    pub longitude: u64,
    /// Latitude, in degrees in the file.
    pub latitude: u64,
    /// Altitude.
    pub altitude: u64,
    /// Roll, in degrees in the file.
    pub roll: u64,
    /// Pitch, in degrees in the file.
    pub pitch: u64,
    /// Yaw, in degrees in the file.
    pub yaw: u64,
    /// Distance, carried only from the versions that record it.
    pub distance: Option<u64>,
}

/// Parses one point record; `has_distance` is the file version's
/// [`Version::has_distance`].
pub fn parse_point(bytes: &[u8], has_distance: bool) -> (r: Record)
    requires
        has_distance ==> bytes.len() >= RECORD_LEN_WITH_DISTANCE,
        !has_distance ==> bytes.len() >= RECORD_LEN,
    ensures
        r.time as int == le_u64(bytes@, 0),
        r.longitude as int == le_u64(bytes@, 8),
        r.latitude as int == le_u64(bytes@, 16),
        r.altitude as int == le_u64(bytes@, 24),
        r.roll as int == le_u64(bytes@, 32),
        r.pitch as int == le_u64(bytes@, 40),
        r.yaw as int == le_u64(bytes@, 48),
        has_distance ==> (r.distance matches Some(d) && d as int == le_u64(bytes@, 56)),
        !has_distance ==> r.distance is None,
{
    Record {
        time: le_u64_at(bytes, 0),
        longitude: le_u64_at(bytes, 8),
        latitude: le_u64_at(bytes, 16),
        altitude: le_u64_at(bytes, 24),
        roll: le_u64_at(bytes, 32),
        pitch: le_u64_at(bytes, 40),
        yaw: le_u64_at(bytes, 48),
        distance: if has_distance {
            Some(le_u64_at(bytes, 56))
        } else {
            None
        },
    }
}

} // verus!
