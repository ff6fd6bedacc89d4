//! SBET file format.
//!
//! A headerless binary stream of fixed-size point records.  This module
//! owns the record's byte layout; reading the bytes and interpreting the
//! raw 64-bit field payloads belong to the decoder layer.

use vstd::prelude::*;

use crate::bytes::{le_u64, le_u64_at};

verus! {

/// The number of bytes of one SBET point record.
pub const RECORD_LEN: usize = 136;

/// One SBET point record, as raw 64-bit little-endian field payloads in
/// file order.  Every field is always present; the file stores angles in
/// radians already.
#[allow(missing_docs)]
pub struct Record {
    pub time: u64,
    pub latitude: u64,
    pub longitude: u64,
    pub altitude: u64,
    pub x_velocity: u64,
    pub y_velocity: u64,
    pub z_velocity: u64,
    pub roll: u64,
    pub pitch: u64,
    pub yaw: u64,
    pub wander_angle: u64,
    pub x_acceleration: u64,
    pub y_acceleration: u64,
    pub z_acceleration: u64,
    pub x_angular_rate: u64,
    pub y_angular_rate: u64,
    pub z_angular_rate: u64,
}

/// Parses one SBET point record.
pub fn parse_point(bytes: &[u8]) -> (r: Record)
    requires
        bytes.len() >= RECORD_LEN,
    ensures
        r.time as int == le_u64(bytes@, 0),
        r.latitude as int == le_u64(bytes@, 8),
        r.longitude as int == le_u64(bytes@, 16),
        r.altitude as int == le_u64(bytes@, 24),
        r.x_velocity as int == le_u64(bytes@, 32),
        r.y_velocity as int == le_u64(bytes@, 40),
        r.z_velocity as int == le_u64(bytes@, 48),
        r.roll as int == le_u64(bytes@, 56),
        r.pitch as int == le_u64(bytes@, 64),
        r.yaw as int == le_u64(bytes@, 72),
        r.wander_angle as int == le_u64(bytes@, 80),
        r.x_acceleration as int == le_u64(bytes@, 88),
        r.y_acceleration as int == le_u64(bytes@, 96),
        r.z_acceleration as int == le_u64(bytes@, 104),
        r.x_angular_rate as int == le_u64(bytes@, 112),
        r.y_angular_rate as int == le_u64(bytes@, 120),
        r.z_angular_rate as int == le_u64(bytes@, 128),
{
    Record {
        time: le_u64_at(bytes, 0),
        latitude: le_u64_at(bytes, 8),
        longitude: le_u64_at(bytes, 16),
        altitude: le_u64_at(bytes, 24),
        x_velocity: le_u64_at(bytes, 32),
        y_velocity: le_u64_at(bytes, 40),
        z_velocity: le_u64_at(bytes, 48),
        roll: le_u64_at(bytes, 56),
        pitch: le_u64_at(bytes, 64),
        yaw: le_u64_at(bytes, 72),
        wander_angle: le_u64_at(bytes, 80),
        x_acceleration: le_u64_at(bytes, 88),
        y_acceleration: le_u64_at(bytes, 96),
        z_acceleration: le_u64_at(bytes, 104),
        x_angular_rate: le_u64_at(bytes, 112),
        y_angular_rate: le_u64_at(bytes, 120),
        z_angular_rate: le_u64_at(bytes, 128),
    }
}

} // verus!
