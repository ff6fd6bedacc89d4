//! Position and accuracy records, and the field-wise interpolation rule.

use vstd::prelude::*;

use crate::lerp::{
    lemma_lerp_at_end, lemma_lerp_at_start, lemma_lerp_bounds, lemma_lerp_time_identity, lerp,
    lerp_i64, sample_ok,
};
use crate::units::Radians;

verus! {

/// A position sample.
///
/// A point always carries a time, a position and an attitude; the dynamics
/// fields are optional because not every stream encoding supplies them.
/// Every value is an integer-scaled sample (see [`crate::lerp`]); angular
/// fields are tagged as radians.
#[derive(Clone, Copy, Debug, Default, PartialEq)]
#[allow(missing_docs)]
pub struct Point {
    pub time: i64,
    pub longitude: Radians<i64>,
    pub latitude: Radians<i64>,
    pub altitude: i64,
    pub roll: Radians<i64>,
    pub pitch: Radians<i64>,
    pub yaw: Radians<i64>,
    pub distance: Option<i64>,
    pub x_velocity: Option<i64>,
    pub y_velocity: Option<i64>,
    pub z_velocity: Option<i64>,
    pub wander_angle: Option<Radians<i64>>,
    pub x_acceleration: Option<i64>,
    pub y_acceleration: Option<i64>,
    pub z_acceleration: Option<i64>,
    pub x_angular_rate: Option<Radians<i64>>,
    pub y_angular_rate: Option<Radians<i64>>,
    pub z_angular_rate: Option<Radians<i64>>,
    pub accuracy: Option<Accuracy>,
}

/// The accuracy of a position at one moment.
#[derive(Clone, Copy, Debug, Default, PartialEq)]
#[allow(missing_docs)]
pub struct Accuracy {
    pub time: i64,
    pub x: i64,
    pub y: i64,
    pub z: i64,
    pub roll: Radians<i64>,
    pub pitch: Radians<i64>,
    pub yaw: Radians<i64>,
    pub pdop: i64,
    pub satellite_count: Option<SatelliteCount>,
}

/// A count of the number of satellites.
#[derive(Clone, Copy, Debug, PartialEq)]
pub enum SatelliteCount {
    /// The type of the satellites being counted is unspecified.
    Unspecified(u16),
    /// The type of the satellites being counted has been specified.
    Specified {
        /// GPS satellites (US).
        gps: u16,
        /// GLONASS satellites (Russia).
        glonass: u16,
    },
}

impl Default for SatelliteCount {
    /// An unspecified count of zero satellites.
    fn default() -> (r: SatelliteCount)
        ensures
            r == SatelliteCount::Unspecified(0u16),
    {
        SatelliteCount::Unspecified(0)
    }
}

/// An interpolated optional field is present exactly when both endpoints
/// supply it, in which case it is the blend of the two sides.
pub open spec fn opt_lerp_ok(
    r: Option<i64>,
    a: Option<i64>,
    b: Option<i64>,
    t0: int,
    t1: int,
    t: int,
) -> bool {
    match (a, b) {
        (Some(x), Some(y)) => r matches Some(z) && z as int == lerp(x as int, y as int, t0, t1, t),
        _ => r is None,
    }
}

/// [`opt_lerp_ok`] for radian-tagged optional fields.
pub open spec fn opt_rad_lerp_ok(
    r: Option<Radians<i64>>,
    a: Option<Radians<i64>>,
    b: Option<Radians<i64>>,
    t0: int,
    t1: int,
    t: int,
) -> bool {
    match (a, b) {
        (Some(x), Some(y)) => r matches Some(z) && z.0 as int == lerp(
            x.0 as int,
            y.0 as int,
            t0,
            t1,
            t,
        ),
        _ => r is None,
    }
}

impl Accuracy {
    /// Every field stays within the engine's sample magnitude limit.
    pub open spec fn samples_ok(self) -> bool {
        &&& sample_ok(self.time as int)
        &&& sample_ok(self.x as int)
        &&& sample_ok(self.y as int)
        &&& sample_ok(self.z as int)
        &&& sample_ok(self.roll.0 as int)
        &&& sample_ok(self.pitch.0 as int)
        &&& sample_ok(self.yaw.0 as int)
        &&& sample_ok(self.pdop as int)
    }

    /// `self` is the linear blend of `a0` and `a1` at time `t`, field for
    /// field, with the factor taken over the two accuracy times.  A count of
    /// satellites is never blended: the result carries none.
    pub open spec fn is_lerp_of(self, a0: Accuracy, a1: Accuracy, t: int) -> bool {
        let t0 = a0.time as int;
        let t1 = a1.time as int;
        &&& self.time as int == lerp(t0, t1, t0, t1, t)
        &&& self.x as int == lerp(a0.x as int, a1.x as int, t0, t1, t)
        &&& self.y as int == lerp(a0.y as int, a1.y as int, t0, t1, t)
        &&& self.z as int == lerp(a0.z as int, a1.z as int, t0, t1, t)
        &&& self.roll.0 as int == lerp(a0.roll.0 as int, a1.roll.0 as int, t0, t1, t)
        &&& self.pitch.0 as int == lerp(a0.pitch.0 as int, a1.pitch.0 as int, t0, t1, t)
        &&& self.yaw.0 as int == lerp(a0.yaw.0 as int, a1.yaw.0 as int, t0, t1, t)
        &&& self.pdop as int == lerp(a0.pdop as int, a1.pdop as int, t0, t1, t)
        &&& self.satellite_count is None
    }

    /// Linearly interpolate a new accuracy between these two.
    pub fn interpolate(&self, other: &Accuracy, time: i64) -> (r: Accuracy)
        requires
            self.samples_ok(),
            other.samples_ok(),
            self.time < other.time,
            self.time <= time <= other.time,
        ensures
            r.is_lerp_of(*self, *other, time as int),
            r.time == time,
            r.samples_ok(),
    {
        proof {
            lemma_lerp_time_identity(self.time as int, other.time as int, time as int);
        }
        Accuracy {
            time: lerp_i64(self.time, other.time, self.time, other.time, time),
            x: lerp_i64(self.x, other.x, self.time, other.time, time),
            y: lerp_i64(self.y, other.y, self.time, other.time, time),
            z: lerp_i64(self.z, other.z, self.time, other.time, time),
            roll: Radians(lerp_i64(self.roll.0, other.roll.0, self.time, other.time, time)),
            pitch: Radians(lerp_i64(self.pitch.0, other.pitch.0, self.time, other.time, time)),
            yaw: Radians(lerp_i64(self.yaw.0, other.yaw.0, self.time, other.time, time)),
            pdop: lerp_i64(self.pdop, other.pdop, self.time, other.time, time),
            satellite_count: None,
        }
    }
}

impl Point {
    /// Every field, including the fields of an attached accuracy, stays
    /// within the engine's sample magnitude limit.
    pub open spec fn samples_ok(self) -> bool {
        &&& sample_ok(self.time as int)
        &&& sample_ok(self.longitude.0 as int)
        &&& sample_ok(self.latitude.0 as int)
        &&& sample_ok(self.altitude as int)
        &&& sample_ok(self.roll.0 as int)
        &&& sample_ok(self.pitch.0 as int)
        &&& sample_ok(self.yaw.0 as int)
        &&& (self.distance matches Some(v) ==> sample_ok(v as int))
        &&& (self.x_velocity matches Some(v) ==> sample_ok(v as int))
        &&& (self.y_velocity matches Some(v) ==> sample_ok(v as int))
        &&& (self.z_velocity matches Some(v) ==> sample_ok(v as int))
        &&& (self.wander_angle matches Some(v) ==> sample_ok(v.0 as int))
        &&& (self.x_acceleration matches Some(v) ==> sample_ok(v as int))
        &&& (self.y_acceleration matches Some(v) ==> sample_ok(v as int))
        &&& (self.z_acceleration matches Some(v) ==> sample_ok(v as int))
        &&& (self.x_angular_rate matches Some(v) ==> sample_ok(v.0 as int))
        &&& (self.y_angular_rate matches Some(v) ==> sample_ok(v.0 as int))
        &&& (self.z_angular_rate matches Some(v) ==> sample_ok(v.0 as int))
        &&& (self.accuracy matches Some(a) ==> a.samples_ok())
    }

    /// An attached accuracy describes the point's own moment: its time field
    /// equals the point's time.  Decoded points carry no accuracy at all, and
    /// the merge that attaches one always interpolates it at the point's
    /// time, so every stream the engine handles satisfies this.
    pub open spec fn anchored(self) -> bool {
        self.accuracy matches Some(a) ==> a.time == self.time
    }

    /// A point the engine can hold in a stream.
    pub open spec fn wf(self) -> bool {
        self.samples_ok() && self.anchored()
    }

    /// `self` is the linear blend of `p0` and `p1` at time `t`: mandatory
    /// fields are always blended; an optional field is present exactly when
    /// both endpoints supply it; an attached accuracy is blended by the same
    /// rule, with the factor taken over the two accuracy times.
    pub open spec fn is_lerp_of(self, p0: Point, p1: Point, t: int) -> bool {
        let t0 = p0.time as int;
        let t1 = p1.time as int;
        &&& self.time as int == lerp(t0, t1, t0, t1, t)
        &&& self.longitude.0 as int == lerp(p0.longitude.0 as int, p1.longitude.0 as int, t0, t1, t)
        &&& self.latitude.0 as int == lerp(p0.latitude.0 as int, p1.latitude.0 as int, t0, t1, t)
        &&& self.altitude as int == lerp(p0.altitude as int, p1.altitude as int, t0, t1, t)
        &&& self.roll.0 as int == lerp(p0.roll.0 as int, p1.roll.0 as int, t0, t1, t)
        &&& self.pitch.0 as int == lerp(p0.pitch.0 as int, p1.pitch.0 as int, t0, t1, t)
        &&& self.yaw.0 as int == lerp(p0.yaw.0 as int, p1.yaw.0 as int, t0, t1, t)
        &&& opt_lerp_ok(self.distance, p0.distance, p1.distance, t0, t1, t)
        &&& opt_lerp_ok(self.x_velocity, p0.x_velocity, p1.x_velocity, t0, t1, t)
        &&& opt_lerp_ok(self.y_velocity, p0.y_velocity, p1.y_velocity, t0, t1, t)
        &&& opt_lerp_ok(self.z_velocity, p0.z_velocity, p1.z_velocity, t0, t1, t)
        &&& opt_rad_lerp_ok(self.wander_angle, p0.wander_angle, p1.wander_angle, t0, t1, t)
        &&& opt_lerp_ok(self.x_acceleration, p0.x_acceleration, p1.x_acceleration, t0, t1, t)
        &&& opt_lerp_ok(self.y_acceleration, p0.y_acceleration, p1.y_acceleration, t0, t1, t)
        &&& opt_lerp_ok(self.z_acceleration, p0.z_acceleration, p1.z_acceleration, t0, t1, t)
        &&& opt_rad_lerp_ok(self.x_angular_rate, p0.x_angular_rate, p1.x_angular_rate, t0, t1, t)
        &&& opt_rad_lerp_ok(self.y_angular_rate, p0.y_angular_rate, p1.y_angular_rate, t0, t1, t)
        &&& opt_rad_lerp_ok(self.z_angular_rate, p0.z_angular_rate, p1.z_angular_rate, t0, t1, t)
        &&& match (p0.accuracy, p1.accuracy) {
            (Some(a0), Some(a1)) => self.accuracy matches Some(ar) && ar.is_lerp_of(a0, a1, t),
            _ => self.accuracy is None,
        }
    }

    /// Linearly interpolate a new point between these two.
    ///
    /// When both endpoints carry an accuracy, the two accuracies must form a
    /// bracket of their own around `time`; that holds for every anchored
    /// stream, where accuracy times coincide with point times.
    pub fn interpolate(&self, other: &Point, time: i64) -> (r: Point)
        requires
            self.samples_ok(),
            other.samples_ok(),
            self.time < other.time,
            self.time <= time <= other.time,
            match (self.accuracy, other.accuracy) {
                (Some(a0), Some(a1)) => a0.time < a1.time && a0.time <= time <= a1.time,
                _ => true,
            },
        ensures
            r.is_lerp_of(*self, *other, time as int),
            r.time == time,
            r.samples_ok(),
            r.anchored(),
    {
        proof {
            lemma_lerp_time_identity(self.time as int, other.time as int, time as int);
        }
        Point {
            time: lerp_i64(self.time, other.time, self.time, other.time, time),
            longitude: Radians(
                lerp_i64(self.longitude.0, other.longitude.0, self.time, other.time, time),
            ),
            latitude: Radians(
                lerp_i64(self.latitude.0, other.latitude.0, self.time, other.time, time),
            ),
            altitude: lerp_i64(self.altitude, other.altitude, self.time, other.time, time),
            roll: Radians(lerp_i64(self.roll.0, other.roll.0, self.time, other.time, time)),
            pitch: Radians(lerp_i64(self.pitch.0, other.pitch.0, self.time, other.time, time)),
            yaw: Radians(lerp_i64(self.yaw.0, other.yaw.0, self.time, other.time, time)),
            distance: match (self.distance, other.distance) {
                (Some(a), Some(b)) => Some(lerp_i64(a, b, self.time, other.time, time)),
                _ => None,
            },
            x_velocity: match (self.x_velocity, other.x_velocity) {
                (Some(a), Some(b)) => Some(lerp_i64(a, b, self.time, other.time, time)),
                _ => None,
            },
            y_velocity: match (self.y_velocity, other.y_velocity) {
                (Some(a), Some(b)) => Some(lerp_i64(a, b, self.time, other.time, time)),
                _ => None,
            },
            z_velocity: match (self.z_velocity, other.z_velocity) {
                (Some(a), Some(b)) => Some(lerp_i64(a, b, self.time, other.time, time)),
                _ => None,
            },
            wander_angle: match (self.wander_angle, other.wander_angle) {
                (Some(a), Some(b)) => Some(
                    Radians(lerp_i64(a.0, b.0, self.time, other.time, time)),
                ),
                _ => None,
            },
            x_acceleration: match (self.x_acceleration, other.x_acceleration) {
                (Some(a), Some(b)) => Some(lerp_i64(a, b, self.time, other.time, time)),
                _ => None,
            },
            y_acceleration: match (self.y_acceleration, other.y_acceleration) {
                (Some(a), Some(b)) => Some(lerp_i64(a, b, self.time, other.time, time)),
                _ => None,
            },
            z_acceleration: match (self.z_acceleration, other.z_acceleration) {
                (Some(a), Some(b)) => Some(lerp_i64(a, b, self.time, other.time, time)),
                _ => None,
            },
            x_angular_rate: match (self.x_angular_rate, other.x_angular_rate) {
                (Some(a), Some(b)) => Some(
                    Radians(lerp_i64(a.0, b.0, self.time, other.time, time)),
                ),
                _ => None,
            },
            y_angular_rate: match (self.y_angular_rate, other.y_angular_rate) {
                (Some(a), Some(b)) => Some(
                    Radians(lerp_i64(a.0, b.0, self.time, other.time, time)),
                ),
                _ => None,
            },
            z_angular_rate: match (self.z_angular_rate, other.z_angular_rate) {
                (Some(a), Some(b)) => Some(
                    Radians(lerp_i64(a.0, b.0, self.time, other.time, time)),
                ),
                _ => None,
            },
            accuracy: match (self.accuracy, other.accuracy) {
                (Some(a0), Some(a1)) => Some(a0.interpolate(&a1, time)),
                _ => None,
            },
        }
    }
}

/// The times of a point stream are strictly increasing.
pub open spec fn times_sorted(s: Seq<Point>) -> bool {
    forall|i: int, j: int| 0 <= i < j < s.len() ==> s[i].time < s[j].time
}

/// Every point of a stream is well formed.
pub open spec fn all_wf(s: Seq<Point>) -> bool {
    forall|i: int| 0 <= i < s.len() ==> #[trigger] s[i].wf()
}

/// The times of an accuracy stream are strictly increasing.
pub open spec fn acc_times_sorted(s: Seq<Accuracy>) -> bool {
    forall|i: int, j: int| 0 <= i < j < s.len() ==> s[i].time < s[j].time
}

/// Every record of an accuracy stream is within the sample limit.
pub open spec fn acc_all_ok(s: Seq<Accuracy>) -> bool {
    forall|i: int| 0 <= i < s.len() ==> #[trigger] s[i].samples_ok()
}

/// Both endpoints supply the same optional fields, including an accuracy.
pub open spec fn presence_matched(p0: Point, p1: Point) -> bool {
    &&& (p0.distance is Some <==> p1.distance is Some)
    &&& (p0.x_velocity is Some <==> p1.x_velocity is Some)
    &&& (p0.y_velocity is Some <==> p1.y_velocity is Some)
    &&& (p0.z_velocity is Some <==> p1.z_velocity is Some)
    &&& (p0.wander_angle is Some <==> p1.wander_angle is Some)
    &&& (p0.x_acceleration is Some <==> p1.x_acceleration is Some)
    &&& (p0.y_acceleration is Some <==> p1.y_acceleration is Some)
    &&& (p0.z_acceleration is Some <==> p1.z_acceleration is Some)
    &&& (p0.x_angular_rate is Some <==> p1.x_angular_rate is Some)
    &&& (p0.y_angular_rate is Some <==> p1.y_angular_rate is Some)
    &&& (p0.z_angular_rate is Some <==> p1.z_angular_rate is Some)
    &&& (p0.accuracy is Some <==> p1.accuracy is Some)
}

/// Boundary exactness at the left endpoint: a blend taken at `p0`'s own
/// time reproduces `p0` field for field.
///
/// This needs the two endpoints to supply the same optional fields (a field
/// present on one side only is absent from the blend), anchored accuracies,
/// and an accuracy on `p0` that carries no satellite count (a blend never
/// carries one).
pub proof fn lemma_boundary_exact_start(r: Point, p0: Point, p1: Point)
    requires
        r.is_lerp_of(p0, p1, p0.time as int),
        p0.time < p1.time,
        presence_matched(p0, p1),
        p0.anchored(),
        p1.anchored(),
        p0.accuracy matches Some(a) ==> a.satellite_count is None,
    ensures
        r == p0,
{
    let t0 = p0.time as int;
    let t1 = p1.time as int;
    lemma_lerp_at_start(p0.time as int, p1.time as int, t0, t1);
    lemma_lerp_at_start(p0.longitude.0 as int, p1.longitude.0 as int, t0, t1);
    lemma_lerp_at_start(p0.latitude.0 as int, p1.latitude.0 as int, t0, t1);
    lemma_lerp_at_start(p0.altitude as int, p1.altitude as int, t0, t1);
    lemma_lerp_at_start(p0.roll.0 as int, p1.roll.0 as int, t0, t1);
    lemma_lerp_at_start(p0.pitch.0 as int, p1.pitch.0 as int, t0, t1);
    lemma_lerp_at_start(p0.yaw.0 as int, p1.yaw.0 as int, t0, t1);
    if p0.distance is Some && p1.distance is Some {
        lemma_lerp_at_start(p0.distance->0 as int, p1.distance->0 as int, t0, t1);
    }
    if p0.x_velocity is Some && p1.x_velocity is Some {
        lemma_lerp_at_start(p0.x_velocity->0 as int, p1.x_velocity->0 as int, t0, t1);
    }
    if p0.y_velocity is Some && p1.y_velocity is Some {
        lemma_lerp_at_start(p0.y_velocity->0 as int, p1.y_velocity->0 as int, t0, t1);
    }
    if p0.z_velocity is Some && p1.z_velocity is Some {
        lemma_lerp_at_start(p0.z_velocity->0 as int, p1.z_velocity->0 as int, t0, t1);
    }
    if p0.wander_angle is Some && p1.wander_angle is Some {
        lemma_lerp_at_start((p0.wander_angle->0).0 as int, (p1.wander_angle->0).0 as int, t0, t1);
    }
    if p0.x_acceleration is Some && p1.x_acceleration is Some {
        lemma_lerp_at_start(p0.x_acceleration->0 as int, p1.x_acceleration->0 as int, t0, t1);
    }
    if p0.y_acceleration is Some && p1.y_acceleration is Some {
        lemma_lerp_at_start(p0.y_acceleration->0 as int, p1.y_acceleration->0 as int, t0, t1);
    }
    if p0.z_acceleration is Some && p1.z_acceleration is Some {
        lemma_lerp_at_start(p0.z_acceleration->0 as int, p1.z_acceleration->0 as int, t0, t1);
    }
    if p0.x_angular_rate is Some && p1.x_angular_rate is Some {
        lemma_lerp_at_start((p0.x_angular_rate->0).0 as int, (p1.x_angular_rate->0).0 as int, t0, t1);
    }
    if p0.y_angular_rate is Some && p1.y_angular_rate is Some {
        lemma_lerp_at_start((p0.y_angular_rate->0).0 as int, (p1.y_angular_rate->0).0 as int, t0, t1);
    }
    if p0.z_angular_rate is Some && p1.z_angular_rate is Some {
        lemma_lerp_at_start((p0.z_angular_rate->0).0 as int, (p1.z_angular_rate->0).0 as int, t0, t1);
    }
    if p0.accuracy is Some && p1.accuracy is Some {
        let a0 = p0.accuracy->0;
        let a1 = p1.accuracy->0;
        lemma_lerp_at_start(a0.time as int, a1.time as int, t0, t1);
        lemma_lerp_at_start(a0.x as int, a1.x as int, t0, t1);
        lemma_lerp_at_start(a0.y as int, a1.y as int, t0, t1);
        lemma_lerp_at_start(a0.z as int, a1.z as int, t0, t1);
        lemma_lerp_at_start(a0.roll.0 as int, a1.roll.0 as int, t0, t1);
        lemma_lerp_at_start(a0.pitch.0 as int, a1.pitch.0 as int, t0, t1);
        lemma_lerp_at_start(a0.yaw.0 as int, a1.yaw.0 as int, t0, t1);
        lemma_lerp_at_start(a0.pdop as int, a1.pdop as int, t0, t1);
    }
}

/// Boundary exactness at the right endpoint: a blend taken at `p1`'s own
/// time reproduces `p1` field for field, under the mirrored conditions of
/// [`lemma_boundary_exact_start`].
pub proof fn lemma_boundary_exact_end(r: Point, p0: Point, p1: Point)
    requires
        r.is_lerp_of(p0, p1, p1.time as int),
        p0.time < p1.time,
        presence_matched(p0, p1),
        p0.anchored(),
        p1.anchored(),
        p1.accuracy matches Some(a) ==> a.satellite_count is None,
    ensures
        r == p1,
{
    let t0 = p0.time as int;
    let t1 = p1.time as int;
    lemma_lerp_at_end(p0.time as int, p1.time as int, t0, t1);
    lemma_lerp_at_end(p0.longitude.0 as int, p1.longitude.0 as int, t0, t1);
    lemma_lerp_at_end(p0.latitude.0 as int, p1.latitude.0 as int, t0, t1);
    lemma_lerp_at_end(p0.altitude as int, p1.altitude as int, t0, t1);
    lemma_lerp_at_end(p0.roll.0 as int, p1.roll.0 as int, t0, t1);
    lemma_lerp_at_end(p0.pitch.0 as int, p1.pitch.0 as int, t0, t1);
    lemma_lerp_at_end(p0.yaw.0 as int, p1.yaw.0 as int, t0, t1);
    if p0.distance is Some && p1.distance is Some {
        lemma_lerp_at_end(p0.distance->0 as int, p1.distance->0 as int, t0, t1);
    }
    if p0.x_velocity is Some && p1.x_velocity is Some {
        lemma_lerp_at_end(p0.x_velocity->0 as int, p1.x_velocity->0 as int, t0, t1);
    }
    if p0.y_velocity is Some && p1.y_velocity is Some {
        lemma_lerp_at_end(p0.y_velocity->0 as int, p1.y_velocity->0 as int, t0, t1);
    }
    if p0.z_velocity is Some && p1.z_velocity is Some {
        lemma_lerp_at_end(p0.z_velocity->0 as int, p1.z_velocity->0 as int, t0, t1);
    }
    if p0.wander_angle is Some && p1.wander_angle is Some {
        lemma_lerp_at_end((p0.wander_angle->0).0 as int, (p1.wander_angle->0).0 as int, t0, t1);
    }
    if p0.x_acceleration is Some && p1.x_acceleration is Some {
        lemma_lerp_at_end(p0.x_acceleration->0 as int, p1.x_acceleration->0 as int, t0, t1);
    }
    if p0.y_acceleration is Some && p1.y_acceleration is Some {
        lemma_lerp_at_end(p0.y_acceleration->0 as int, p1.y_acceleration->0 as int, t0, t1);
    }
    if p0.z_acceleration is Some && p1.z_acceleration is Some {
        lemma_lerp_at_end(p0.z_acceleration->0 as int, p1.z_acceleration->0 as int, t0, t1);
    }
    if p0.x_angular_rate is Some && p1.x_angular_rate is Some {
        lemma_lerp_at_end((p0.x_angular_rate->0).0 as int, (p1.x_angular_rate->0).0 as int, t0, t1);
    }
    if p0.y_angular_rate is Some && p1.y_angular_rate is Some {
        lemma_lerp_at_end((p0.y_angular_rate->0).0 as int, (p1.y_angular_rate->0).0 as int, t0, t1);
    }
    if p0.z_angular_rate is Some && p1.z_angular_rate is Some {
        lemma_lerp_at_end((p0.z_angular_rate->0).0 as int, (p1.z_angular_rate->0).0 as int, t0, t1);
    }
    if p0.accuracy is Some && p1.accuracy is Some {
        let a0 = p0.accuracy->0;
        let a1 = p1.accuracy->0;
        lemma_lerp_at_end(a0.time as int, a1.time as int, t0, t1);
        lemma_lerp_at_end(a0.x as int, a1.x as int, t0, t1);
        lemma_lerp_at_end(a0.y as int, a1.y as int, t0, t1);
        lemma_lerp_at_end(a0.z as int, a1.z as int, t0, t1);
        lemma_lerp_at_end(a0.roll.0 as int, a1.roll.0 as int, t0, t1);
        lemma_lerp_at_end(a0.pitch.0 as int, a1.pitch.0 as int, t0, t1);
        lemma_lerp_at_end(a0.yaw.0 as int, a1.yaw.0 as int, t0, t1);
        lemma_lerp_at_end(a0.pdop as int, a1.pdop as int, t0, t1);
    }
}

/// An optional field missing from either endpoint is missing from the
/// blend, for every optional field independently.
pub proof fn lemma_one_sided_optional_absent(r: Point, p0: Point, p1: Point, t: int)
    requires
        r.is_lerp_of(p0, p1, t),
    ensures
        !(p0.distance is Some && p1.distance is Some) ==> r.distance is None,
        !(p0.x_velocity is Some && p1.x_velocity is Some) ==> r.x_velocity is None,
        !(p0.y_velocity is Some && p1.y_velocity is Some) ==> r.y_velocity is None,
        !(p0.z_velocity is Some && p1.z_velocity is Some) ==> r.z_velocity is None,
        !(p0.wander_angle is Some && p1.wander_angle is Some) ==> r.wander_angle is None,
        !(p0.x_acceleration is Some && p1.x_acceleration is Some) ==> r.x_acceleration is None,
        !(p0.y_acceleration is Some && p1.y_acceleration is Some) ==> r.y_acceleration is None,
        !(p0.z_acceleration is Some && p1.z_acceleration is Some) ==> r.z_acceleration is None,
        !(p0.x_angular_rate is Some && p1.x_angular_rate is Some) ==> r.x_angular_rate is None,
        !(p0.y_angular_rate is Some && p1.y_angular_rate is Some) ==> r.y_angular_rate is None,
        !(p0.z_angular_rate is Some && p1.z_angular_rate is Some) ==> r.z_angular_rate is None,
        !(p0.accuracy is Some && p1.accuracy is Some) ==> r.accuracy is None,
{
}

/// Two points that are both blends of the same bracket at the same time are
/// equal: the interpolation rule determines its result completely.
pub proof fn lemma_lerp_unique(r1: Point, r2: Point, p0: Point, p1: Point, t: int)
    requires
        r1.is_lerp_of(p0, p1, t),
        r2.is_lerp_of(p0, p1, t),
    ensures
        r1 == r2,
{
}

/// The accuracy the merge attaches to a point: the constructive form of
/// [`Accuracy::is_lerp_of`].
pub open spec fn acc_lerp(a0: Accuracy, a1: Accuracy, t: int) -> Accuracy {
    let t0 = a0.time as int;
    let t1 = a1.time as int;
    Accuracy {
        time: lerp(t0, t1, t0, t1, t) as i64,
        x: lerp(a0.x as int, a1.x as int, t0, t1, t) as i64,
        y: lerp(a0.y as int, a1.y as int, t0, t1, t) as i64,
        z: lerp(a0.z as int, a1.z as int, t0, t1, t) as i64,
        roll: Radians(lerp(a0.roll.0 as int, a1.roll.0 as int, t0, t1, t) as i64),
        pitch: Radians(lerp(a0.pitch.0 as int, a1.pitch.0 as int, t0, t1, t) as i64),
        yaw: Radians(lerp(a0.yaw.0 as int, a1.yaw.0 as int, t0, t1, t) as i64),
        pdop: lerp(a0.pdop as int, a1.pdop as int, t0, t1, t) as i64,
        satellite_count: None,
    }
}

/// A blend of two bounded accuracies over a bracket of their times is
/// itself bounded, and it is stamped with the blend time.
pub proof fn lemma_acc_lerp_ok(a0: Accuracy, a1: Accuracy, t: int)
    requires
        a0.samples_ok(),
        a1.samples_ok(),
        a0.time < a1.time,
        a0.time as int <= t <= a1.time as int,
    ensures
        acc_lerp(a0, a1, t).samples_ok(),
        acc_lerp(a0, a1, t).time as int == t,
{
    let t0 = a0.time as int;
    let t1 = a1.time as int;
    lemma_lerp_time_identity(t0, t1, t);
    lemma_lerp_bounds(a0.x as int, a1.x as int, t0, t1, t);
    lemma_lerp_bounds(a0.y as int, a1.y as int, t0, t1, t);
    lemma_lerp_bounds(a0.z as int, a1.z as int, t0, t1, t);
    lemma_lerp_bounds(a0.roll.0 as int, a1.roll.0 as int, t0, t1, t);
    lemma_lerp_bounds(a0.pitch.0 as int, a1.pitch.0 as int, t0, t1, t);
    lemma_lerp_bounds(a0.yaw.0 as int, a1.yaw.0 as int, t0, t1, t);
    lemma_lerp_bounds(a0.pdop as int, a1.pdop as int, t0, t1, t);
}

/// An accuracy that satisfies [`Accuracy::is_lerp_of`] is exactly
/// [`acc_lerp`]: the blend is fully determined.
pub proof fn lemma_acc_lerp_agrees(r: Accuracy, a0: Accuracy, a1: Accuracy, t: int)
    requires
        r.is_lerp_of(a0, a1, t),
    ensures
        r == acc_lerp(a0, a1, t),
{
}

/// Dropping the first record of a sorted, bounded accuracy stream keeps it
/// sorted and bounded, and the dropped record is earlier than all the rest.
pub proof fn lemma_acc_tail(s: Seq<Accuracy>)
    requires
        acc_times_sorted(s),
        acc_all_ok(s),
        s.len() > 0,
    ensures
        acc_times_sorted(s.drop_first()),
        acc_all_ok(s.drop_first()),
        forall|i: int|
            0 <= i < s.drop_first().len() ==> s[0].time < #[trigger] s.drop_first()[i].time,
{
    assert forall|i: int| 0 <= i < s.drop_first().len() implies #[trigger] s.drop_first()[
        i
    ].samples_ok() by {
        assert(s.drop_first()[i] == s[i + 1]);
    }
    assert forall|i: int, j: int| 0 <= i < j < s.drop_first().len() implies s.drop_first()[
        i
    ].time < s.drop_first()[j].time by {
        assert(s.drop_first()[i] == s[i + 1]);
        assert(s.drop_first()[j] == s[j + 1]);
    }
    assert forall|i: int| 0 <= i < s.drop_first().len() implies s[0].time < #[trigger] s.drop_first()[
        i
    ].time by {
        assert(s.drop_first()[i] == s[i + 1]);
    }
}

/// Dropping the first record of a sorted, well-formed point stream keeps
/// it sorted and well formed.
pub proof fn lemma_stream_tail(s: Seq<Point>)
    requires
        times_sorted(s),
        all_wf(s),
        s.len() > 0,
    ensures
        times_sorted(s.drop_first()),
        all_wf(s.drop_first()),
{
    assert forall|i: int| 0 <= i < s.drop_first().len() implies #[trigger] s.drop_first()[
        i
    ].wf() by {
        assert(s.drop_first()[i] == s[i + 1]);
    }
    assert forall|i: int, j: int| 0 <= i < j < s.drop_first().len() implies s.drop_first()[
        i
    ].time < s.drop_first()[j].time by {
        assert(s.drop_first()[i] == s[i + 1]);
        assert(s.drop_first()[j] == s[j + 1]);
    }
}

/// Splitting a sorted, well-formed stream: both halves inherit sortedness
/// and well-formedness, and every point of the first half is earlier than
/// every point of the second.
pub proof fn lemma_stream_split(a: Seq<Point>, b: Seq<Point>)
    requires
        times_sorted(a + b),
        all_wf(a + b),
    ensures
        times_sorted(a),
        times_sorted(b),
        all_wf(a),
        all_wf(b),
        forall|i: int, j: int|
            0 <= i < a.len() && 0 <= j < b.len() ==> #[trigger] a[i].time < #[trigger] b[j].time,
{
    assert forall|i: int| 0 <= i < a.len() implies #[trigger] a[i].wf() by {
        assert((a + b)[i] == a[i]);
        assert((a + b)[i].wf());
    }
    assert forall|j: int| 0 <= j < b.len() implies #[trigger] b[j].wf() by {
        assert((a + b)[a.len() + j] == b[j]);
        assert((a + b)[a.len() + j].wf());
    }
    assert forall|i: int, j: int| 0 <= i < j < a.len() implies a[i].time < a[j].time by {
        assert((a + b)[i] == a[i]);
        assert((a + b)[j] == a[j]);
    }
    assert forall|i: int, j: int| 0 <= i < j < b.len() implies b[i].time < b[j].time by {
        assert((a + b)[a.len() + i] == b[i]);
        assert((a + b)[a.len() + j] == b[j]);
    }
    assert forall|i: int, j: int|
        0 <= i < a.len() && 0 <= j < b.len() implies #[trigger] a[i].time < #[trigger] b[j].time by {
        assert((a + b)[i] == a[i]);
        assert((a + b)[a.len() + j] == b[j]);
    }
}

} // verus!
