//! Field-wise interpolation of points and accuracies.

use pos::point::SatelliteCount;
use pos::{Accuracy, Point, Radians};

fn point(time: i64, latitude: i64) -> Point {
    let mut p: Point = Default::default();
    p.time = time;
    p.latitude = Radians(latitude);
    p
}

fn accuracy(time: i64, x: i64) -> Accuracy {
    let mut a: Accuracy = Default::default();
    a.time = time;
    a.x = x;
    a
}

#[test]
fn mandatory_fields_blend() {
    let mut p0 = point(10, 0);
    p0.longitude = Radians(100);
    p0.altitude = 1000;
    p0.roll = Radians(-40);
    p0.pitch = Radians(8);
    p0.yaw = Radians(360);
    let mut p1 = point(20, 50);
    p1.longitude = Radians(200);
    p1.altitude = 3000;
    p1.roll = Radians(40);
    p1.pitch = Radians(-8);
    p1.yaw = Radians(0);
    let p = p0.interpolate(&p1, 15);
    assert_eq!(15, p.time);
    assert_eq!(Radians(25), p.latitude);
    assert_eq!(Radians(150), p.longitude);
    assert_eq!(2000, p.altitude);
    assert_eq!(Radians(0), p.roll);
    assert_eq!(Radians(0), p.pitch);
    assert_eq!(Radians(180), p.yaw);
}

#[test]
fn optional_fields_blend_only_when_both_sides_have_them() {
    let mut p0 = point(0, 0);
    p0.distance = Some(100);
    p0.x_velocity = Some(10);
    p0.wander_angle = Some(Radians(30));
    p0.y_velocity = Some(1);
    let mut p1 = point(10, 10);
    p1.distance = Some(200);
    p1.x_velocity = None;
    p1.wander_angle = Some(Radians(50));
    p1.z_velocity = Some(2);
    let p = p0.interpolate(&p1, 5);
    // Present on both sides: blended.
    assert_eq!(Some(150), p.distance);
    assert_eq!(Some(Radians(40)), p.wander_angle);
    // Present on one side only, either side: absent.
    assert_eq!(None, p.x_velocity);
    assert_eq!(None, p.y_velocity);
    assert_eq!(None, p.z_velocity);
    // Present on neither side: absent.
    assert_eq!(None, p.x_acceleration);
    assert_eq!(None, p.accuracy);
}

#[test]
fn nested_accuracy_blends_by_the_same_rule() {
    let mut p0 = point(0, 0);
    p0.accuracy = Some(accuracy(0, 40));
    let mut p1 = point(10, 10);
    p1.accuracy = Some(accuracy(10, 80));
    let p = p0.interpolate(&p1, 5);
    let a = p.accuracy.unwrap();
    assert_eq!(5, a.time);
    assert_eq!(60, a.x);
}

#[test]
fn one_sided_accuracy_is_dropped() {
    let mut p0 = point(0, 0);
    p0.accuracy = Some(accuracy(0, 40));
    let p1 = point(10, 10);
    let p = p0.interpolate(&p1, 0);
    assert_eq!(None, p.accuracy);
}

#[test]
fn accuracy_boundary_is_exact() {
    let a0 = accuracy(10, 100);
    let a1 = accuracy(20, 300);
    assert_eq!(a0, a0.interpolate(&a1, 10));
    assert_eq!(a1, a0.interpolate(&a1, 20));
}

#[test]
fn accuracy_satellite_count_is_dropped() {
    let mut a0 = accuracy(0, 0);
    a0.satellite_count = Some(SatelliteCount::Unspecified(7));
    let mut a1 = accuracy(10, 10);
    a1.satellite_count = Some(SatelliteCount::Specified { gps: 3, glonass: 4 });
    let a = a0.interpolate(&a1, 5);
    assert_eq!(None, a.satellite_count);
}

#[test]
fn blend_rounds_towards_the_left_endpoint() {
    // Rising: 0 + 1 * 10 / 3 rounds down to 3.
    let p = point(0, 0).interpolate(&point(3, 10), 1);
    assert_eq!(3, p.latitude.0);
    // Falling: 10 - 1 * 10 / 3 rounds the quotient down, towards 10.
    let q = point(0, 10).interpolate(&point(3, 0), 1);
    assert_eq!(7, q.latitude.0);
}

#[test]
fn satellite_count_default_is_an_unspecified_zero() {
    assert_eq!(SatelliteCount::Unspecified(0), SatelliteCount::default());
}

#[test]
fn radians_wrap_a_bare_sample() {
    let r: Radians<i64> = Radians(1234);
    assert_eq!(1234, r.0);
    let d: Radians<i64> = Default::default();
    assert_eq!(0, d.0);
}
