//! CombinedSource behaviour: time-aligning an accuracy stream onto a
//! point stream.

use pos::{Accuracy, CombinedSource, Point, Radians, Source, VecAccuracySource, VecSource};

fn point(time: i64) -> Point {
    let mut p: Point = Default::default();
    p.time = time;
    p
}

fn accuracy(time: i64, x: i64) -> Accuracy {
    let mut a: Accuracy = Default::default();
    a.time = time;
    a.x = x;
    a
}

fn combined(
    points: Vec<Point>,
    accuracies: Vec<Accuracy>,
) -> CombinedSource<VecSource, VecAccuracySource> {
    CombinedSource::new(VecSource::new(points), VecAccuracySource::new(accuracies)).unwrap()
}

fn drain(mut source: CombinedSource<VecSource, VecAccuracySource>) -> Vec<Point> {
    let mut out: Vec<Point> = Vec::new();
    while let Some(p) = source.source().unwrap() {
        out.push(p);
    }
    out
}

#[test]
fn accuracies_are_interpolated_at_point_times() {
    let source = combined(
        vec![point(1), point(2), point(3)],
        vec![accuracy(0, 0), accuracy(2, 20), accuracy(4, 40)],
    );
    let out = drain(source);
    assert_eq!(3, out.len());
    let a0 = out[0].accuracy.unwrap();
    assert_eq!(1, a0.time);
    assert_eq!(10, a0.x);
    let a1 = out[1].accuracy.unwrap();
    assert_eq!(2, a1.time);
    assert_eq!(20, a1.x);
    let a2 = out[2].accuracy.unwrap();
    assert_eq!(3, a2.time);
    assert_eq!(30, a2.x);
}

#[test]
fn one_accuracy_record_never_brackets() {
    let source = combined(
        vec![point(1), point(2), point(3)],
        vec![accuracy(0, 0)],
    );
    let out = drain(source);
    assert_eq!(3, out.len());
    for p in &out {
        assert_eq!(None, p.accuracy);
    }
}

#[test]
fn empty_accuracy_stream_never_brackets() {
    let source = combined(vec![point(1), point(2)], Vec::new());
    let out = drain(source);
    assert_eq!(2, out.len());
    assert_eq!(None, out[0].accuracy);
    assert_eq!(None, out[1].accuracy);
}

#[test]
fn points_before_the_accuracy_stream_pass_unenriched() {
    let source = combined(
        vec![point(0), point(5), point(15)],
        vec![accuracy(10, 100), accuracy(20, 200)],
    );
    let out = drain(source);
    assert_eq!(None, out[0].accuracy);
    assert_eq!(None, out[1].accuracy);
    let a = out[2].accuracy.unwrap();
    assert_eq!(15, a.time);
    assert_eq!(150, a.x);
}

#[test]
fn exhausted_accuracy_stream_disables_enrichment() {
    let source = combined(
        vec![point(1), point(2), point(30), point(40)],
        vec![accuracy(0, 0), accuracy(2, 20), accuracy(4, 40)],
    );
    let out = drain(source);
    assert!(out[0].accuracy.is_some());
    assert!(out[1].accuracy.is_some());
    // The window slides past the last accuracy record looking for a
    // bracket around t=30, finds the stream spent, and every later point
    // goes out bare.
    assert_eq!(None, out[2].accuracy);
    assert_eq!(None, out[3].accuracy);
}

#[test]
fn combined_stream_ends_with_the_point_stream() {
    let mut source = combined(vec![point(1)], vec![accuracy(0, 0), accuracy(2, 20)]);
    assert!(source.source().unwrap().is_some());
    assert_eq!(None, source.source().unwrap());
    assert_eq!(None, source.source().unwrap());
}

#[test]
fn interpolated_accuracy_blends_every_field() {
    let mut early = accuracy(0, 0);
    early.y = 100;
    early.z = -100;
    early.roll = Radians(10);
    early.pitch = Radians(-10);
    early.yaw = Radians(0);
    early.pdop = 4;
    let mut late = accuracy(10, 10);
    late.y = 200;
    late.z = 100;
    late.roll = Radians(20);
    late.pitch = Radians(10);
    late.yaw = Radians(50);
    late.pdop = 8;
    let source = combined(vec![point(5)], vec![early, late]);
    let out = drain(source);
    let a = out[0].accuracy.unwrap();
    assert_eq!(5, a.time);
    assert_eq!(5, a.x);
    assert_eq!(150, a.y);
    assert_eq!(0, a.z);
    assert_eq!(Radians(15), a.roll);
    assert_eq!(Radians(0), a.pitch);
    assert_eq!(Radians(25), a.yaw);
    assert_eq!(6, a.pdop);
    assert_eq!(None, a.satellite_count);
}

#[test]
fn satellite_counts_are_never_blended() {
    let mut early = accuracy(0, 0);
    early.satellite_count = Some(pos::point::SatelliteCount::Unspecified(9));
    let mut late = accuracy(10, 10);
    late.satellite_count = Some(pos::point::SatelliteCount::Specified { gps: 4, glonass: 5 });
    let source = combined(vec![point(5)], vec![early, late]);
    let out = drain(source);
    let a = out[0].accuracy.unwrap();
    assert_eq!(5, a.x);
    assert_eq!(None, a.satellite_count);
}
