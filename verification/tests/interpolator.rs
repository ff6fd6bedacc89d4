//! Interpolator behaviour against in-memory point streams.

use std::cell::Cell;
use std::rc::Rc;

use pos::{Error, Interpolator, Point, Radians, Source, VecSource};

fn point(time: i64, latitude: i64) -> Point {
    let mut p: Point = Default::default();
    p.time = time;
    p.latitude = Radians(latitude);
    p
}

/// A point source that counts how often it is read.
#[derive(Debug)]
struct CountingSource {
    points: Vec<Point>,
    cursor: usize,
    calls: Rc<Cell<usize>>,
}

impl CountingSource {
    fn new(points: Vec<Point>) -> (CountingSource, Rc<Cell<usize>>) {
        let calls: Rc<Cell<usize>> = Rc::new(Cell::new(0));
        (CountingSource { points, cursor: 0, calls: calls.clone() }, calls)
    }
}

impl Source for CountingSource {
    fn source(&mut self) -> Result<Option<Point>, Error> {
        self.calls.set(self.calls.get() + 1);
        if self.cursor < self.points.len() {
            let p = self.points[self.cursor];
            self.cursor += 1;
            Ok(Some(p))
        } else {
            Ok(None)
        }
    }
}

/// A source that fails after yielding a fixed number of points.
#[derive(Debug)]
struct FailingSource {
    points: Vec<Point>,
    cursor: usize,
}

impl Source for FailingSource {
    fn source(&mut self) -> Result<Option<Point>, Error> {
        if self.cursor < self.points.len() {
            let p = self.points[self.cursor];
            self.cursor += 1;
            Ok(Some(p))
        } else {
            Err(Error::Io)
        }
    }
}

#[test]
fn midpoint_of_two_points() {
    let source = VecSource::new(vec![point(0, 0), point(10, 10)]);
    let mut interpolator = Interpolator::new(source).unwrap();
    let p = interpolator.interpolate(5).unwrap();
    assert_eq!(5, p.time);
    assert_eq!(Radians(5), p.latitude);
}

#[test]
fn below_minimum() {
    let source = VecSource::new(vec![point(0, 0), point(10, 10)]);
    let mut interpolator = Interpolator::new(source).unwrap();
    assert_eq!(Err(Error::TimeBelowMinimum(-1)), interpolator.interpolate(-1));
}

#[test]
fn above_maximum() {
    let source = VecSource::new(vec![point(0, 0), point(10, 10)]);
    let mut interpolator = Interpolator::new(source).unwrap();
    assert_eq!(Err(Error::TimeAboveMaximum(11)), interpolator.interpolate(11));
}

#[test]
fn out_of_range_queries_keep_failing() {
    let source = VecSource::new(vec![point(0, 0), point(10, 10)]);
    let mut interpolator = Interpolator::new(source).unwrap();
    assert_eq!(Err(Error::TimeAboveMaximum(11)), interpolator.interpolate(11));
    assert_eq!(Err(Error::TimeAboveMaximum(11)), interpolator.interpolate(11));
    assert_eq!(Err(Error::TimeBelowMinimum(-1)), interpolator.interpolate(-1));
    assert!(interpolator.interpolate(5).is_ok());
}

#[test]
fn boundary_times_reproduce_the_samples() {
    let mut p0 = point(100, 41);
    p0.distance = Some(7);
    p0.x_velocity = Some(-3);
    let mut p1 = point(200, 43);
    p1.distance = Some(9);
    p1.x_velocity = Some(5);
    let source = VecSource::new(vec![p0, p1]);
    let mut interpolator = Interpolator::new(source).unwrap();
    assert_eq!(p0, interpolator.interpolate(100).unwrap());
    assert_eq!(p1, interpolator.interpolate(200).unwrap());
}

#[test]
fn one_point_on_empty_source() {
    let source = VecSource::new(Vec::new());
    assert!(matches!(Interpolator::new(source), Err(Error::OnePoint)));
}

#[test]
fn one_point_on_singleton_source() {
    let source = VecSource::new(vec![point(0, 0)]);
    assert!(matches!(Interpolator::new(source), Err(Error::OnePoint)));
}

#[test]
fn backward_queries_use_the_buffer() {
    let source = VecSource::new(vec![point(0, 0), point(10, 10), point(20, 20), point(30, 30)]);
    let mut interpolator = Interpolator::new(source).unwrap();
    assert_eq!(25, interpolator.interpolate(25).unwrap().latitude.0);
    assert_eq!(5, interpolator.interpolate(5).unwrap().latitude.0);
    assert_eq!(15, interpolator.interpolate(15).unwrap().latitude.0);
}

#[test]
fn monotone_queries_read_each_point_once() {
    let points = vec![point(0, 0), point(10, 10), point(20, 20), point(30, 30), point(40, 40)];
    let n = points.len();
    let (source, calls) = CountingSource::new(points);
    let mut interpolator = Interpolator::new(source).unwrap();
    for t in [5i64, 15, 25, 35] {
        assert_eq!(t, interpolator.interpolate(t).unwrap().latitude.0);
    }
    // Every record was read exactly once over the whole session.
    assert_eq!(n, calls.get());
    // Repeating the queries reads nothing further.
    for t in [5i64, 15, 25, 35, 5, 35] {
        assert!(interpolator.interpolate(t).is_ok());
    }
    assert_eq!(n, calls.get());
    // Going past the end costs the one read that answers "end of stream",
    // and only once: the exhaustion is remembered.
    assert_eq!(Err(Error::TimeAboveMaximum(45)), interpolator.interpolate(45));
    assert_eq!(n + 1, calls.get());
    assert_eq!(Err(Error::TimeAboveMaximum(45)), interpolator.interpolate(45));
    assert_eq!(n + 1, calls.get());
}

#[test]
fn read_failures_propagate() {
    let source = FailingSource { points: vec![point(0, 0), point(10, 10)], cursor: 0 };
    let mut interpolator = Interpolator::new(source).unwrap();
    assert_eq!(Err(Error::Io), interpolator.interpolate(11));
}

#[test]
fn construction_failure_propagates() {
    let source = FailingSource { points: vec![point(0, 0)], cursor: 0 };
    assert!(matches!(Interpolator::new(source), Err(Error::Io)));
}
