//! Sources of position points and accuracy records, and the merge that
//! time-aligns an accuracy stream onto a point stream.

use vstd::prelude::*;

use crate::error::Error;
use crate::point::{
    acc_all_ok, acc_lerp, acc_times_sorted, all_wf, lemma_acc_lerp_agrees, lemma_acc_lerp_ok,
    lemma_acc_tail, lemma_stream_tail, times_sorted, Accuracy, Point,
};

verus! {

/// A pull-based source of points.
///
/// A source models the records it will yield, in order, as [`Source::remaining`];
/// every successful read hands out the head of that sequence and advances the
/// internal cursor by exactly one.  `Ok(None)` means end of stream — no more
/// records, not an error.  `Err` reports a read or decode failure, after which
/// the source must be considered unusable: nothing is promised about its state.
pub trait Source {
    /// The records this source will yield, in order, if every read succeeds.
    ///
    /// An implementation outside the verifier's reach may leave the model
    /// at its default, the empty stream; nothing is then provable about
    /// what it yields.
    open spec fn remaining(&self) -> Seq<Point> {
        Seq::<Point>::empty()
    }

    /// The source is in a state in which it can be read.
    open spec fn wf(&self) -> bool {
        false
    }

    /// May a read of this source ever report a failure?
    ///
    /// An infallible source (one whose records are already in memory)
    /// overrides this to `false`; the engine's contracts then promise
    /// success outright instead of "success or a read failure".
    open spec fn may_fail(&self) -> bool {
        true
    }

    /// Reads one point from the source.
    fn source(&mut self) -> (r: Result<Option<Point>, Error>)
        requires
            old(self).wf(),
        ensures
            final(self).may_fail() == old(self).may_fail(),
            match r {
                Ok(Some(p)) => {
                    &&& final(self).wf()
                    &&& old(self).remaining().len() > 0
                    &&& p == old(self).remaining()[0]
                    &&& final(self).remaining() == old(self).remaining().drop_first()
                },
                Ok(None) => {
                    &&& final(self).wf()
                    &&& old(self).remaining().len() == 0
                    &&& final(self).remaining() == old(self).remaining()
                },
                Err(e) => e.is_read_failure() && old(self).may_fail(),
            },
    ;
}

/// A pull-based source of accuracy records, with the same reading
/// discipline as [`Source`].
pub trait AccuracySource {
    /// The records this source will yield, in order, if every read succeeds.
    ///
    /// An implementation outside the verifier's reach may leave the model
    /// at its default, the empty stream; nothing is then provable about
    /// what it yields.
    open spec fn remaining(&self) -> Seq<Accuracy> {
        Seq::<Accuracy>::empty()
    }

    /// The source is in a state in which it can be read.
    open spec fn wf(&self) -> bool {
        false
    }

    /// May a read of this source ever report a failure?  As for
    /// [`Source::may_fail`].
    open spec fn may_fail(&self) -> bool {
        true
    }

    /// Reads an accuracy record from this accuracy source.
    fn source(&mut self) -> (r: Result<Option<Accuracy>, Error>)
        requires
            old(self).wf(),
        ensures
            final(self).may_fail() == old(self).may_fail(),
            match r {
                Ok(Some(a)) => {
                    &&& final(self).wf()
                    &&& old(self).remaining().len() > 0
                    &&& a == old(self).remaining()[0]
                    &&& final(self).remaining() == old(self).remaining().drop_first()
                },
                Ok(None) => {
                    &&& final(self).wf()
                    &&& old(self).remaining().len() == 0
                    &&& final(self).remaining() == old(self).remaining()
                },
                Err(e) => e.is_read_failure() && old(self).may_fail(),
            },
    ;
}

/// An in-memory point source: yields the elements of a vector in order and
/// never fails.
#[derive(Debug)]
pub struct VecSource {
    points: Vec<Point>,
    cursor: usize,
}

impl VecSource {
    /// A source that will yield exactly the given points, in order.
    pub fn new(points: Vec<Point>) -> (r: VecSource)
        ensures
            r.wf(),
            r.remaining() == points@,
    {
        let r = VecSource { points, cursor: 0 };
        proof {
            assert(r.remaining() =~= r.points@);
        }
        r
    }
}

impl Source for VecSource {
    closed spec fn remaining(&self) -> Seq<Point> {
        self.points@.skip(self.cursor as int)
    }

    closed spec fn wf(&self) -> bool {
        self.cursor <= self.points.len()
    }

    /// Reading from memory never fails.
    open spec fn may_fail(&self) -> bool {
        false
    }

    fn source(&mut self) -> (r: Result<Option<Point>, Error>)
        ensures
            r is Ok,
    {
        if self.cursor < self.points.len() {
            let p = self.points[self.cursor];
            self.cursor = self.cursor + 1;
            proof {
                assert(self.points@.skip(self.cursor as int) =~= old(
                    self,
                ).points@.skip(old(self).cursor as int).drop_first());
            }
            Ok(Some(p))
        } else {
            proof {
                assert(self.points@.skip(self.cursor as int) =~= Seq::<Point>::empty());
            }
            Ok(None)
        }
    }
}

/// An in-memory accuracy source: yields the elements of a vector in order
/// and never fails.
#[derive(Debug)]
pub struct VecAccuracySource {
    accuracies: Vec<Accuracy>,
    cursor: usize,
}

impl VecAccuracySource {
    /// A source that will yield exactly the given records, in order.
    pub fn new(accuracies: Vec<Accuracy>) -> (r: VecAccuracySource)
        ensures
            r.wf(),
            r.remaining() == accuracies@,
    {
        let r = VecAccuracySource { accuracies, cursor: 0 };
        proof {
            assert(r.remaining() =~= r.accuracies@);
        }
        r
    }
}

impl AccuracySource for VecAccuracySource {
    closed spec fn remaining(&self) -> Seq<Accuracy> {
        self.accuracies@.skip(self.cursor as int)
    }

    closed spec fn wf(&self) -> bool {
        self.cursor <= self.accuracies.len()
    }

    /// Reading from memory never fails.
    open spec fn may_fail(&self) -> bool {
        false
    }

    fn source(&mut self) -> (r: Result<Option<Accuracy>, Error>)
        ensures
            r is Ok,
    {
        if self.cursor < self.accuracies.len() {
            let a = self.accuracies[self.cursor];
            self.cursor = self.cursor + 1;
            proof {
                assert(self.accuracies@.skip(self.cursor as int) =~= old(
                    self,
                ).accuracies@.skip(old(self).cursor as int).drop_first());
            }
            Ok(Some(a))
        } else {
            proof {
                assert(self.accuracies@.skip(self.cursor as int) =~= Seq::<Accuracy>::empty());
            }
            Ok(None)
        }
    }
}

/// Slide the lookahead window right until its `next` slot is no earlier
/// than `t`, consuming accuracy records; when the accuracy stream runs out
/// first, the `next` slot becomes empty and stays so.
pub open spec fn advance_window(a0: Accuracy, a1: Accuracy, rem: Seq<Accuracy>, t: int) -> (
    Accuracy,
    Option<Accuracy>,
    Seq<Accuracy>,
)
    decreases rem.len(),
{
    if t <= a1.time as int {
        (a0, Some(a1), rem)
    } else if rem.len() == 0 {
        (a1, None, rem)
    } else {
        advance_window(a1, rem[0], rem.drop_first(), t)
    }
}

/// How the merge emits one point: unchanged while the window has an empty
/// slot or has not yet reached the point's time, and enriched with the
/// blend of the advanced window once that window brackets the point.  The
/// advanced window carries over to the next point.
pub open spec fn merge_step(
    w: (Option<Accuracy>, Option<Accuracy>),
    rem: Seq<Accuracy>,
    p: Point,
) -> (Point, (Option<Accuracy>, Option<Accuracy>), Seq<Accuracy>) {
    match w {
        (Some(a0), Some(a1)) => {
            if (p.time as int) < a0.time as int {
                (p, w, rem)
            } else {
                let (b0, b1o, rem2) = advance_window(a0, a1, rem, p.time as int);
                match b1o {
                    Some(b1) => (
                        Point { accuracy: Some(acc_lerp(b0, b1, p.time as int)), ..p },
                        (Some(b0), Some(b1)),
                        rem2,
                    ),
                    None => (p, (Some(b0), None), rem2),
                }
            }
        },
        _ => (p, w, rem),
    }
}

/// Every point of `pts` as the merge will emit it, threading the lookahead
/// window through the stream.
pub open spec fn merge_seq(
    w: (Option<Accuracy>, Option<Accuracy>),
    rem: Seq<Accuracy>,
    pts: Seq<Point>,
) -> Seq<Point>
    decreases pts.len(),
{
    if pts.len() == 0 {
        Seq::<Point>::empty()
    } else {
        let (q, w2, rem2) = merge_step(w, rem, pts[0]);
        seq![q] + merge_seq(w2, rem2, pts.drop_first())
    }
}

/// The lookahead window primed with the first records of an accuracy
/// stream, together with what the stream still holds afterwards.
pub open spec fn initial_window(accs: Seq<Accuracy>) -> (
    (Option<Accuracy>, Option<Accuracy>),
    Seq<Accuracy>,
) {
    if accs.len() == 0 {
        ((None, None), accs)
    } else if accs.len() == 1 {
        ((Some(accs[0]), None), accs.skip(1))
    } else {
        ((Some(accs[0]), Some(accs[1])), accs.skip(2))
    }
}

/// The whole enriched stream: prime the window with the first two accuracy
/// records, then merge.
pub open spec fn merge_of(accs: Seq<Accuracy>, pts: Seq<Point>) -> Seq<Point> {
    merge_seq(initial_window(accs).0, initial_window(accs).1, pts)
}

/// The lookahead window is consistent with the accuracy stream behind it:
/// slots are filled left to right, a full window is strictly ordered and
/// earlier than everything unread, and an empty `next` slot means the
/// stream is spent.
pub open spec fn window_ok(w: (Option<Accuracy>, Option<Accuracy>), rem: Seq<Accuracy>) -> bool {
    match w {
        (Some(a0), Some(a1)) => {
            &&& a0.samples_ok()
            &&& a1.samples_ok()
            &&& a0.time < a1.time
            &&& forall|i: int| 0 <= i < rem.len() ==> a1.time < #[trigger] rem[i].time
        },
        (Some(a0), None) => a0.samples_ok() && rem.len() == 0,
        (None, None) => rem.len() == 0,
        (None, Some(_)) => false,
    }
}

/// The merge emits exactly one point per input point.
pub proof fn lemma_merge_seq_len(
    w: (Option<Accuracy>, Option<Accuracy>),
    rem: Seq<Accuracy>,
    pts: Seq<Point>,
)
    ensures
        merge_seq(w, rem, pts).len() == pts.len(),
    decreases pts.len(),
{
    if pts.len() > 0 {
        let (q, w2, rem2) = merge_step(w, rem, pts[0]);
        lemma_merge_seq_len(w2, rem2, pts.drop_first());
    }
}

/// What sliding the window to time `t` leaves behind: the new `prev` is no
/// later than `t`; a filled `next` slot is no earlier than `t` and still
/// precedes everything unread; an empty `next` slot means the stream ran
/// out while every record, the new `prev` included, was still too early.
pub open spec fn advanced_ok(b0: Accuracy, b1o: Option<Accuracy>, rem2: Seq<Accuracy>, t: int) -> bool {
    &&& b0.samples_ok()
    &&& b0.time as int <= t
    &&& acc_times_sorted(rem2)
    &&& acc_all_ok(rem2)
    &&& match b1o {
        Some(b1) => {
            &&& b1.samples_ok()
            &&& b0.time < b1.time
            &&& t <= b1.time as int
            &&& forall|i: int| 0 <= i < rem2.len() ==> b1.time < #[trigger] rem2[i].time
        },
        None => rem2.len() == 0 && (b0.time as int) < t,
    }
}

/// Sliding a consistent window keeps it consistent: see [`advanced_ok`].
pub proof fn lemma_advance_window_props(a0: Accuracy, a1: Accuracy, rem: Seq<Accuracy>, t: int)
    requires
        a0.samples_ok(),
        a1.samples_ok(),
        a0.time < a1.time,
        a0.time as int <= t,
        forall|i: int| 0 <= i < rem.len() ==> a1.time < #[trigger] rem[i].time,
        acc_times_sorted(rem),
        acc_all_ok(rem),
    ensures
        advanced_ok(
            advance_window(a0, a1, rem, t).0,
            advance_window(a0, a1, rem, t).1,
            advance_window(a0, a1, rem, t).2,
            t,
        ),
    decreases rem.len(),
{
    if t <= a1.time as int {
    } else if rem.len() == 0 {
    } else {
        lemma_acc_tail(rem);
        lemma_advance_window_props(a1, rem[0], rem.drop_first(), t);
    }
}

/// The merge attaches an accuracy to a point exactly when, at the moment
/// the point is processed, the advanced lookahead window brackets the
/// point's time; the attachment is the blend of that window at the point's
/// time, and otherwise the point passes through unchanged.
pub proof fn lemma_merge_attach_iff(
    w: (Option<Accuracy>, Option<Accuracy>),
    rem: Seq<Accuracy>,
    p: Point,
)
    requires
        window_ok(w, rem),
        acc_times_sorted(rem),
        acc_all_ok(rem),
    ensures
        ({
            let (q, w2, rem2) = merge_step(w, rem, p);
            match w2 {
                (Some(b0), Some(b1)) => {
                    if b0.time <= p.time && p.time <= b1.time {
                        q == (Point { accuracy: Some(acc_lerp(b0, b1, p.time as int)), ..p })
                    } else {
                        q == p
                    }
                },
                _ => q == p,
            }
        }),
{
    match w {
        (Some(a0), Some(a1)) => {
            if (p.time as int) < a0.time as int {
            } else {
                lemma_advance_window_props(a0, a1, rem, p.time as int);
            }
        },
        _ => {},
    }
}

/// The merge changes no times and keeps every point well formed: the
/// enriched stream has exactly the shape of the primary stream, point for
/// point, so it can itself feed an interpolator or another merge.
pub proof fn lemma_merge_preserves_stream(
    w: (Option<Accuracy>, Option<Accuracy>),
    rem: Seq<Accuracy>,
    pts: Seq<Point>,
)
    requires
        window_ok(w, rem),
        acc_times_sorted(rem),
        acc_all_ok(rem),
        all_wf(pts),
    ensures
        merge_seq(w, rem, pts).len() == pts.len(),
        forall|i: int|
            0 <= i < pts.len() ==> #[trigger] merge_seq(w, rem, pts)[i].time == pts[i].time,
        all_wf(merge_seq(w, rem, pts)),
        times_sorted(pts) ==> times_sorted(merge_seq(w, rem, pts)),
    decreases pts.len(),
{
    lemma_merge_seq_len(w, rem, pts);
    if pts.len() > 0 {
        let p = pts[0];
        let q = merge_step(w, rem, p).0;
        let w2 = merge_step(w, rem, p).1;
        let rem2 = merge_step(w, rem, p).2;
        assert(p.wf());
        match w {
            (Some(a0), Some(a1)) => {
                if (p.time as int) < a0.time as int {
                } else {
                    lemma_advance_window_props(a0, a1, rem, p.time as int);
                    let b0 = advance_window(a0, a1, rem, p.time as int).0;
                    match advance_window(a0, a1, rem, p.time as int).1 {
                        Some(b1) => {
                            lemma_acc_lerp_ok(b0, b1, p.time as int);
                        },
                        None => {},
                    }
                }
            },
            _ => {},
        }
        assert(q.time == p.time);
        assert(q.wf());
        assert(window_ok(w2, rem2));
        assert forall|i: int| 0 <= i < pts.drop_first().len() implies #[trigger] pts.drop_first()[
            i
        ].wf() by {
            assert(pts.drop_first()[i] == pts[i + 1]);
        }
        lemma_merge_preserves_stream(w2, rem2, pts.drop_first());
        let whole = merge_seq(w, rem, pts);
        let rest = merge_seq(w2, rem2, pts.drop_first());
        assert(whole =~= seq![q] + rest);
        assert forall|i: int|
            0 <= i < pts.len() implies #[trigger] whole[i].time == pts[i].time by {
            if i > 0 {
                assert(whole[i] == rest[i - 1]);
                assert(pts.drop_first()[i - 1] == pts[i]);
            }
        }
        assert forall|i: int| 0 <= i < whole.len() implies #[trigger] whole[i].wf() by {
            if i > 0 {
                assert(whole[i] == rest[i - 1]);
            }
        }
        if times_sorted(pts) {
            assert forall|i: int, j: int|
                0 <= i < j < whole.len() implies whole[i].time < whole[j].time by {
                assert(whole[i].time == pts[i].time);
                assert(whole[j].time == pts[j].time);
            }
        }
    }
}

/// A source of points that includes accuracy information.
///
/// For every point pulled from the primary source, a two-slot lookahead
/// window over the secondary accuracy stream decides whether an
/// interpolated [`Accuracy`] can be attached; the window only ever moves
/// forward, in a single pass over both streams.  The stream this source
/// yields is exactly [`merge_of`] applied to the two underlying streams.
pub struct CombinedSource<S: Source, A: AccuracySource> {
    source: S,
    accuracy_source: A,
    accuracies: (Option<Accuracy>, Option<Accuracy>),
}

impl<S: Source, A: AccuracySource> CombinedSource<S, A> {
    /// Creates a new combined source from a point source and an accuracy
    /// source, priming the lookahead window with the accuracy stream's
    /// first two records.
    ///
    /// Both streams must be strictly increasing in time; the point stream
    /// must hold well-formed points and the accuracy stream records within
    /// the sample limit.
    pub fn new(source: S, accuracy_source: A) -> (r: Result<CombinedSource<S, A>, Error>)
        requires
            source.wf(),
            times_sorted(source.remaining()),
            all_wf(source.remaining()),
            accuracy_source.wf(),
            acc_times_sorted(accuracy_source.remaining()),
            acc_all_ok(accuracy_source.remaining()),
        ensures
            match r {
                Ok(c) => {
                    &&& c.wf()
                    &&& c.remaining() == merge_of(
                        accuracy_source.remaining(),
                        source.remaining(),
                    )
                    &&& c.may_fail() == (source.may_fail() || accuracy_source.may_fail())
                },
                Err(e) => e.is_read_failure() && accuracy_source.may_fail(),
            },
    {
        let ghost accs = accuracy_source.remaining();
        let mut accuracy_source = accuracy_source;
        let first = match accuracy_source.source() {
            Ok(a) => a,
            Err(e) => {
                return Err(e);
            },
        };
        let second = match accuracy_source.source() {
            Ok(a) => a,
            Err(e) => {
                return Err(e);
            },
        };
        let r = CombinedSource { source, accuracy_source, accuracies: (first, second) };
        proof {
            if accs.len() == 0 {
                assert(r.accuracy_source.remaining() =~= accs);
            } else if accs.len() == 1 {
                lemma_acc_tail(accs);
                assert(r.accuracy_source.remaining() =~= accs.skip(1));
            } else {
                lemma_acc_tail(accs);
                assert(r.accuracy_source.remaining() =~= accs.skip(2));
                assert forall|i: int|
                    0 <= i < r.accuracy_source.remaining().len() implies accs[1].time
                    < #[trigger] r.accuracy_source.remaining()[i].time by {
                    assert(r.accuracy_source.remaining()[i] == accs[i + 2]);
                }
            }
            assert(r.remaining() == merge_of(accs, r.source.remaining()));
        }
        Ok(r)
    }
}

impl<S: Source, A: AccuracySource> Source for CombinedSource<S, A> {
    closed spec fn remaining(&self) -> Seq<Point> {
        merge_seq(self.accuracies, self.accuracy_source.remaining(), self.source.remaining())
    }

    /// A merge can fail only where one of its underlying streams can.
    closed spec fn may_fail(&self) -> bool {
        self.source.may_fail() || self.accuracy_source.may_fail()
    }

    closed spec fn wf(&self) -> bool {
        &&& self.source.wf()
        &&& self.accuracy_source.wf()
        &&& times_sorted(self.source.remaining())
        &&& all_wf(self.source.remaining())
        &&& acc_times_sorted(self.accuracy_source.remaining())
        &&& acc_all_ok(self.accuracy_source.remaining())
        &&& window_ok(self.accuracies, self.accuracy_source.remaining())
    }

    #[verifier::rlimit(50)]
    #[verifier::loop_isolation(false)]
    fn source(&mut self) -> (r: Result<Option<Point>, Error>) {
        let ghost pre = *self;
        proof {
            lemma_merge_seq_len(pre.accuracies, pre.accuracy_source.remaining(), pre.source.remaining());
        }
        let mut point = match self.source.source() {
            Ok(Some(p)) => p,
            Ok(None) => {
                return Ok(None);
            },
            Err(e) => {
                return Err(e);
            },
        };
        proof {
            lemma_stream_tail(pre.source.remaining());
        }
        let ghost step = merge_step(pre.accuracies, pre.accuracy_source.remaining(), point);
        let ghost tail = pre.source.remaining().drop_first();
        // The window was primed at creation, so an empty slot means the
        // accuracy stream held fewer than two records or is already spent:
        // this point, and every later one, goes out unenriched.
        let (c0, c1) = match self.accuracies {
            (Some(a0), Some(a1)) => (a0, a1),
            _ => {
                proof {
                    assert(pre.remaining() =~= seq![step.0] + merge_seq(step.1, step.2, tail));
                    assert(self.remaining() =~= pre.remaining().drop_first());
                }
                return Ok(Some(point));
            },
        };
        // The window has not reached this point yet: no bracket lies
        // behind it, so it goes out unenriched and the window stays.
        if point.time < c0.time {
            proof {
                assert(pre.remaining() =~= seq![step.0] + merge_seq(step.1, step.2, tail));
                assert(self.remaining() =~= pre.remaining().drop_first());
            }
            return Ok(Some(point));
        }
        let mut c0 = c0;
        let mut c1 = c1;
        let ghost mid = *self;
        // Slide the window forward until it reaches the point or the
        // accuracy stream runs out.
        loop
            invariant
                self.source == mid.source,
                self.accuracies == pre.accuracies,
                self.accuracy_source.may_fail() == pre.accuracy_source.may_fail(),
                c0.samples_ok(),
                c1.samples_ok(),
                c0.time < c1.time,
                c0.time <= point.time,
                self.accuracy_source.wf(),
                acc_times_sorted(self.accuracy_source.remaining()),
                acc_all_ok(self.accuracy_source.remaining()),
                forall|i: int|
                    0 <= i < self.accuracy_source.remaining().len() ==> c1.time
                        < #[trigger] self.accuracy_source.remaining()[i].time,
                advance_window(
                    c0,
                    c1,
                    self.accuracy_source.remaining(),
                    point.time as int,
                ) == advance_window(
                    pre.accuracies.0->0,
                    pre.accuracies.1->0,
                    pre.accuracy_source.remaining(),
                    point.time as int,
                ),
            decreases self.accuracy_source.remaining().len(),
        {
            if point.time > c1.time {
                c0 = c1;
                let ghost rem_before = self.accuracy_source.remaining();
                match self.accuracy_source.source() {
                    Ok(Some(a)) => {
                        proof {
                            lemma_acc_tail(rem_before);
                        }
                        c1 = a;
                    },
                    Ok(None) => {
                        self.accuracies = (Some(c0), None);
                        proof {
                            assert(pre.remaining() =~= seq![step.0] + merge_seq(
                                step.1,
                                step.2,
                                tail,
                            ));
                            assert(self.remaining() =~= pre.remaining().drop_first());
                        }
                        return Ok(Some(point));
                    },
                    Err(e) => {
                        return Err(e);
                    },
                }
            } else {
                break;
            }
        }
        // The window brackets the point: attach the blend at its time.
        let blended = c0.interpolate(&c1, point.time);
        point.accuracy = Some(blended);
        self.accuracies = (Some(c0), Some(c1));
        proof {
            lemma_acc_lerp_agrees(blended, c0, c1, point.time as int);
            assert(pre.remaining() =~= seq![step.0] + merge_seq(step.1, step.2, tail));
            assert(self.remaining() =~= pre.remaining().drop_first());
        }
        Ok(Some(point))
    }
}

} // verus!
