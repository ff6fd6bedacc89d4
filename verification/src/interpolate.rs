//! Interpolate between two position points of a lazily read stream.

use vstd::prelude::*;

use crate::error::Error;
use crate::point::{all_wf, lemma_stream_split, times_sorted, Point};
use crate::source::Source;

verus! {

/// `s[i-1]` and `s[i]` are consecutive records of `s` whose times enclose
/// the query time `t`.
pub open spec fn is_bracket(s: Seq<Point>, i: int, t: int) -> bool {
    &&& 1 <= i < s.len()
    &&& s[i - 1].time as int <= t
    &&& t <= s[i].time as int
}

/// `t` lies within the span of the stream `s`: no earlier than its first
/// record and no later than its last.
pub open spec fn in_span(s: Seq<Point>, t: int) -> bool {
    &&& s.len() > 0
    &&& s[0].time as int <= t
    &&& t <= s.last().time as int
}

/// Structure that handles the interpolation.
///
/// An interpolator owns a point source and answers point-in-time queries
/// against it, pulling records only as far forward as a query requires.  It
/// keeps every record it has ever read in an append-only buffer, together
/// with a bracket index into that buffer, so backward excursions within
/// already-read records never touch the source again.
pub struct Interpolator<S: Source> {
    index: usize,
    source: S,
    points: Vec<Point>,
    exhausted: bool,
    init: Ghost<Seq<Point>>,
    pulls: Ghost<int>,
}

impl<S: Source> Interpolator<S> {
    /// The records read from the source so far, oldest first.
    pub closed spec fn buffered(&self) -> Seq<Point> {
        self.points@
    }

    /// What the owned source will still yield.
    pub closed spec fn remaining(&self) -> Seq<Point> {
        self.source.remaining()
    }

    /// The whole stream as it stood when this interpolator was built:
    /// everything buffered so far followed by everything still unread.
    pub closed spec fn initial_stream(&self) -> Seq<Point> {
        self.init@
    }

    /// The current bracket: the records at `cursor - 1` and `cursor` of the
    /// buffer.
    pub closed spec fn cursor(&self) -> int {
        self.index as int
    }

    /// The source has reported end of stream; it will never be read again.
    pub closed spec fn is_exhausted(&self) -> bool {
        self.exhausted
    }

    /// How often the source has answered a read, counting the one answer
    /// that reported end of stream.
    pub closed spec fn pull_count(&self) -> int {
        self.pulls@
    }

    /// May the owned source ever report a read failure?  Where it cannot,
    /// the query contract promises an answer or an exact range error,
    /// never an escape into a read failure.
    pub closed spec fn source_may_fail(&self) -> bool {
        self.source.may_fail()
    }

    /// The interpolator's invariant: the stream it was built over is
    /// strictly sorted and well formed, the buffer is a prefix of that
    /// stream with the rest still in the source, the bracket index is
    /// inside the buffer, and reads are counted exactly.
    pub closed spec fn wf(&self) -> bool {
        &&& self.source.wf()
        &&& times_sorted(self.init@)
        &&& all_wf(self.init@)
        &&& self.init@ == self.points@ + self.source.remaining()
        &&& 2 <= self.points@.len()
        &&& 1 <= self.index < self.points@.len()
        &&& (self.exhausted ==> self.source.remaining().len() == 0)
        &&& self.pulls@ == self.points@.len() + (if self.exhausted {
            1int
        } else {
            0int
        })
    }

    /// Creates a new interpolator for a given source by buffering the
    /// source's first two records.
    ///
    /// The stream must be strictly increasing in time and hold only
    /// well-formed points; the engine never validates this, it is the
    /// producer's obligation.
    pub fn new(source: S) -> (r: Result<Interpolator<S>, Error>)
        requires
            source.wf(),
            times_sorted(source.remaining()),
            all_wf(source.remaining()),
        ensures
            match r {
                Ok(it) => {
                    &&& it.wf()
                    &&& it.initial_stream() == source.remaining()
                    &&& source.remaining().len() >= 2
                    &&& it.buffered().len() == 2
                    &&& it.cursor() == 1
                    &&& !it.is_exhausted()
                    &&& it.pull_count() == 2
                    &&& it.source_may_fail() == source.may_fail()
                },
                Err(e) => (e == Error::OnePoint && source.remaining().len() < 2) || (
                e.is_read_failure() && source.may_fail()),
            },
    {
        let ghost stream = source.remaining();
        let mut source = source;
        let mut points: Vec<Point> = Vec::new();
        let first = match source.source() {
            Ok(Some(p)) => p,
            Ok(None) => {
                return Err(Error::OnePoint);
            },
            Err(e) => {
                return Err(e);
            },
        };
        points.push(first);
        let second = match source.source() {
            Ok(Some(p)) => p,
            Ok(None) => {
                return Err(Error::OnePoint);
            },
            Err(e) => {
                return Err(e);
            },
        };
        points.push(second);
        let r = Interpolator {
            points,
            source,
            index: 1,
            exhausted: false,
            init: Ghost(stream),
            pulls: Ghost(2int),
        };
        proof {
            assert(stream =~= r.points@ + r.source.remaining());
        }
        Ok(r)
    }

    /// Interpolate a new point for the given time.
    ///
    /// The answer is the linear blend of the two consecutive records whose
    /// times enclose `time`; a time before the first record of the stream
    /// fails with [`Error::TimeBelowMinimum`], one after its last record,
    /// once the source is exhausted, with [`Error::TimeAboveMaximum`].  A
    /// failed query keeps every record read before the failure, so a
    /// repeated out-of-range query fails again without further reading.
    #[verifier::rlimit(50)]
    #[verifier::loop_isolation(false)]
    pub fn interpolate(&mut self, time: i64) -> (r: Result<Point, Error>)
        requires
            old(self).wf(),
        ensures
            final(self).initial_stream() == old(self).initial_stream(),
            old(self).buffered().is_prefix_of(final(self).buffered()),
            final(self).source_may_fail() == old(self).source_may_fail(),
            1 <= final(self).cursor() < final(self).buffered().len(),
            r matches Err(e) && e.is_read_failure() ==> old(self).source_may_fail(),
            old(self).buffered()[0].time as int <= time as int && time as int <= old(
                self,
            ).buffered().last().time as int ==> r is Ok,
            (r == Err::<Point, Error>(Error::TimeBelowMinimum(time))) <==> (time as int) < old(
                self,
            ).initial_stream()[0].time as int,
            r == Err::<Point, Error>(Error::TimeBelowMinimum(time)) ==> {
                &&& final(self).wf()
                &&& final(self).buffered() == old(self).buffered()
                &&& final(self).cursor() == 1
                &&& final(self).pull_count() == old(self).pull_count()
            },
            r matches Err(Error::TimeAboveMaximum(t)) ==> {
                &&& t == time
                &&& (time as int) > old(self).initial_stream().last().time as int
                &&& final(self).wf()
                &&& final(self).is_exhausted()
                &&& final(self).buffered() == old(self).initial_stream()
            },
            (time as int) >= old(self).initial_stream()[0].time as int && (time as int) > old(
                self,
            ).initial_stream().last().time as int ==> (r == Err::<Point, Error>(
                Error::TimeAboveMaximum(time),
            ) || (r matches Err(e) && e.is_read_failure())),
            in_span(old(self).initial_stream(), time as int) ==> (r is Ok || (r matches Err(e)
                && e.is_read_failure())),
            r matches Ok(p) ==> {
                &&& final(self).wf()
                &&& in_span(old(self).initial_stream(), time as int)
                &&& is_bracket(final(self).buffered(), final(self).cursor(), time as int)
                &&& p.is_lerp_of(
                    final(self).buffered()[final(self).cursor() - 1],
                    final(self).buffered()[final(self).cursor()],
                    time as int,
                )
                &&& p.time == time
                &&& p.wf()
            },
    {
        let ghost pre = *self;
        proof {
            assert(pre.init@[0] == pre.points@[0]);
            assert(pre.init@.subrange(0, pre.points@.len() as int) =~= pre.points@);
            assert(pre.points@.is_prefix_of(pre.points@)) by {
                assert(pre.points@.subrange(0, pre.points@.len() as int) =~= pre.points@);
            }
        }
        // Backward excursion: slide the bracket left through the buffer.
        // No record older than the first is ever fetched, so reaching the
        // leftmost bracket with a still smaller query time is an error.
        while time < self.points[self.index - 1].time
            invariant
                self.wf(),
                *self == (Interpolator { index: self.index, ..pre }),
                1 <= self.index < self.points@.len(),
            decreases self.index,
        {
            if self.index == 1 {
                proof {
                    lemma_stream_split(self.points@, self.source.remaining());
                }
                return Err(Error::TimeBelowMinimum(time));
            }
            self.index = self.index - 1;
        }
        proof {
            lemma_stream_split(self.points@, self.source.remaining());
            assert((time as int) >= self.points@[self.index - 1].time as int);
            assert((time as int) >= self.init@[0].time as int);
        }
        // Forward excursion: slide the bracket right, reusing buffered
        // records first and pulling from the source only at the buffer's
        // end.
        while time > self.points[self.index].time
            invariant
                self.wf(),
                self.init == pre.init,
                self.source.may_fail() == pre.source.may_fail(),
                pre.points@.is_prefix_of(self.points@),
                1 <= self.index < self.points@.len(),
                (time as int) >= self.points@[self.index - 1].time as int,
                (time as int) >= self.init@[0].time as int,
            decreases self.points@.len() - self.index + self.source.remaining().len(),
        {
            if self.index < self.points.len() - 1 {
                self.index = self.index + 1;
            } else {
                // The bracket sits at the buffer's end, so the query time
                // exceeds every buffered record -- in particular the last
                // record buffered when this call began: a query inside the
                // already-buffered span never reaches this branch, and
                // whatever error follows cannot concern such a query.
                proof {
                    lemma_stream_split(self.points@, self.source.remaining());
                    assert(pre.points@[pre.points@.len() - 1] == self.points@[pre.points@.len()
                        - 1]);
                    assert((time as int) > pre.points@.last().time as int);
                }
                if self.exhausted {
                    // The source has already reported its end; the buffer
                    // holds the whole stream and the query lies beyond it.
                    proof {
                        assert(self.init@ =~= self.points@);
                    }
                    return Err(Error::TimeAboveMaximum(time));
                } else {
                    match self.source.source() {
                        Ok(Some(p)) => {
                            proof {
                                assert(self.init@ =~= self.points@.push(p)
                                    + self.source.remaining());
                                assert(pre.points@.is_prefix_of(self.points@.push(p))) by {
                                    assert(self.points@.push(p).subrange(
                                        0,
                                        pre.points@.len() as int,
                                    ) =~= self.points@.subrange(0, pre.points@.len() as int));
                                }
                            }
                            self.points.push(p);
                            self.index = self.index + 1;
                            self.pulls = Ghost(self.pulls@ + 1);
                        },
                        Ok(None) => {
                            self.exhausted = true;
                            self.pulls = Ghost(self.pulls@ + 1);
                            proof {
                                assert(self.init@ =~= self.points@);
                            }
                            return Err(Error::TimeAboveMaximum(time));
                        },
                        Err(e) => {
                            return Err(e);
                        },
                    }
                }
            }
        }
        // The bracket encloses the query time: blend its two records.
        proof {
            lemma_stream_split(self.points@, self.source.remaining());
            assert(self.points@[self.index - 1].wf());
            assert(self.points@[self.index as int].wf());
            if self.source.remaining().len() > 0 {
                assert(self.init@.last() == self.source.remaining().last());
            } else {
                assert(self.init@.last() == self.points@.last());
            }
        }
        let p0 = self.points[self.index - 1];
        let p1 = self.points[self.index];
        let p = p0.interpolate(&p1, time);
        Ok(p)
    }
}

/// The cost of a whole query session is bounded by the stream itself: the
/// buffer never holds more records than the stream has, and the source is
/// read at most once per stream record, plus the one read that answers
/// "end of stream".  No record is ever fetched twice: everything read is
/// retained for the life of the interpolator.
pub proof fn lemma_read_cost_bound<S: Source>(it: Interpolator<S>)
    requires
        it.wf(),
    ensures
        it.buffered().len() <= it.initial_stream().len(),
        it.pull_count() <= it.initial_stream().len() + 1,
        it.buffered() == it.initial_stream().take(it.buffered().len() as int),
{
    assert(it.buffered() =~= it.initial_stream().take(it.buffered().len() as int));
}

} // verus!
