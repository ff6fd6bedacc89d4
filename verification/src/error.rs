//! The crate's error type.

use vstd::prelude::*;

verus! {

/// Everything that can go wrong while reading or interpolating a stream.
#[derive(Clone, Copy, Debug, PartialEq, Eq, Structural)]
pub enum Error {
    /// An underlying read failed; reported by a stream and propagated
    /// verbatim, never retried.
    Io,
    /// A numeric field of a textual record could not be parsed.
    ParseNumeric,
    /// A time unit code of a position file header is out of range.
    PofTimeUnit(u8),
    /// A time info code of a position file header is out of range.
    PofTimeInfo(u8),
    /// Fewer than two records were obtainable when an interpolator was
    /// built; interpolation is undefined with a single point.
    OnePoint,
    /// The query time precedes the first record ever read from the stream;
    /// no earlier record will ever be fetched.
    TimeBelowMinimum(i64),
    /// The query time exceeds the last obtainable record's time and the
    /// stream is exhausted.
    TimeAboveMaximum(i64),
}

impl Error {
    /// Does this error report a failure of the underlying stream (I/O or
    /// decoding), as opposed to a condition the interpolation engine itself
    /// detected?
    pub open spec fn is_read_failure(self) -> bool {
        match self {
            Error::Io => true,
            Error::ParseNumeric => true,
            Error::PofTimeUnit(_) => true,
            Error::PofTimeInfo(_) => true,
            Error::OnePoint => false,
            Error::TimeBelowMinimum(_) => false,
            Error::TimeAboveMaximum(_) => false,
        }
    }
}

} // verus!
