//! Reading and temporally aligning IMU/GNSS position streams.
//!
//! The heart of the crate is a windowed interpolation engine: an
//! [`Interpolator`] answers "where was the platform at time `t`?" against a
//! lazily read, time-ordered stream of [`Point`] samples, and a
//! [`CombinedSource`] enriches each point pulled from a primary stream with an
//! [`Accuracy`] interpolated from a secondary, independently sampled stream.
//!
//! All times and sample values are integer-scaled: a sample is stored as a
//! signed 64-bit count of scale units (for instance nanoradians or
//! millimetres), chosen by the producer of the stream.  Keeping the engine on
//! integers makes every interpolation exact and lets each arithmetic step be
//! verified; conversion from a file's native floating-point encoding is the
//! business of the surrounding decoder layer, not of this engine.

pub mod bytes;
pub mod error;
pub mod interpolate;
pub mod lerp;
pub mod pof;
pub mod point;
pub mod poq;
pub mod sbet;
pub mod source;
pub mod units;

pub use error::Error;
pub use interpolate::Interpolator;
pub use point::{Accuracy, Point};
pub use source::{AccuracySource, CombinedSource, Source, VecAccuracySource, VecSource};
pub use units::Radians;
