//! Unit newtypes.

use vstd::prelude::*;

verus! {

/// Newtype wrapper around a radian value.
///
/// It is easy to forget whether an angular field holds radians or degrees, so
/// angular fields are tagged with this wrapper.  Everything inside the engine
/// is radians; conversion from and to degrees happens only at the decode and
/// presentation boundaries, which also own the change of number
/// representation.
#[derive(Clone, Copy, Debug, Default, PartialEq)]
pub struct Radians<T>(pub T);

} // verus!
