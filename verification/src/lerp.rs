//! Exact linear interpolation of integer-scaled samples.
//!
//! Every time and every sample value the engine touches is a signed 64-bit
//! count of scale units.  The interpolation factor `(t - t0) / (t1 - t0)` is
//! never materialised; instead the blend `v0 + (t - t0) * (v1 - v0) / (t1 -
//! t0)` is computed with 128-bit intermediates and a single division whose
//! operands are kept non-negative, so the executable result provably equals
//! the mathematical definition [`lerp`].

use vstd::prelude::*;
use vstd::arithmetic::div_mod::{
    lemma_div_is_ordered, lemma_div_multiples_vanish, lemma_div_of0, lemma_div_pos_is_pos,
};
use vstd::arithmetic::mul::{
    lemma_mul_inequality, lemma_mul_is_commutative, lemma_mul_nonnegative, lemma_mul_upper_bound,
};

verus! {

/// Magnitude bound on every time and sample value handled by the engine.
///
/// Samples within this bound keep all intermediate products of the
/// interpolation formula inside 128-bit arithmetic.
pub const SAMPLE_LIMIT: i64 = 0x4000_0000_0000_0000;

/// A time or sample value that the engine can blend without overflow.
pub open spec fn sample_ok(v: int) -> bool {
    -(SAMPLE_LIMIT as int) <= v <= SAMPLE_LIMIT as int
}

/// The value at time `t` of the line through `(t0, v0)` and `(t1, v1)`,
/// with the quotient rounded towards `v0`.
///
/// For `t == t0` and `t == t1` the division is exact, so the endpoints are
/// reproduced exactly; in between, the result always lies between `v0` and
/// `v1` (see [`lemma_lerp_bounds`]).
pub open spec fn lerp(v0: int, v1: int, t0: int, t1: int, t: int) -> int
    recommends
        t0 < t1,
        t0 <= t <= t1,
{
    if v1 >= v0 {
        v0 + ((t - t0) * (v1 - v0)) / (t1 - t0)
    } else {
        v0 - ((t - t0) * (v0 - v1)) / (t1 - t0)
    }
}

/// At the left endpoint the blend reproduces `v0` exactly.
pub proof fn lemma_lerp_at_start(v0: int, v1: int, t0: int, t1: int)
    requires
        t0 < t1,
    ensures
        lerp(v0, v1, t0, t1, t0) == v0,
{
    lemma_div_of0(t1 - t0);
}

/// At the right endpoint the blend reproduces `v1` exactly.
pub proof fn lemma_lerp_at_end(v0: int, v1: int, t0: int, t1: int)
    requires
        t0 < t1,
    ensures
        lerp(v0, v1, t0, t1, t1) == v1,
{
    let span = t1 - t0;
    if v1 >= v0 {
        let dv = v1 - v0;
        lemma_mul_is_commutative(span, dv);
        lemma_div_multiples_vanish(dv, span);
    } else {
        let dv = v0 - v1;
        lemma_mul_is_commutative(span, dv);
        lemma_div_multiples_vanish(dv, span);
    }
}

/// Between the endpoints the blend never leaves the interval they span.
pub proof fn lemma_lerp_bounds(v0: int, v1: int, t0: int, t1: int, t: int)
    requires
        t0 < t1,
        t0 <= t <= t1,
    ensures
        v1 >= v0 ==> v0 <= lerp(v0, v1, t0, t1, t) <= v1,
        v1 < v0 ==> v1 <= lerp(v0, v1, t0, t1, t) <= v0,
{
    let span = t1 - t0;
    if v1 >= v0 {
        let dv = v1 - v0;
        lemma_mul_nonnegative(t - t0, dv);
        lemma_div_pos_is_pos((t - t0) * dv, span);
        lemma_mul_inequality(t - t0, span, dv);
        lemma_div_is_ordered((t - t0) * dv, span * dv, span);
        lemma_mul_is_commutative(span, dv);
        lemma_div_multiples_vanish(dv, span);
    } else {
        let dv = v0 - v1;
        lemma_mul_nonnegative(t - t0, dv);
        lemma_div_pos_is_pos((t - t0) * dv, span);
        lemma_mul_inequality(t - t0, span, dv);
        lemma_div_is_ordered((t - t0) * dv, span * dv, span);
        lemma_mul_is_commutative(span, dv);
        lemma_div_multiples_vanish(dv, span);
    }
}

/// Blending the times themselves gives back the query time: the `time`
/// field of an interpolated record is exactly the time that was asked for.
pub proof fn lemma_lerp_time_identity(t0: int, t1: int, t: int)
    requires
        t0 < t1,
        t0 <= t <= t1,
    ensures
        lerp(t0, t1, t0, t1, t) == t,
{
    let span = t1 - t0;
    lemma_mul_is_commutative(t - t0, span);
    lemma_div_multiples_vanish(t - t0, span);
}

/// Executable counterpart of [`lerp`].
///
/// The intermediates are 128-bit, and the requirement that both sample
/// values stay within [`SAMPLE_LIMIT`] rules overflow out; the result again
/// lies between `v0` and `v1`, hence within the same limit.
pub fn lerp_i64(v0: i64, v1: i64, t0: i64, t1: i64, t: i64) -> (r: i64)
    requires
        t0 < t1,
        t0 <= t <= t1,
        sample_ok(v0 as int),
        sample_ok(v1 as int),
    ensures
        r as int == lerp(v0 as int, v1 as int, t0 as int, t1 as int, t as int),
        v0 <= v1 ==> v0 <= r <= v1,
        v1 <= v0 ==> v1 <= r <= v0,
{
    proof {
        lemma_lerp_bounds(v0 as int, v1 as int, t0 as int, t1 as int, t as int);
    }
    let dt: u128 = (t as i128 - t0 as i128) as u128;
    let span: u128 = (t1 as i128 - t0 as i128) as u128;
    if v1 >= v0 {
        let dv: u128 = (v1 as i128 - v0 as i128) as u128;
        proof {
            lemma_mul_upper_bound(dt as int, 0x1_0000_0000_0000_0000, dv as int, 0x8000_0000_0000_0000);
            lemma_mul_nonnegative(dt as int, dv as int);
            lemma_mul_inequality(dt as int, span as int, dv as int);
            lemma_div_is_ordered(dt as int * dv as int, span as int * dv as int, span as int);
            lemma_mul_is_commutative(span as int, dv as int);
            lemma_div_multiples_vanish(dv as int, span as int);
            lemma_div_pos_is_pos(dt as int * dv as int, span as int);
        }
        let q: u128 = (dt * dv) / span;
        (v0 as i128 + q as i128) as i64
    } else {
        let dv: u128 = (v0 as i128 - v1 as i128) as u128;
        proof {
            lemma_mul_upper_bound(dt as int, 0x1_0000_0000_0000_0000, dv as int, 0x8000_0000_0000_0000);
            lemma_mul_nonnegative(dt as int, dv as int);
            lemma_mul_inequality(dt as int, span as int, dv as int);
            lemma_div_is_ordered(dt as int * dv as int, span as int * dv as int, span as int);
            lemma_mul_is_commutative(span as int, dv as int);
            lemma_div_multiples_vanish(dv as int, span as int);
            lemma_div_pos_is_pos(dt as int * dv as int, span as int);
        }
        let q: u128 = (dt * dv) / span;
        (v0 as i128 - q as i128) as i64
    }
}

} // verus!
