use vstd::prelude::*;

use crate::CoordinateType;
use vstd::arithmetic::div_mod::lemma_fundamental_div_mod;

verus! {

/// The largest magnitude that a value to be wrapped may have: any product
/// of two `CoordinateType` values stays within it.
pub const WIDE_LIMIT: i128 = 0x4000_0000_0000_0000_0000_0000_0000_0000;

/// `v` reduced into `[min, max)` by the Euclidean remainder of `v - min`
/// modulo the span `max - min`.
pub open spec fn wrap_into(v: int, min: int, max: int) -> int {
    (v - min) % (max - min) + min
}

/// Dividing a value of magnitude at most `2^31` by a nonzero integer
/// cannot grow it past `2^31`.
pub proof fn lemma_quotient_bounded(v: int, d: int)
    requires
        d != 0,
        -0x8000_0000 <= v <= 0x8000_0000,
    ensures
        -0x8000_0000 <= v / d <= 0x8000_0000,
{
    let q = v / d;
    let m = v % d;
    assert(v == d * q + m && 0 <= m < if d > 0 { d } else { -d }) by {
        lemma_fundamental_div_mod(v, d);
    }
    assert(-0x8000_0000 <= q <= 0x8000_0000) by (nonlinear_arith)
        requires
            v == d * q + m,
            0 <= m < if d > 0 { d } else { -d },
            d != 0,
            -0x8000_0000 <= v <= 0x8000_0000,
    ;
}

/// A numeric range `[min, max]` with a circular reduction into `[min, max)`.
pub trait Normalized {
    /// The lower end of the range.
    spec fn spec_min() -> int;

    /// The upper end of the range.
    spec fn spec_max() -> int;

    /// The lower end of the range.
    fn min() -> (r: CoordinateType)
        ensures
            r == Self::spec_min(),
    ;

    /// The upper end of the range.
    fn max() -> (r: CoordinateType)
        ensures
            r == Self::spec_max(),
    ;

    /// Reduces `value` into `[min, max)`, wrapping around the span.
    fn normalized(value: i128) -> (r: CoordinateType)
        requires
            Self::spec_min() < Self::spec_max(),
            -WIDE_LIMIT <= value <= WIDE_LIMIT,
        ensures
            r == wrap_into(value as int, Self::spec_min(), Self::spec_max()),
            Self::spec_min() <= r < Self::spec_max(),
    {
        let min = Self::min() as i128;
        let max = Self::max() as i128;
        let span = max - min;
        let shifted = value - min;
        let rem = shifted.checked_rem_euclid(span).unwrap();
        (rem + min) as CoordinateType
    }
}

} // verus!
