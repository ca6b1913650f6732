use vstd::prelude::*;

use crate::error::Error;
use crate::normalize::{lemma_quotient_bounded, wrap_into, Normalized};
use crate::order::{compare, int_cmp};
use crate::text::{push_signed, signed_text};
use crate::{CoordinateType, UNITS_PER_DEGREE};
use core::cmp::Ordering;
use core::ops::{Add, AddAssign, Div, Mul, MulAssign, Neg, Sub, SubAssign};
use vstd::arithmetic::div_mod::{lemma_fundamental_div_mod, lemma_fundamental_div_mod_converse};

verus! {

/// The western bound of a longitude, the antimeridian seen from the east.
pub const LONGITUDE_MIN: CoordinateType = -180 * UNITS_PER_DEGREE;

/// The eastern bound of a longitude, the antimeridian seen from the west.
pub const LONGITUDE_MAX: CoordinateType = 180 * UNITS_PER_DEGREE;

/// Whether `v` lies in `[LONGITUDE_MIN, LONGITUDE_MAX]`.
pub open spec fn is_longitude(v: int) -> bool {
    LONGITUDE_MIN <= v <= LONGITUDE_MAX
}

/// `v` wrapped around the globe into `[LONGITUDE_MIN, LONGITUDE_MAX)`.
pub open spec fn wrap_longitude(v: int) -> int {
    wrap_into(v, LONGITUDE_MIN as int, LONGITUDE_MAX as int)
}

/// A value already in `[LONGITUDE_MIN, LONGITUDE_MAX)` wraps to itself.
pub proof fn lemma_wrap_longitude_fixed(v: int)
    requires
        LONGITUDE_MIN <= v < LONGITUDE_MAX,
    ensures
        wrap_longitude(v) == v,
{
    let span = LONGITUDE_MAX - LONGITUDE_MIN;
    lemma_fundamental_div_mod_converse(v - LONGITUDE_MIN, span, 0, v - LONGITUDE_MIN);
}

/// Moving a value by whole turns of the globe does not change where it
/// wraps to.
pub proof fn lemma_wrap_longitude_turns(v: int, turns: int)
    ensures
        wrap_longitude(v + turns * (LONGITUDE_MAX - LONGITUDE_MIN)) == wrap_longitude(v),
{
    let span = LONGITUDE_MAX - LONGITUDE_MIN;
    let x = v - LONGITUDE_MIN;
    lemma_fundamental_div_mod(x, span);
    assert(x + turns * span == (x / span + turns) * span + x % span) by (nonlinear_arith)
        requires
            x == span * (x / span) + x % span,
    ;
    lemma_fundamental_div_mod_converse(x + turns * span, span, x / span + turns, x % span);
}

/// Wrapping always lands in `[LONGITUDE_MIN, LONGITUDE_MAX)`, and wrapping a
/// wrapped value changes nothing.
pub proof fn lemma_wrap_longitude_idempotent(v: int)
    ensures
        LONGITUDE_MIN <= wrap_longitude(v) < LONGITUDE_MAX,
        wrap_longitude(wrap_longitude(v)) == wrap_longitude(v),
{
    lemma_wrap_longitude_fixed(wrap_longitude(v));
}

/// How a longitude reads: its magnitude in degrees, then `\u{b0}E` from zero
/// upwards and `\u{b0}W` below.
pub open spec fn longitude_text(v: int) -> Seq<char> {
    signed_text(v, 'E', 'W')
}

/// An east-west angle, always within `[LONGITUDE_MIN, LONGITUDE_MAX]`.
#[derive(Debug, Clone, Copy, PartialEq, Eq, Structural, Ord, Hash)]
pub struct Longitude {
    longitude: CoordinateType,
}

impl View for Longitude {
    type V = int;

    closed spec fn view(&self) -> int {
        self.longitude as int
    }
}

impl Longitude {
    #[verifier::type_invariant]
    spec fn inv(self) -> bool {
        is_longitude(self.longitude as int)
    }

    /// The longitude that wrapping `v` into range gives.
    pub closed spec fn spec_from_wrapped(v: int) -> Self {
        Longitude { longitude: wrap_longitude(v) as CoordinateType }
    }

    /// The longitude whose view is `v`, for `v` in the legal range.
    pub closed spec fn spec_of(v: int) -> Self {
        Longitude { longitude: v as CoordinateType }
    }

    /// The view of `spec_of(v)` is `v`.
    pub proof fn lemma_spec_of(v: int)
        requires
            is_longitude(v),
        ensures
            Self::spec_of(v)@ == v,
    {
    }

    /// Two longitudes with the same view are the same.
    pub proof fn lemma_view_injective(a: Self, b: Self)
        ensures
            a@ == b@ ==> a == b,
    {
    }

    /// Constructs a longitude, failing with `OutOfRange` outside the legal range.
    pub fn new(longitude: CoordinateType) -> (r: Result<Self, Error>)
        ensures
            r is Ok <==> is_longitude(longitude as int),
            r is Ok ==> r->Ok_0@ == longitude,
            r is Err ==> r->Err_0 == (Error::OutOfRange { value: longitude, min: LONGITUDE_MIN, max: LONGITUDE_MAX }),
            r == decode_longitude(longitude),
    {
        if Self::is_valid(longitude) {
            Ok(Self { longitude })
        } else {
            Err(Error::OutOfRange { value: longitude, min: LONGITUDE_MIN, max: LONGITUDE_MAX })
        }
    }

    /// Constructs a longitude that the caller knows to be in range.
    pub fn from_unchecked(longitude: CoordinateType) -> (r: Self)
        requires
            is_longitude(longitude as int),
        ensures
            r@ == longitude,
    {
        Self { longitude }
    }

    /// Constructs a longitude, wrapping `longitude` around the globe into
    /// `[LONGITUDE_MIN, LONGITUDE_MAX)`.
    pub fn from_wrapped(longitude: CoordinateType) -> (r: Self)
        ensures
            r@ == wrap_longitude(longitude as int),
            LONGITUDE_MIN <= r@ < LONGITUDE_MAX,
    {
        Self::wrapped_wide(longitude as i128)
    }

    /// `longitude`, of any magnitude up to `WIDE_LIMIT`, wrapped into range.
    fn wrapped_wide(longitude: i128) -> (r: Self)
        requires
            -crate::normalize::WIDE_LIMIT <= longitude <= crate::normalize::WIDE_LIMIT,
        ensures
            r == Self::spec_from_wrapped(longitude as int),
            r@ == wrap_longitude(longitude as int),
            LONGITUDE_MIN <= r@ < LONGITUDE_MAX,
    {
        Self { longitude: Self::normalized(longitude) }
    }

    /// Whether `longitude` lies in the legal range.
    pub fn is_valid(longitude: CoordinateType) -> (r: bool)
        ensures
            r == is_longitude(longitude as int),
    {
        LONGITUDE_MIN <= longitude && longitude <= LONGITUDE_MAX
    }

    /// The angle in fixed-point units.
    pub fn value(&self) -> (r: CoordinateType)
        ensures
            r == self@,
            is_longitude(r as int),
    {
        proof {
            use_type_invariant(self);
        }
        self.longitude
    }

    /// Appends this longitude as text.
    pub fn write_text(&self, s: &mut String)
        ensures
            final(s)@ == old(s)@ + longitude_text(self@),
    {
        push_signed(s, self.value(), 'E', 'W');
    }

    /// This longitude as text, such as `"12.5 \u{b0}W"`.
    pub fn to_string(&self) -> (r: String)
        ensures
            r@ == longitude_text(self@),
    {
        let mut s = String::new();
        self.write_text(&mut s);
        s
    }
}

impl Normalized for Longitude {
    open spec fn spec_min() -> int {
        LONGITUDE_MIN as int
    }

    open spec fn spec_max() -> int {
        LONGITUDE_MAX as int
    }

    fn min() -> (r: CoordinateType) {
        LONGITUDE_MIN
    }

    fn max() -> (r: CoordinateType) {
        LONGITUDE_MAX
    }
}

/// What validating a raw longitude gives: the longitude with that value if it is
/// in range, else the `OutOfRange` error.
pub open spec fn decode_longitude(longitude: CoordinateType) -> Result<Longitude, Error> {
    if is_longitude(longitude as int) {
        Ok(Longitude::spec_of(longitude as int))
    } else {
        Err(Error::OutOfRange { value: longitude, min: LONGITUDE_MIN, max: LONGITUDE_MAX })
    }
}

impl TryFrom<CoordinateType> for Longitude {
    type Error = Error;

    /// Validates a raw value, as `new`.
    fn try_from(longitude: CoordinateType) -> (r: Result<Self, Error>)
        ensures
            r == decode_longitude(longitude),
    {
        Self::new(longitude)
    }
}

impl vstd::std_specs::convert::TryFromSpecImpl<CoordinateType> for Longitude {
    open spec fn obeys_try_from_spec() -> bool {
        true
    }

    open spec fn try_from_spec(longitude: CoordinateType) -> Result<Self, Error> {
        decode_longitude(longitude)
    }
}

impl From<Longitude> for CoordinateType {
    fn from(longitude: Longitude) -> (r: CoordinateType)
        ensures
            r == longitude@,
    {
        longitude.value()
    }
}

impl vstd::std_specs::convert::FromSpecImpl<Longitude> for CoordinateType {
    open spec fn obeys_from_spec() -> bool {
        true
    }

    open spec fn from_spec(longitude: Longitude) -> CoordinateType {
        longitude@ as CoordinateType
    }
}

impl Add<CoordinateType> for Longitude {
    type Output = Self;

    /// Adds `rhs` and wraps the sum around the globe.
    fn add(self, rhs: CoordinateType) -> (r: Self)
        ensures
            r@ == wrap_longitude(self@ + rhs),
            r == Self::spec_from_wrapped(self@ + rhs),
    {
        Self::wrapped_wide(self.value() as i128 + rhs as i128)
    }
}

impl vstd::std_specs::ops::AddSpecImpl<CoordinateType> for Longitude {
    open spec fn obeys_add_spec() -> bool {
        true
    }

    open spec fn add_req(self, rhs: CoordinateType) -> bool {
        true
    }

    open spec fn add_spec(self, rhs: CoordinateType) -> Self {
        Self::spec_from_wrapped(self@ + rhs)
    }
}

impl AddAssign<CoordinateType> for Longitude {
    /// Adds `rhs` in place and wraps the sum around the globe.
    fn add_assign(&mut self, rhs: CoordinateType)
        ensures
            final(self)@ == wrap_longitude(old(self)@ + rhs),
    {
        *self = *self + rhs;
    }
}

impl Sub<CoordinateType> for Longitude {
    type Output = Self;

    /// Subtracts `rhs` and wraps the difference around the globe.
    fn sub(self, rhs: CoordinateType) -> (r: Self)
        ensures
            r@ == wrap_longitude(self@ - rhs),
            r == Self::spec_from_wrapped(self@ - rhs),
    {
        Self::wrapped_wide(self.value() as i128 - rhs as i128)
    }
}

impl vstd::std_specs::ops::SubSpecImpl<CoordinateType> for Longitude {
    open spec fn obeys_sub_spec() -> bool {
        true
    }

    open spec fn sub_req(self, rhs: CoordinateType) -> bool {
        true
    }

    open spec fn sub_spec(self, rhs: CoordinateType) -> Self {
        Self::spec_from_wrapped(self@ - rhs)
    }
}

impl SubAssign<CoordinateType> for Longitude {
    /// Subtracts `rhs` in place and wraps the difference around the globe.
    fn sub_assign(&mut self, rhs: CoordinateType)
        ensures
            final(self)@ == wrap_longitude(old(self)@ - rhs),
    {
        *self = *self - rhs;
    }
}

impl Mul<CoordinateType> for Longitude {
    type Output = Self;

    /// Scales by `rhs` and wraps the product around the globe.
    fn mul(self, rhs: CoordinateType) -> (r: Self)
        ensures
            r@ == wrap_longitude(self@ * rhs),
            r == Self::spec_from_wrapped(self@ * rhs),
    {
        let v = self.value();
        proof {
            assert(-0x4000_0000_0000_0000_0000_0000_0000 <= (v as int) * (rhs as int)
                <= 0x4000_0000_0000_0000_0000_0000_0000) by (nonlinear_arith)
                requires
                    -0x8000_0000 <= v <= 0x8000_0000,
                    -0x8000_0000_0000_0000 <= rhs <= 0x8000_0000_0000_0000,
            ;
        }
        Self::wrapped_wide(v as i128 * rhs as i128)
    }
}

impl vstd::std_specs::ops::MulSpecImpl<CoordinateType> for Longitude {
    open spec fn obeys_mul_spec() -> bool {
        true
    }

    open spec fn mul_req(self, rhs: CoordinateType) -> bool {
        true
    }

    open spec fn mul_spec(self, rhs: CoordinateType) -> Self {
        Self::spec_from_wrapped(self@ * rhs)
    }
}

impl MulAssign<CoordinateType> for Longitude {
    /// Scales by `rhs` in place and wraps the product around the globe.
    fn mul_assign(&mut self, rhs: CoordinateType)
        ensures
            final(self)@ == wrap_longitude(old(self)@ * rhs),
    {
        *self = *self * rhs;
    }
}

impl Div<CoordinateType> for Longitude {
    type Output = Self;

    /// Divides by `rhs`, rounding down, and wraps the quotient into range.
    fn div(self, rhs: CoordinateType) -> (r: Self)
        ensures
            r@ == wrap_longitude(self@ / (rhs as int)),
            r == Self::spec_from_wrapped(self@ / (rhs as int)),
    {
        let v = self.value();
        proof {
            lemma_quotient_bounded(v as int, rhs as int);
        }
        let q = v.checked_div_euclid(rhs).unwrap();
        Self::wrapped_wide(q as i128)
    }
}

impl vstd::std_specs::ops::DivSpecImpl<CoordinateType> for Longitude {
    open spec fn obeys_div_spec() -> bool {
        true
    }

    open spec fn div_req(self, rhs: CoordinateType) -> bool {
        rhs != 0
    }

    open spec fn div_spec(self, rhs: CoordinateType) -> Self {
        Self::spec_from_wrapped(self@ / (rhs as int))
    }
}

impl Neg for Longitude {
    type Output = Self;

    /// The mirror image across the prime meridian, wrapped into range (so
    /// that the negation of `LONGITUDE_MIN` is `LONGITUDE_MIN`).
    fn neg(self) -> (r: Self)
        ensures
            r@ == wrap_longitude(-self@),
            r == Self::spec_from_wrapped(-self@),
    {
        Self::wrapped_wide(-(self.value() as i128))
    }
}

impl vstd::std_specs::ops::NegSpecImpl for Longitude {
    open spec fn obeys_neg_spec() -> bool {
        true
    }

    open spec fn neg_req(self) -> bool {
        true
    }

    open spec fn neg_spec(self) -> Self {
        Self::spec_from_wrapped(-self@)
    }
}

impl PartialOrd for Longitude {
    fn partial_cmp(&self, other: &Self) -> (r: Option<Ordering>) {
        Some(compare(self.longitude, other.longitude))
    }
}

impl vstd::std_specs::cmp::PartialOrdSpecImpl for Longitude {
    open spec fn obeys_partial_cmp_spec() -> bool {
        true
    }

    open spec fn partial_cmp_spec(&self, other: &Self) -> Option<Ordering> {
        Some(int_cmp(self@, other@))
    }
}

} // verus!
