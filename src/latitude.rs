use vstd::prelude::*;

use crate::error::Error;
use crate::normalize::{lemma_quotient_bounded, Normalized};
use crate::order::{compare, int_cmp};
use crate::text::{push_signed, signed_text};
use crate::{CoordinateType, UNITS_PER_DEGREE};
use core::cmp::Ordering;
use core::ops::{Add, AddAssign, Div, Mul, MulAssign, Neg, Sub, SubAssign};

verus! {

/// The southern bound of a latitude, the south pole.
pub const LATITUDE_MIN: CoordinateType = -90 * UNITS_PER_DEGREE;

/// The northern bound of a latitude, the north pole.
pub const LATITUDE_MAX: CoordinateType = 90 * UNITS_PER_DEGREE;

/// Whether `v` lies in `[LATITUDE_MIN, LATITUDE_MAX]`.
pub open spec fn is_latitude(v: int) -> bool {
    LATITUDE_MIN <= v <= LATITUDE_MAX
}

/// `v` saturated into `[LATITUDE_MIN, LATITUDE_MAX]`.
pub open spec fn clamp_latitude(v: int) -> int {
    if v < LATITUDE_MIN {
        LATITUDE_MIN as int
    } else if v > LATITUDE_MAX {
        LATITUDE_MAX as int
    } else {
        v
    }
}

/// How a latitude reads: its magnitude in degrees, then `\u{b0}N` from zero
/// upwards and `\u{b0}S` below.
pub open spec fn latitude_text(v: int) -> Seq<char> {
    signed_text(v, 'N', 'S')
}

/// A north-south angle, always within `[LATITUDE_MIN, LATITUDE_MAX]`.
#[derive(Debug, Clone, Copy, PartialEq, Eq, Structural, Ord, Hash)]
pub struct Latitude {
    latitude: CoordinateType,
}

impl View for Latitude {
    type V = int;

    closed spec fn view(&self) -> int {
        self.latitude as int
    }
}

impl Latitude {
    #[verifier::type_invariant]
    spec fn inv(self) -> bool {
        is_latitude(self.latitude as int)
    }

    /// The latitude that saturating `v` into the legal range gives.
    pub closed spec fn spec_from_clamped(v: int) -> Self {
        Latitude { latitude: clamp_latitude(v) as CoordinateType }
    }

    /// The latitude whose view is `v`, for `v` in the legal range.
    pub closed spec fn spec_of(v: int) -> Self {
        Latitude { latitude: v as CoordinateType }
    }

    /// The view of `spec_of(v)` is `v`.
    pub proof fn lemma_spec_of(v: int)
        requires
            is_latitude(v),
        ensures
            Self::spec_of(v)@ == v,
    {
    }

    /// Two latitudes with the same view are the same.
    pub proof fn lemma_view_injective(a: Self, b: Self)
        ensures
            a@ == b@ ==> a == b,
    {
    }

    /// Constructs a latitude, failing with `OutOfRange` outside the legal range.
    pub fn new(latitude: CoordinateType) -> (r: Result<Self, Error>)
        ensures
            r is Ok <==> is_latitude(latitude as int),
            r is Ok ==> r->Ok_0@ == latitude,
            r is Err ==> r->Err_0 == (Error::OutOfRange { value: latitude, min: LATITUDE_MIN, max: LATITUDE_MAX }),
            r == decode_latitude(latitude),
    {
        if Self::is_valid(latitude) {
            Ok(Self { latitude })
        } else {
            Err(Error::OutOfRange { value: latitude, min: LATITUDE_MIN, max: LATITUDE_MAX })
        }
    }

    /// Constructs a latitude that the caller knows to be in range.
    pub fn from_unchecked(latitude: CoordinateType) -> (r: Self)
        requires
            is_latitude(latitude as int),
        ensures
            r@ == latitude,
    {
        Self { latitude }
    }

    /// Constructs a latitude, saturating `latitude` into the legal range.
    pub fn from_clamped(latitude: CoordinateType) -> (r: Self)
        ensures
            r@ == clamp_latitude(latitude as int),
            is_latitude(r@),
            is_latitude(latitude as int) ==> r@ == latitude,
    {
        Self::clamped_wide(latitude as i128)
    }

    /// `latitude`, of any magnitude, saturated into the legal range.
    fn clamped_wide(latitude: i128) -> (r: Self)
        ensures
            r == Self::spec_from_clamped(latitude as int),
    {
        if latitude < LATITUDE_MIN as i128 {
            Self { latitude: LATITUDE_MIN }
        } else if latitude > LATITUDE_MAX as i128 {
            Self { latitude: LATITUDE_MAX }
        } else {
            Self { latitude: latitude as CoordinateType }
        }
    }

    /// Whether `latitude` lies in the legal range.
    pub fn is_valid(latitude: CoordinateType) -> (r: bool)
        ensures
            r == is_latitude(latitude as int),
    {
        LATITUDE_MIN <= latitude && latitude <= LATITUDE_MAX
    }

    /// The angle in fixed-point units.
    pub fn value(&self) -> (r: CoordinateType)
        ensures
            r == self@,
            is_latitude(r as int),
    {
        proof {
            use_type_invariant(self);
        }
        self.latitude
    }

    /// Appends this latitude as text.
    pub fn write_text(&self, s: &mut String)
        ensures
            final(s)@ == old(s)@ + latitude_text(self@),
    {
        push_signed(s, self.value(), 'N', 'S');
    }

    /// This latitude as text, such as `"45 \u{b0}N"`.
    pub fn to_string(&self) -> (r: String)
        ensures
            r@ == latitude_text(self@),
    {
        let mut s = String::new();
        self.write_text(&mut s);
        s
    }
}

impl Normalized for Latitude {
    open spec fn spec_min() -> int {
        LATITUDE_MIN as int
    }

    open spec fn spec_max() -> int {
        LATITUDE_MAX as int
    }

    fn min() -> (r: CoordinateType) {
        LATITUDE_MIN
    }

    fn max() -> (r: CoordinateType) {
        LATITUDE_MAX
    }
}

/// What validating a raw latitude gives: the latitude with that value if it is
/// in range, else the `OutOfRange` error.
pub open spec fn decode_latitude(latitude: CoordinateType) -> Result<Latitude, Error> {
    if is_latitude(latitude as int) {
        Ok(Latitude::spec_of(latitude as int))
    } else {
        Err(Error::OutOfRange { value: latitude, min: LATITUDE_MIN, max: LATITUDE_MAX })
    }
}

impl TryFrom<CoordinateType> for Latitude {
    type Error = Error;

    /// Validates a raw value, as `new`.
    fn try_from(latitude: CoordinateType) -> (r: Result<Self, Error>)
        ensures
            r == decode_latitude(latitude),
    {
        Self::new(latitude)
    }
}

impl vstd::std_specs::convert::TryFromSpecImpl<CoordinateType> for Latitude {
    open spec fn obeys_try_from_spec() -> bool {
        true
    }

    open spec fn try_from_spec(latitude: CoordinateType) -> Result<Self, Error> {
        decode_latitude(latitude)
    }
}

impl From<Latitude> for CoordinateType {
    fn from(latitude: Latitude) -> (r: CoordinateType)
        ensures
            r == latitude@,
    {
        latitude.value()
    }
}

impl vstd::std_specs::convert::FromSpecImpl<Latitude> for CoordinateType {
    open spec fn obeys_from_spec() -> bool {
        true
    }

    open spec fn from_spec(latitude: Latitude) -> CoordinateType {
        latitude@ as CoordinateType
    }
}

impl Add<CoordinateType> for Latitude {
    type Output = Self;

    /// Adds `rhs` and saturates the sum into the legal range.
    fn add(self, rhs: CoordinateType) -> (r: Self)
        ensures
            r@ == clamp_latitude(self@ + rhs),
            r == Self::spec_from_clamped(self@ + rhs),
    {
        Self::clamped_wide(self.value() as i128 + rhs as i128)
    }
}

impl vstd::std_specs::ops::AddSpecImpl<CoordinateType> for Latitude {
    open spec fn obeys_add_spec() -> bool {
        true
    }

    open spec fn add_req(self, rhs: CoordinateType) -> bool {
        true
    }

    open spec fn add_spec(self, rhs: CoordinateType) -> Self {
        Self::spec_from_clamped(self@ + rhs)
    }
}

impl AddAssign<CoordinateType> for Latitude {
    /// Adds `rhs` in place and saturates the sum into the legal range.
    fn add_assign(&mut self, rhs: CoordinateType)
        ensures
            final(self)@ == clamp_latitude(old(self)@ + rhs),
    {
        *self = *self + rhs;
    }
}

impl Sub<CoordinateType> for Latitude {
    type Output = Self;

    /// Subtracts `rhs` and saturates the difference into the legal range.
    fn sub(self, rhs: CoordinateType) -> (r: Self)
        ensures
            r@ == clamp_latitude(self@ - rhs),
            r == Self::spec_from_clamped(self@ - rhs),
    {
        Self::clamped_wide(self.value() as i128 - rhs as i128)
    }
}

impl vstd::std_specs::ops::SubSpecImpl<CoordinateType> for Latitude {
    open spec fn obeys_sub_spec() -> bool {
        true
    }

    open spec fn sub_req(self, rhs: CoordinateType) -> bool {
        true
    }

    open spec fn sub_spec(self, rhs: CoordinateType) -> Self {
        Self::spec_from_clamped(self@ - rhs)
    }
}

impl SubAssign<CoordinateType> for Latitude {
    /// Subtracts `rhs` in place and saturates the difference into the legal range.
    fn sub_assign(&mut self, rhs: CoordinateType)
        ensures
            final(self)@ == clamp_latitude(old(self)@ - rhs),
    {
        *self = *self - rhs;
    }
}

impl Mul<CoordinateType> for Latitude {
    type Output = Self;

    /// Scales by `rhs` and saturates the product into the legal range.
    fn mul(self, rhs: CoordinateType) -> (r: Self)
        ensures
            r@ == clamp_latitude(self@ * rhs),
            r == Self::spec_from_clamped(self@ * rhs),
    {
        let v = self.value();
        proof {
            assert(-0x4000_0000_0000_0000_0000_0000_0000 <= (v as int) * (rhs as int)
                <= 0x4000_0000_0000_0000_0000_0000_0000) by (nonlinear_arith)
                requires
                    -0x4000_0000 <= v <= 0x4000_0000,
                    -0x8000_0000_0000_0000 <= rhs <= 0x8000_0000_0000_0000,
            ;
        }
        Self::clamped_wide(v as i128 * rhs as i128)
    }
}

impl vstd::std_specs::ops::MulSpecImpl<CoordinateType> for Latitude {
    open spec fn obeys_mul_spec() -> bool {
        true
    }

    open spec fn mul_req(self, rhs: CoordinateType) -> bool {
        true
    }

    open spec fn mul_spec(self, rhs: CoordinateType) -> Self {
        Self::spec_from_clamped(self@ * rhs)
    }
}

impl MulAssign<CoordinateType> for Latitude {
    /// Scales by `rhs` in place and saturates the product into the legal range.
    fn mul_assign(&mut self, rhs: CoordinateType)
        ensures
            final(self)@ == clamp_latitude(old(self)@ * rhs),
    {
        *self = *self * rhs;
    }
}

impl Div<CoordinateType> for Latitude {
    type Output = Self;

    /// Divides by `rhs`, rounding down, and saturates the quotient into the
    /// legal range.
    fn div(self, rhs: CoordinateType) -> (r: Self)
        ensures
            r@ == clamp_latitude(self@ / (rhs as int)),
            r == Self::spec_from_clamped(self@ / (rhs as int)),
    {
        let v = self.value();
        proof {
            lemma_quotient_bounded(v as int, rhs as int);
        }
        let q = v.checked_div_euclid(rhs).unwrap();
        Self::clamped_wide(q as i128)
    }
}

impl vstd::std_specs::ops::DivSpecImpl<CoordinateType> for Latitude {
    open spec fn obeys_div_spec() -> bool {
        true
    }

    open spec fn div_req(self, rhs: CoordinateType) -> bool {
        rhs != 0
    }

    open spec fn div_spec(self, rhs: CoordinateType) -> Self {
        Self::spec_from_clamped(self@ / (rhs as int))
    }
}

impl Neg for Latitude {
    type Output = Self;

    /// The mirror image across the equator.
    fn neg(self) -> (r: Self)
        ensures
            r@ == -self@,
            r == Self::spec_from_clamped(-self@),
    {
        Self::clamped_wide(-(self.value() as i128))
    }
}

impl vstd::std_specs::ops::NegSpecImpl for Latitude {
    open spec fn obeys_neg_spec() -> bool {
        true
    }

    open spec fn neg_req(self) -> bool {
        true
    }

    open spec fn neg_spec(self) -> Self {
        Self::spec_from_clamped(-self@)
    }
}

impl PartialOrd for Latitude {
    fn partial_cmp(&self, other: &Self) -> (r: Option<Ordering>) {
        Some(compare(self.latitude, other.latitude))
    }
}

impl vstd::std_specs::cmp::PartialOrdSpecImpl for Latitude {
    open spec fn obeys_partial_cmp_spec() -> bool {
        true
    }

    open spec fn partial_cmp_spec(&self, other: &Self) -> Option<Ordering> {
        Some(int_cmp(self@, other@))
    }
}

} // verus!
