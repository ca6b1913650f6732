use vstd::prelude::*;

use crate::error::Error;
use crate::latitude::{clamp_latitude, is_latitude, latitude_text, Latitude};
use crate::longitude::{is_longitude, longitude_text, wrap_longitude, Longitude};
use crate::order::{compare, int_cmp};
use crate::text::push_char;
use crate::CoordinateType;
use core::cmp::Ordering;
use core::ops::{Add, AddAssign, Div, Mul, MulAssign, Sub, SubAssign};

verus! {

/// The dominance order of two points, from the orders of their latitudes and
/// of their longitudes:
///
/// | latitude | longitude | point     |
/// |----------|-----------|-----------|
/// | Less     | Less      | Less      |
/// | Less     | Equal     | Less      |
/// | Equal    | Less      | Less      |
/// | Equal    | Equal     | Equal     |
/// | Equal    | Greater   | Greater   |
/// | Greater  | Equal     | Greater   |
/// | Greater  | Greater   | Greater   |
/// | Less     | Greater   | unordered |
/// | Greater  | Less      | unordered |
pub open spec fn dominance(lat: Ordering, lon: Ordering) -> Option<Ordering> {
    match (lat, lon) {
        (Ordering::Less, Ordering::Less) => Some(Ordering::Less),
        (Ordering::Less, Ordering::Equal) => Some(Ordering::Less),
        (Ordering::Equal, Ordering::Less) => Some(Ordering::Less),
        (Ordering::Equal, Ordering::Equal) => Some(Ordering::Equal),
        (Ordering::Equal, Ordering::Greater) => Some(Ordering::Greater),
        (Ordering::Greater, Ordering::Equal) => Some(Ordering::Greater),
        (Ordering::Greater, Ordering::Greater) => Some(Ordering::Greater),
        _ => None,
    }
}

/// The error that `Coordinates::from_value` reports for a pair: the
/// latitude's if it is out of range, else the longitude's.
pub open spec fn point_error(latitude: CoordinateType, longitude: CoordinateType) -> Error {
    if !is_latitude(latitude as int) {
        Error::OutOfRange {
            value: latitude,
            min: crate::latitude::LATITUDE_MIN,
            max: crate::latitude::LATITUDE_MAX,
        }
    } else {
        Error::OutOfRange {
            value: longitude,
            min: crate::longitude::LONGITUDE_MIN,
            max: crate::longitude::LONGITUDE_MAX,
        }
    }
}

/// How a point reads: its latitude, a space, its longitude.
pub open spec fn coordinates_text(p: (int, int)) -> Seq<char> {
    latitude_text(p.0) + seq![' '] + longitude_text(p.1)
}

/// A single point on earth: a latitude (the y coordinate) and a longitude
/// (the x coordinate). Its view is the pair `(latitude, longitude)`.
///
/// Points are ordered by dominance (see `dominance`): one point is below
/// another when it is nowhere north or east of it and is not the same
/// point; a point north-west or south-east of another is unordered with it.
#[derive(Debug, Clone, Copy, PartialEq, Eq, Structural, Hash)]
pub struct Coordinates {
    latitude: Latitude,
    longitude: Longitude,
}

/// The name under which a point is also known.
pub type Coordinate = Coordinates;

impl View for Coordinates {
    type V = (int, int);

    closed spec fn view(&self) -> (int, int) {
        (self.latitude@, self.longitude@)
    }
}

impl Coordinates {
    /// The point whose view is `(latitude, longitude)`, for values in
    /// range.
    pub closed spec fn spec_of(latitude: int, longitude: int) -> Self {
        Coordinates { latitude: Latitude::spec_of(latitude), longitude: Longitude::spec_of(longitude) }
    }

    /// The view of `spec_of(latitude, longitude)` is that pair.
    pub proof fn lemma_spec_of(latitude: int, longitude: int)
        requires
            is_latitude(latitude),
            is_longitude(longitude),
        ensures
            Self::spec_of(latitude, longitude)@ == (latitude, longitude),
    {
        Latitude::lemma_spec_of(latitude);
        Longitude::lemma_spec_of(longitude);
    }

    /// Two points with the same view are the same.
    pub proof fn lemma_view_injective(a: Self, b: Self)
        ensures
            a@ == b@ ==> a == b,
    {
        Latitude::lemma_view_injective(a.latitude, b.latitude);
        Longitude::lemma_view_injective(a.longitude, b.longitude);
    }

    /// A point from its two components.
    pub fn new(latitude: Latitude, longitude: Longitude) -> (r: Self)
        ensures
            r@ == (latitude@, longitude@),
    {
        Self { latitude, longitude }
    }

    /// A point from two raw values, failing with the latitude's
    /// `OutOfRange` error, or else the longitude's, when one is out of range.
    pub fn from_value(latitude: CoordinateType, longitude: CoordinateType) -> (r: Result<
        Self,
        Error,
    >)
        ensures
            r is Ok <==> is_latitude(latitude as int) && is_longitude(longitude as int),
            r is Ok ==> r->Ok_0@ == (latitude as int, longitude as int),
            r is Err ==> r->Err_0 == point_error(latitude, longitude),
            r == decode_pair((latitude, longitude)),
    {
        let lat = match Latitude::new(latitude) {
            Ok(lat) => lat,
            Err(e) => {
                return Err(e);
            },
        };
        let lon = match Longitude::new(longitude) {
            Ok(lon) => lon,
            Err(e) => {
                return Err(e);
            },
        };
        let p = Self::new(lat, lon);
        proof {
            Self::lemma_spec_of(latitude as int, longitude as int);
            Self::lemma_view_injective(p, Self::spec_of(latitude as int, longitude as int));
        }
        Ok(p)
    }

    /// A point from two raw values that the caller knows to be in range.
    pub fn from_unchecked(latitude: CoordinateType, longitude: CoordinateType) -> (r: Self)
        requires
            is_latitude(latitude as int),
            is_longitude(longitude as int),
        ensures
            r@ == (latitude as int, longitude as int),
    {
        Self::new(Latitude::from_unchecked(latitude), Longitude::from_unchecked(longitude))
    }

    /// A point from two raw values: the latitude is clamped and the
    /// longitude wrapped into range.
    pub fn from_wrapped(latitude: CoordinateType, longitude: CoordinateType) -> (r: Self)
        ensures
            r@ == (clamp_latitude(latitude as int), wrap_longitude(longitude as int)),
    {
        Self::new(Latitude::from_clamped(latitude), Longitude::from_wrapped(longitude))
    }

    /// The latitude of this point.
    pub fn latitude(&self) -> (r: Latitude)
        ensures
            r@ == self@.0,
    {
        self.latitude
    }

    /// The longitude of this point.
    pub fn longitude(&self) -> (r: Longitude)
        ensures
            r@ == self@.1,
    {
        self.longitude
    }

    /// The raw latitude and longitude.
    pub fn tuple(&self) -> (r: (CoordinateType, CoordinateType))
        ensures
            r.0 == self@.0,
            r.1 == self@.1,
            is_latitude(r.0 as int),
            is_longitude(r.1 as int),
    {
        (self.latitude.value(), self.longitude.value())
    }

    /// Appends this point as text.
    pub fn write_text(&self, s: &mut String)
        ensures
            final(s)@ == old(s)@ + coordinates_text(self@),
    {
        self.latitude.write_text(s);
        push_char(s, ' ');
        self.longitude.write_text(s);
    }

    /// This point as text, such as `"45 \u{b0}N 12.5 \u{b0}W"`.
    pub fn to_string(&self) -> (r: String)
        ensures
            r@ == coordinates_text(self@),
    {
        let mut s = String::new();
        self.write_text(&mut s);
        s
    }
}

/// Encoding a point as its raw pair `(latitude, longitude)`, as `tuple`
/// and `From` do, and decoding it again, as `TryFrom` and `from_value` do,
/// gives back the same point.
pub proof fn lemma_tuple_round_trip(p: Coordinates)
    requires
        is_latitude(p@.0),
        is_longitude(p@.1),
    ensures
        decode_pair((p@.0 as CoordinateType, p@.1 as CoordinateType)) == Ok::<Coordinates, Error>(p),
{
    Coordinates::lemma_spec_of(p@.0, p@.1);
    Coordinates::lemma_view_injective(p, Coordinates::spec_of(p@.0, p@.1));
}

impl From<Coordinates> for (CoordinateType, CoordinateType) {
    fn from(point: Coordinates) -> (r: (CoordinateType, CoordinateType))
        ensures
            r.0 == point@.0,
            r.1 == point@.1,
    {
        point.tuple()
    }
}

impl vstd::std_specs::convert::FromSpecImpl<Coordinates> for (CoordinateType, CoordinateType) {
    open spec fn obeys_from_spec() -> bool {
        true
    }

    open spec fn from_spec(point: Coordinates) -> (CoordinateType, CoordinateType) {
        (point@.0 as CoordinateType, point@.1 as CoordinateType)
    }
}

/// What validating a raw pair `(latitude, longitude)` gives: the point if
/// both values are in range, else the error of `point_error`.
pub open spec fn decode_pair(pair: (CoordinateType, CoordinateType)) -> Result<Coordinates, Error> {
    if is_latitude(pair.0 as int) && is_longitude(pair.1 as int) {
        Ok(Coordinates::spec_of(pair.0 as int, pair.1 as int))
    } else {
        Err(point_error(pair.0, pair.1))
    }
}

impl TryFrom<(CoordinateType, CoordinateType)> for Coordinates {
    type Error = Error;

    /// Validates a raw pair `(latitude, longitude)`, as `from_value`.
    fn try_from(pair: (CoordinateType, CoordinateType)) -> (r: Result<Self, Error>)
        ensures
            r == decode_pair(pair),
    {
        Self::from_value(pair.0, pair.1)
    }
}

impl vstd::std_specs::convert::TryFromSpecImpl<(CoordinateType, CoordinateType)> for Coordinates {
    open spec fn obeys_try_from_spec() -> bool {
        true
    }

    open spec fn try_from_spec(pair: (CoordinateType, CoordinateType)) -> Result<Self, Error> {
        decode_pair(pair)
    }
}

impl PartialOrd for Coordinates {
    fn partial_cmp(&self, other: &Self) -> (r: Option<Ordering>) {
        let lat = compare(self.latitude.value(), other.latitude.value());
        let lon = compare(self.longitude.value(), other.longitude.value());
        match (lat, lon) {
            (Ordering::Less, Ordering::Less | Ordering::Equal)
            | (Ordering::Equal, Ordering::Less) => Some(Ordering::Less),
            (Ordering::Equal, Ordering::Equal) => Some(Ordering::Equal),
            (Ordering::Greater, Ordering::Greater | Ordering::Equal)
            | (Ordering::Equal, Ordering::Greater) => Some(Ordering::Greater),
            _ => None,
        }
    }
}

impl vstd::std_specs::cmp::PartialOrdSpecImpl for Coordinates {
    open spec fn obeys_partial_cmp_spec() -> bool {
        true
    }

    open spec fn partial_cmp_spec(&self, other: &Self) -> Option<Ordering> {
        dominance(int_cmp(self@.0, other@.0), int_cmp(self@.1, other@.1))
    }
}

impl Add for Coordinates {
    type Output = Self;

    /// Adds component-wise: the latitude saturates, the longitude wraps.
    fn add(self, rhs: Self) -> (r: Self)
        ensures
            r@ == (clamp_latitude(self@.0 + rhs@.0), wrap_longitude(self@.1 + rhs@.1)),
    {
        Self {
            latitude: self.latitude + rhs.latitude.value(),
            longitude: self.longitude + rhs.longitude.value(),
        }
    }
}

impl vstd::std_specs::ops::AddSpecImpl for Coordinates {
    open spec fn obeys_add_spec() -> bool {
        true
    }

    open spec fn add_req(self, rhs: Self) -> bool {
        true
    }

    closed spec fn add_spec(self, rhs: Self) -> Self {
        Coordinates {
            latitude: Latitude::spec_from_clamped(self@.0 + rhs@.0),
            longitude: Longitude::spec_from_wrapped(self@.1 + rhs@.1),
        }
    }
}

impl AddAssign for Coordinates {
    /// Adds component-wise in place: the latitude saturates, the longitude wraps.
    fn add_assign(&mut self, rhs: Self)
        ensures
            final(self)@ == (
                clamp_latitude(old(self)@.0 + rhs@.0),
                wrap_longitude(old(self)@.1 + rhs@.1),
            ),
    {
        *self = *self + rhs;
    }
}

impl Sub for Coordinates {
    type Output = Self;

    /// Subtracts component-wise: the latitude saturates, the longitude wraps.
    fn sub(self, rhs: Self) -> (r: Self)
        ensures
            r@ == (clamp_latitude(self@.0 - rhs@.0), wrap_longitude(self@.1 - rhs@.1)),
    {
        Self {
            latitude: self.latitude - rhs.latitude.value(),
            longitude: self.longitude - rhs.longitude.value(),
        }
    }
}

impl vstd::std_specs::ops::SubSpecImpl for Coordinates {
    open spec fn obeys_sub_spec() -> bool {
        true
    }

    open spec fn sub_req(self, rhs: Self) -> bool {
        true
    }

    closed spec fn sub_spec(self, rhs: Self) -> Self {
        Coordinates {
            latitude: Latitude::spec_from_clamped(self@.0 - rhs@.0),
            longitude: Longitude::spec_from_wrapped(self@.1 - rhs@.1),
        }
    }
}

impl SubAssign for Coordinates {
    /// Subtracts component-wise in place: the latitude saturates, the longitude wraps.
    fn sub_assign(&mut self, rhs: Self)
        ensures
            final(self)@ == (
                clamp_latitude(old(self)@.0 - rhs@.0),
                wrap_longitude(old(self)@.1 - rhs@.1),
            ),
    {
        *self = *self - rhs;
    }
}

impl Mul<CoordinateType> for Coordinates {
    type Output = Self;

    /// Scales both components by `rhs`: the latitude saturates, the
    /// longitude wraps.
    fn mul(self, rhs: CoordinateType) -> (r: Self)
        ensures
            r@ == (clamp_latitude(self@.0 * rhs), wrap_longitude(self@.1 * rhs)),
    {
        Self { latitude: self.latitude * rhs, longitude: self.longitude * rhs }
    }
}

impl vstd::std_specs::ops::MulSpecImpl<CoordinateType> for Coordinates {
    open spec fn obeys_mul_spec() -> bool {
        true
    }

    open spec fn mul_req(self, rhs: CoordinateType) -> bool {
        true
    }

    closed spec fn mul_spec(self, rhs: CoordinateType) -> Self {
        Coordinates {
            latitude: Latitude::spec_from_clamped(self@.0 * rhs),
            longitude: Longitude::spec_from_wrapped(self@.1 * rhs),
        }
    }
}

impl MulAssign<CoordinateType> for Coordinates {
    /// Scales both components by `rhs` in place: the latitude saturates, the longitude wraps.
    fn mul_assign(&mut self, rhs: CoordinateType)
        ensures
            final(self)@ == (clamp_latitude(old(self)@.0 * rhs), wrap_longitude(old(self)@.1 * rhs)),
    {
        *self = *self * rhs;
    }
}

impl Div<CoordinateType> for Coordinates {
    type Output = Self;

    /// Divides both components by `rhs`, rounding down: the latitude
    /// saturates, the longitude wraps.
    fn div(self, rhs: CoordinateType) -> (r: Self)
        ensures
            r@ == (clamp_latitude(self@.0 / (rhs as int)), wrap_longitude(
                self@.1 / (rhs as int),
            )),
    {
        Self { latitude: self.latitude / rhs, longitude: self.longitude / rhs }
    }
}

impl vstd::std_specs::ops::DivSpecImpl<CoordinateType> for Coordinates {
    open spec fn obeys_div_spec() -> bool {
        true
    }

    open spec fn div_req(self, rhs: CoordinateType) -> bool {
        rhs != 0
    }

    closed spec fn div_spec(self, rhs: CoordinateType) -> Self {
        Coordinates {
            latitude: Latitude::spec_from_clamped(self@.0 / (rhs as int)),
            longitude: Longitude::spec_from_wrapped(self@.1 / (rhs as int)),
        }
    }
}

} // verus!
