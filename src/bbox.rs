use vstd::prelude::*;

use crate::coordinates::{point_error, Coordinates};
use crate::error::Error;
use crate::latitude::{clamp_latitude, is_latitude, latitude_text};
use crate::longitude::{
    is_longitude, lemma_wrap_longitude_fixed, lemma_wrap_longitude_turns, longitude_text,
    wrap_longitude, LONGITUDE_MAX, LONGITUDE_MIN,
};
use crate::text::push_str;
use crate::CoordinateType;
use core::cmp::Ordering;
use vstd::arithmetic::div_mod::lemma_fundamental_div_mod;

verus! {

/// The larger of two integers.
pub open spec fn int_max(a: int, b: int) -> int {
    if a >= b {
        a
    } else {
        b
    }
}

/// The smaller of two integers.
pub open spec fn int_min(a: int, b: int) -> int {
    if a <= b {
        a
    } else {
        b
    }
}

/// Whether the corners `(south, west, north, east)` of a box are strictly
/// ordered on both axes.
pub open spec fn is_ordered(b: (int, int, int, int)) -> bool {
    b.0 < b.2 && b.1 < b.3
}

/// Whether each of the four corner values `(south, west, north, east)` lies
/// in the range of its axis.
pub open spec fn is_in_range(b: (int, int, int, int)) -> bool {
    is_latitude(b.0) && is_longitude(b.1) && is_latitude(b.2) && is_longitude(b.3)
}

/// Whether `v` lies in the closed interval `[lo, hi]`.
pub open spec fn between(v: int, lo: int, hi: int) -> bool {
    lo <= v && v <= hi
}

/// Whether the closed intervals `[a_min, a_max]` and `[b_min, b_max]` meet.
pub open spec fn overlaps(a_min: int, a_max: int, b_min: int, b_max: int) -> bool {
    a_min <= b_max && b_min <= a_max
}

/// Whether the box `b` holds the point `p`, edges included.
pub open spec fn contains_point(b: (int, int, int, int), p: (int, int)) -> bool {
    between(p.0, b.0, b.2) && between(p.1, b.1, b.3)
}

/// Whether the box `b` holds both corners of the box `o`.
pub open spec fn contains_box(b: (int, int, int, int), o: (int, int, int, int)) -> bool {
    contains_point(b, (o.0, o.1)) && contains_point(b, (o.2, o.3))
}

/// Whether two boxes meet on both axes, touching edges included.
pub open spec fn intersects_box(a: (int, int, int, int), b: (int, int, int, int)) -> bool {
    overlaps(a.0, a.2, b.0, b.2) && overlaps(a.1, a.3, b.1, b.3)
}

/// The overlap of two boxes: the larger south-west and the smaller
/// north-east values, with the longitudes wrapped into range.
pub open spec fn intersection_box(a: (int, int, int, int), b: (int, int, int, int)) -> (
    int,
    int,
    int,
    int,
) {
    (
        int_max(a.0, b.0),
        wrap_longitude(int_max(a.1, b.1)),
        int_min(a.2, b.2),
        wrap_longitude(int_min(a.3, b.3)),
    )
}

/// The south-west corner moved by half the height and half the width,
/// rounded down, with the usual saturation and wrapping.
pub open spec fn center_of(b: (int, int, int, int)) -> (int, int) {
    (
        clamp_latitude(b.0 + clamp_latitude((b.2 - b.0) / 2)),
        wrap_longitude(b.1 + wrap_longitude((b.3 - b.1) / 2)),
    )
}

/// The containment order of two boxes, from whether the first lies in the
/// second and whether the second lies in the first.
pub open spec fn containment(a_in_b: bool, b_in_a: bool) -> Option<Ordering> {
    if a_in_b && b_in_a {
        Some(Ordering::Equal)
    } else if a_in_b {
        Some(Ordering::Less)
    } else if b_in_a {
        Some(Ordering::Greater)
    } else {
        None
    }
}

/// How a box reads:
/// `(( South: <south>, West: <west> ), ( North: <north>, East: <east> ))`.
pub open spec fn bbox_text(b: (int, int, int, int)) -> Seq<char> {
    "(( South: "@ + latitude_text(b.0) + ", West: "@ + longitude_text(b.1) + " ), ( North: "@
        + latitude_text(b.2) + ", East: "@ + longitude_text(b.3) + " ))"@
}

/// Whether `e` is an `InvalidCornerOrder` error for the given corners.
pub open spec fn is_corner_order_error(e: Error, south_west: (int, int), north_east: (int, int)) -> bool {
    match e {
        Error::InvalidCornerOrder { south_west: sw, north_east: ne } => sw@ == south_west
            && ne@ == north_east,
        _ => false,
    }
}

/// An axis-aligned bounding box on the latitude/longitude plane, given by
/// its south-west (lower left) and north-east (upper right) corners.
///
/// Its view is `(south, west, north, east)`. A box built by `new` has
/// strictly ordered corners; `from_unchecked` and `from_wrapped` leave
/// that to the caller.
///
/// Boxes are ordered by containment: one box is below another when it lies
/// inside it.
#[derive(Debug, Clone, Copy, PartialEq, Eq, Structural, Hash)]
pub struct BBox {
    south_west: Coordinates,
    north_east: Coordinates,
}

impl View for BBox {
    type V = (int, int, int, int);

    closed spec fn view(&self) -> (int, int, int, int) {
        (self.south_west@.0, self.south_west@.1, self.north_east@.0, self.north_east@.1)
    }
}

impl BBox {
    /// The box with the given corners.
    pub closed spec fn spec_from_corners(south_west: Coordinates, north_east: Coordinates) -> Self {
        BBox { south_west, north_east }
    }

    /// Two boxes with the same view are the same.
    pub proof fn lemma_view_injective(a: Self, b: Self)
        ensures
            a@ == b@ ==> a == b,
    {
        Coordinates::lemma_view_injective(a.south_west, b.south_west);
        Coordinates::lemma_view_injective(a.north_east, b.north_east);
    }

    /// A box from its corners, failing with `InvalidCornerOrder` unless
    /// `south_west` is strictly south and strictly west of `north_east`.
    pub fn new(south_west: Coordinates, north_east: Coordinates) -> (r: Result<Self, Error>)
        ensures
            r is Ok <==> south_west@.0 < north_east@.0 && south_west@.1 < north_east@.1,
            r is Ok ==> r->Ok_0@ == (south_west@.0, south_west@.1, north_east@.0, north_east@.1),
            r is Ok ==> r->Ok_0 == Self::spec_from_corners(south_west, north_east),
            r is Err ==> r->Err_0 == (Error::InvalidCornerOrder { south_west, north_east }),
    {
        if south_west.latitude().value() < north_east.latitude().value()
            && south_west.longitude().value() < north_east.longitude().value() {
            Ok(Self { south_west, north_east })
        } else {
            Err(Error::InvalidCornerOrder { south_west, north_east })
        }
    }

    /// A box from corners whose order the caller has already established.
    pub fn from_unchecked(south_west: Coordinates, north_east: Coordinates) -> (r: Self)
        ensures
            r@ == (south_west@.0, south_west@.1, north_east@.0, north_east@.1),
    {
        Self { south_west, north_east }
    }

    /// A box from four raw values: latitudes are clamped and longitudes
    /// wrapped into range, and the corner order is not checked.
    pub fn from_wrapped(
        south_west_latitude: CoordinateType,
        south_west_longitude: CoordinateType,
        north_east_latitude: CoordinateType,
        north_east_longitude: CoordinateType,
    ) -> (r: Self)
        ensures
            r@ == (
                clamp_latitude(south_west_latitude as int),
                wrap_longitude(south_west_longitude as int),
                clamp_latitude(north_east_latitude as int),
                wrap_longitude(north_east_longitude as int),
            ),
    {
        Self {
            south_west: Coordinates::from_wrapped(south_west_latitude, south_west_longitude),
            north_east: Coordinates::from_wrapped(north_east_latitude, north_east_longitude),
        }
    }

    /// The lower left corner.
    pub fn south_west(&self) -> (r: Coordinates)
        ensures
            r@ == (self@.0, self@.1),
    {
        self.south_west
    }

    /// The upper right corner.
    pub fn north_east(&self) -> (r: Coordinates)
        ensures
            r@ == (self@.2, self@.3),
    {
        self.north_east
    }

    /// This box as text.
    pub fn to_string(&self) -> (r: String)
        ensures
            r@ == bbox_text(self@),
    {
        let mut s = String::new();
        push_str(&mut s, "(( South: ");
        self.south_west.latitude().write_text(&mut s);
        push_str(&mut s, ", West: ");
        self.south_west.longitude().write_text(&mut s);
        push_str(&mut s, " ), ( North: ");
        self.north_east.latitude().write_text(&mut s);
        push_str(&mut s, ", East: ");
        self.north_east.longitude().write_text(&mut s);
        push_str(&mut s, " ))");
        s
    }

    /// The signed east-west extent, north-east longitude minus south-west
    /// longitude.
    pub fn width(&self) -> (r: CoordinateType)
        ensures
            r == self@.3 - self@.1,
    {
        let (_, west, _, east) = self.corners();
        east - west
    }

    /// The signed north-south extent, north-east latitude minus south-west
    /// latitude.
    pub fn height(&self) -> (r: CoordinateType)
        ensures
            r == self@.2 - self@.0,
    {
        let (south, _, north, _) = self.corners();
        north - south
    }

    /// The latitude delta across the box in fixed-point units; the same as
    /// `height`.
    pub fn delta_lat_deg(&self) -> (r: CoordinateType)
        ensures
            r == self@.2 - self@.0,
    {
        self.height()
    }

    /// The longitude delta across the box in fixed-point units; the same as
    /// `width`.
    pub fn delta_lon_deg(&self) -> (r: CoordinateType)
        ensures
            r == self@.3 - self@.1,
    {
        self.width()
    }

    /// The area in square fixed-point units; the same as `area`.
    pub fn area_deg2(&self) -> (r: CoordinateType)
        ensures
            r == (self@.3 - self@.1) * (self@.2 - self@.0),
    {
        self.area()
    }

    /// The area in square fixed-point units, width times height.
    pub fn area(&self) -> (r: CoordinateType)
        ensures
            r == (self@.3 - self@.1) * (self@.2 - self@.0),
    {
        let w = self.width();
        let h = self.height();
        let _ = self.corners();
        proof {
            assert(-0x7fff_ffff_ffff_ffff <= (w as int) * (h as int) <= 0x7fff_ffff_ffff_ffff)
                by (nonlinear_arith)
                requires
                    -0xffff_ffff <= w <= 0xffff_ffff,
                    -0x7fff_ffff <= h <= 0x7fff_ffff,
            ;
        }
        w * h
    }

    /// The south-west corner moved by half the height and half the width;
    /// for a box with ordered corners, the point midway between them
    /// (rounded down).
    pub fn center(&self) -> (r: Coordinates)
        ensures
            r@ == center_of(self@),
            is_ordered(self@) ==> r@ == (
                self@.0 + (self@.2 - self@.0) / 2,
                self@.1 + (self@.3 - self@.1) / 2,
            ),
    {
        let half_height = self.height().checked_div_euclid(2).unwrap();
        let half_width = self.width().checked_div_euclid(2).unwrap();
        let r = self.south_west + Coordinates::from_wrapped(half_height, half_width);
        let _ = self.corners();
        proof {
            let b = self@;
            if is_ordered(b) {
                let span = LONGITUDE_MAX - LONGITUDE_MIN;
                let hw = (b.3 - b.1) / 2;
                lemma_fundamental_div_mod(b.2 - b.0, 2);
                lemma_fundamental_div_mod(b.3 - b.1, 2);
                if hw < LONGITUDE_MAX {
                    lemma_wrap_longitude_fixed(hw);
                    lemma_wrap_longitude_fixed(b.1 + hw);
                } else {
                    lemma_wrap_longitude_turns(hw - span, 1);
                    lemma_wrap_longitude_fixed(hw - span);
                    lemma_wrap_longitude_turns(0, -1);
                    lemma_wrap_longitude_fixed(0);
                }
            }
        }
        r
    }

    /// Whether `v` lies in `[lo, hi]`.
    fn between_inclusive(v: CoordinateType, lo: CoordinateType, hi: CoordinateType) -> (r: bool)
        ensures
            r == between(v as int, lo as int, hi as int),
    {
        v >= lo && v <= hi
    }

    /// Whether `[a_min, a_max]` and `[b_min, b_max]` meet.
    fn overlaps_1d(
        a_min: CoordinateType,
        a_max: CoordinateType,
        b_min: CoordinateType,
        b_max: CoordinateType,
    ) -> (r: bool)
        ensures
            r == overlaps(a_min as int, a_max as int, b_min as int, b_max as int),
    {
        a_min <= b_max && b_min <= a_max
    }

    /// Whether the point `p` lies in this box, edges included.
    pub fn contains(&self, p: &Coordinates) -> (r: bool)
        ensures
            r == contains_point(self@, p@),
    {
        let (lat, lon) = p.tuple();
        let (s, w) = self.south_west.tuple();
        let (n, e) = self.north_east.tuple();
        Self::between_inclusive(lat, s, n) && Self::between_inclusive(lon, w, e)
    }

    /// Whether both corners of `other` lie in this box, edges included.
    pub fn contains_bbox(&self, other: &Self) -> (r: bool)
        ensures
            r == contains_box(self@, other@),
    {
        self.contains(&other.south_west) && self.contains(&other.north_east)
    }

    /// Grows the box by `delta_coord` in all directions evenly: half of it,
    /// rounded down, comes off the south-west corner and goes onto the
    /// north-east corner, with the usual saturation and wrapping.
    pub fn expand(&mut self, delta_coord: Coordinates)
        ensures
            final(self)@ == (
                clamp_latitude(old(self)@.0 - delta_coord@.0 / 2),
                wrap_longitude(old(self)@.1 - delta_coord@.1 / 2),
                clamp_latitude(old(self)@.2 + delta_coord@.0 / 2),
                wrap_longitude(old(self)@.3 + delta_coord@.1 / 2),
            ),
    {
        let half = delta_coord / 2;
        let _ = delta_coord.tuple();
        proof {
            let dlon = delta_coord@.1;
            lemma_fundamental_div_mod(dlon, 2);
            assert(LONGITUDE_MIN <= dlon / 2 < LONGITUDE_MAX);
            lemma_wrap_longitude_fixed(dlon / 2);
        }
        self.south_west = self.south_west - half;
        self.north_east = self.north_east + half;
    }

    /// Whether this box and `other` meet on both axes, touching edges
    /// included.
    pub fn intersects(&self, other: &Self) -> (r: bool)
        ensures
            r == intersects_box(self@, other@),
    {
        let (a_s, a_w) = self.south_west.tuple();
        let (a_n, a_e) = self.north_east.tuple();
        let (b_s, b_w) = other.south_west.tuple();
        let (b_n, b_e) = other.north_east.tuple();
        Self::overlaps_1d(a_s, a_n, b_s, b_n) && Self::overlaps_1d(a_w, a_e, b_w, b_e)
    }

    /// The overlap of this box and `other`, or `None` where they do not
    /// meet. The overlap is built by `from_wrapped` from the larger
    /// south-west and the smaller north-east values, and may have zero
    /// height or width.
    pub fn intersection(&self, other: &Self) -> (r: Option<Self>)
        ensures
            r is None <==> !intersects_box(self@, other@),
            r is Some ==> r->Some_0@ == intersection_box(self@, other@),
    {
        if !self.intersects(other) {
            return None;
        }
        let (a_s, a_w) = self.south_west.tuple();
        let (a_n, a_e) = self.north_east.tuple();
        let (b_s, b_w) = other.south_west.tuple();
        let (b_n, b_e) = other.north_east.tuple();
        let sw_lat = if a_s >= b_s { a_s } else { b_s };
        let sw_lon = if a_w >= b_w { a_w } else { b_w };
        let ne_lat = if a_n <= b_n { a_n } else { b_n };
        let ne_lon = if a_e <= b_e { a_e } else { b_e };
        Some(BBox::from_wrapped(sw_lat, sw_lon, ne_lat, ne_lon))
    }

    /// The corners as raw values `(south, west, north, east)`.
    pub fn corners(&self) -> (r: (CoordinateType, CoordinateType, CoordinateType, CoordinateType))
        ensures
            (r.0 as int, r.1 as int, r.2 as int, r.3 as int) == self@,
            is_in_range(self@),
    {
        let (s, w) = self.south_west.tuple();
        let (n, e) = self.north_east.tuple();
        (s, w, n, e)
    }

    /// A box from raw corner values `(south, west, north, east)`, checking
    /// each value's range and then the corner order. The first failure is
    /// reported: the south-west corner's, then the north-east corner's, then
    /// `InvalidCornerOrder`.
    pub fn from_corners(corners: (CoordinateType, CoordinateType, CoordinateType, CoordinateType)) -> (r: Result<Self, Error>)
        ensures
            r is Ok <==> is_in_range((corners.0 as int, corners.1 as int, corners.2 as int, corners.3 as int))
                && is_ordered((corners.0 as int, corners.1 as int, corners.2 as int, corners.3 as int)),
            r is Ok ==> r->Ok_0@ == (corners.0 as int, corners.1 as int, corners.2 as int, corners.3 as int),
            r is Err ==> if !(is_latitude(corners.0 as int) && is_longitude(corners.1 as int)) {
                r->Err_0 == point_error(corners.0, corners.1)
            } else if !(is_latitude(corners.2 as int) && is_longitude(corners.3 as int)) {
                r->Err_0 == point_error(corners.2, corners.3)
            } else {
                is_corner_order_error(
                    r->Err_0,
                    (corners.0 as int, corners.1 as int),
                    (corners.2 as int, corners.3 as int),
                )
            },
            r == decode_corners(corners),
    {
        let south_west = match Coordinates::from_value(corners.0, corners.1) {
            Ok(p) => p,
            Err(e) => {
                return Err(e);
            },
        };
        let north_east = match Coordinates::from_value(corners.2, corners.3) {
            Ok(p) => p,
            Err(e) => {
                return Err(e);
            },
        };
        let r = Self::new(south_west, north_east);
        proof {
            let (s, w, n, e) = (corners.0 as int, corners.1 as int, corners.2 as int, corners.3 as int);
            Coordinates::lemma_spec_of(s, w);
            Coordinates::lemma_spec_of(n, e);
            Coordinates::lemma_view_injective(south_west, Coordinates::spec_of(s, w));
            Coordinates::lemma_view_injective(north_east, Coordinates::spec_of(n, e));
        }
        r
    }
}

impl From<BBox> for (CoordinateType, CoordinateType, CoordinateType, CoordinateType) {
    fn from(value: BBox) -> (r: (CoordinateType, CoordinateType, CoordinateType, CoordinateType))
        ensures
            (r.0 as int, r.1 as int, r.2 as int, r.3 as int) == value@,
    {
        value.corners()
    }
}

impl vstd::std_specs::convert::FromSpecImpl<BBox> for (CoordinateType, CoordinateType, CoordinateType, CoordinateType) {
    open spec fn obeys_from_spec() -> bool {
        true
    }

    open spec fn from_spec(value: BBox) -> (
        CoordinateType,
        CoordinateType,
        CoordinateType,
        CoordinateType,
    ) {
        (
            value@.0 as CoordinateType,
            value@.1 as CoordinateType,
            value@.2 as CoordinateType,
            value@.3 as CoordinateType,
        )
    }
}

/// What decoding raw corners `(south, west, north, east)` gives: the first
/// range error, of the south-west corner and then of the north-east corner,
/// else the box if its corners are ordered, else `InvalidCornerOrder`.
pub open spec fn decode_corners(t: (CoordinateType, CoordinateType, CoordinateType, CoordinateType)) -> Result<BBox, Error> {
    let south_west = Coordinates::spec_of(t.0 as int, t.1 as int);
    let north_east = Coordinates::spec_of(t.2 as int, t.3 as int);
    if !(is_latitude(t.0 as int) && is_longitude(t.1 as int)) {
        Err(point_error(t.0, t.1))
    } else if !(is_latitude(t.2 as int) && is_longitude(t.3 as int)) {
        Err(point_error(t.2, t.3))
    } else if t.0 < t.2 && t.1 < t.3 {
        Ok(BBox::spec_from_corners(south_west, north_east))
    } else {
        Err(Error::InvalidCornerOrder { south_west, north_east })
    }
}

impl TryFrom<(CoordinateType, CoordinateType, CoordinateType, CoordinateType)> for BBox {
    type Error = Error;

    /// Decodes raw corners `(south, west, north, east)`, as `from_corners`.
    fn try_from(corners: (CoordinateType, CoordinateType, CoordinateType, CoordinateType)) -> (r: Result<Self, Error>)
        ensures
            r == decode_corners(corners),
    {
        Self::from_corners(corners)
    }
}

impl vstd::std_specs::convert::TryFromSpecImpl<(CoordinateType, CoordinateType, CoordinateType, CoordinateType)> for BBox {
    open spec fn obeys_try_from_spec() -> bool {
        true
    }

    open spec fn try_from_spec(corners: (CoordinateType, CoordinateType, CoordinateType, CoordinateType)) -> Result<Self, Error> {
        decode_corners(corners)
    }
}

impl PartialOrd for BBox {
    fn partial_cmp(&self, other: &Self) -> (r: Option<Ordering>) {
        let a_in_b = other.contains_bbox(self);
        let b_in_a = self.contains_bbox(other);
        match (a_in_b, b_in_a) {
            (true, true) => Some(Ordering::Equal),
            (true, false) => Some(Ordering::Less),
            (false, true) => Some(Ordering::Greater),
            (false, false) => None,
        }
    }
}

impl vstd::std_specs::cmp::PartialOrdSpecImpl for BBox {
    open spec fn obeys_partial_cmp_spec() -> bool {
        true
    }

    open spec fn partial_cmp_spec(&self, other: &Self) -> Option<Ordering> {
        containment(contains_box(other@, self@), contains_box(self@, other@))
    }
}

/// Encoding a well-formed box as its raw corners `(south, west, north,
/// east)`, as `corners` and `From` do, and decoding them again, as
/// `TryFrom` and `from_corners` do, gives back the same box.
pub proof fn lemma_corners_round_trip(b: BBox)
    requires
        is_in_range(b@),
        is_ordered(b@),
    ensures
        decode_corners(
            (
                b@.0 as CoordinateType,
                b@.1 as CoordinateType,
                b@.2 as CoordinateType,
                b@.3 as CoordinateType,
            ),
        ) == Ok::<BBox, Error>(b),
{
    let south_west = Coordinates::spec_of(b@.0, b@.1);
    let north_east = Coordinates::spec_of(b@.2, b@.3);
    Coordinates::lemma_spec_of(b@.0, b@.1);
    Coordinates::lemma_spec_of(b@.2, b@.3);
    BBox::lemma_view_injective(b, BBox::spec_from_corners(south_west, north_east));
}

/// Every box whose corners are ordered (edges may coincide) contains
/// itself.
pub proof fn lemma_contains_bbox_reflexive(b: BBox)
    requires
        b@.0 <= b@.2,
        b@.1 <= b@.3,
    ensures
        contains_box(b@, b@),
{
}

/// A box whose south or west bound lies below that of `outer` is not
/// contained in `outer`.
pub proof fn lemma_contains_bbox_below_minimum(outer: BBox, inner: BBox)
    requires
        inner@.0 < outer@.0 || inner@.1 < outer@.1,
    ensures
        !contains_box(outer@, inner@),
{
}

/// Two boxes with a gap between them on either axis do not intersect, so
/// `intersection` returns `None` for them.
pub proof fn lemma_gap_no_intersection(a: BBox, b: BBox)
    requires
        a@.2 < b@.0 || b@.2 < a@.0 || a@.3 < b@.1 || b@.3 < a@.1,
    ensures
        !intersects_box(a@, b@),
        !intersects_box(b@, a@),
{
}

} // verus!
