use osm_coords::bbox::BBox;
use osm_coords::coordinates::Coordinates;
use osm_coords::error::Error;
use osm_coords::latitude::{LATITUDE_MAX, LATITUDE_MIN};
use osm_coords::longitude::{LONGITUDE_MAX, LONGITUDE_MIN};
use osm_coords::CoordinateType;
use std::cmp::Ordering;

/// Degrees as fixed-point units.
fn deg(degrees: f64) -> CoordinateType {
    (degrees * 1e7).round() as CoordinateType
}

/// A box from four values in degrees, through `from_wrapped`.
fn wrapped(s: f64, w: f64, n: f64, e: f64) -> BBox {
    BBox::from_wrapped(deg(s), deg(w), deg(n), deg(e))
}

/// A point from two values in degrees, through `from_wrapped`.
fn point(lat: f64, lon: f64) -> Coordinates {
    Coordinates::from_wrapped(deg(lat), deg(lon))
}

/// A point from two values in degrees, through `from_value`.
fn value(lat: f64, lon: f64) -> Coordinates {
    Coordinates::from_value(deg(lat), deg(lon)).unwrap()
}

fn get_bbox() -> BBox {
    BBox::new(value(1.0, 1.5), value(2.0, 2.5)).unwrap()
}

#[test]
fn bbox_south_west() {
    let bbox = get_bbox();
    let south_west = bbox.south_west();

    assert_eq!(deg(1.0), south_west.latitude().value());
    assert_eq!(deg(1.5), south_west.longitude().value());
}

#[test]
fn bbox_north_east() {
    let bbox = get_bbox();
    let north_east = bbox.north_east();

    assert_eq!(deg(2.0), north_east.latitude().value());
    assert_eq!(deg(2.5), north_east.longitude().value());
}

#[test]
fn bbox_tuple() {
    let bbox = get_bbox();
    let tuple: (CoordinateType, CoordinateType, CoordinateType, CoordinateType) = bbox.into();

    assert_eq!(deg(1.0), tuple.0);
    assert_eq!(deg(1.5), tuple.1);
    assert_eq!(deg(2.0), tuple.2);
    assert_eq!(deg(2.5), tuple.3);
}

#[test]
fn bbox_width_height() {
    let bbox = BBox::new(point(1.0, 0.0), point(2.0, 2.0)).unwrap();

    assert_eq!(bbox.width(), deg(2.0));
    assert_eq!(bbox.height(), deg(1.0))
}

#[test]
fn bbox_area() {
    let bbox = BBox::new(point(0.0, 0.0), point(2.0, 2.0)).unwrap();

    assert_eq!(bbox.area(), bbox.width() * bbox.height());
}

#[test]
fn bbox_center() {
    let bbox = BBox::new(point(0.0, 0.0), point(2.0, 2.0)).unwrap();

    assert_eq!(bbox.center(), point(1.0, 1.0));
}

#[test]
fn expand() {
    let mut bbox = BBox::new(point(0.0, 0.0), point(1.0, 1.0)).unwrap();

    bbox.expand(point(1.0, 1.0));

    assert_eq!(bbox, BBox::new(point(-0.5, -0.5), point(1.5, 1.5)).unwrap())
}

#[test]
fn bbox_contains() {
    let bbox = BBox::new(point(0.0, 0.0), point(50.0, 50.0)).unwrap();

    assert!(bbox.contains(&point(25.0, 25.0)));
}

#[test]
fn bbox_contains_edge() {
    let bbox = BBox::new(point(0.0, 0.0), point(50.0, 50.0)).unwrap();

    assert!(bbox.contains(&point(50.0, 0.0)));
}

#[test]
fn bbox_contains_fail() {
    let bbox = BBox::new(point(0.0, 0.0), point(50.0, 50.0)).unwrap();

    assert!(!bbox.contains(&point(-1.0, 0.0)));
}

#[test]
fn bbox_contains_bbox() {
    let bbox = wrapped(0.0, 0.0, 50.0, 50.0);

    assert!(bbox.contains_bbox(&wrapped(10.0, 20.0, 49.0, 40.0)));
}

#[test]
fn bbox_contains_bbox_edge() {
    let bbox = wrapped(0.0, 0.0, 50.0, 50.0);

    assert!(bbox.contains_bbox(&wrapped(0.0, 0.0, 50.0, 50.0)));
}

#[test]
fn bbox_contains_bbox_fail() {
    let bbox = wrapped(0.0, 0.0, 50.0, 50.0);

    assert!(!bbox.contains_bbox(&wrapped(-1.0, -1.0, 50.0, 50.0)));
}

#[test]
fn bbox_intersects() {
    let bbox = wrapped(0.0, 0.0, 50.0, 50.0);
    let other = wrapped(49.0, 49.0, 80.0, 80.0);

    assert!(bbox.intersects(&other));
    assert!(other.intersects(&bbox));
}

#[test]
fn bbox_intersects_no_intersect() {
    let bbox = wrapped(0.0, 0.0, 50.0, 50.0);
    let other = wrapped(50.1, 50.1, 80.0, 80.0);

    assert!(!bbox.intersects(&other));
    assert!(!other.intersects(&bbox));
}

#[test]
fn bbox_intersects_eq_intersect() {
    let bbox = wrapped(0.0, 0.0, 50.0, 50.0);
    let other = wrapped(0.0, 0.0, 50.0, 50.0);

    assert_eq!(bbox, other);
    assert!(bbox.intersects(&other));
    assert!(other.intersects(&bbox));
}

#[test]
fn bbox_intersection() {
    let bbox = wrapped(0.0, 0.0, 50.0, 50.0);
    let other = wrapped(45.0, 45.0, 80.0, 80.0);

    assert_eq!(bbox.intersection(&other).unwrap(), wrapped(45.0, 45.0, 50.0, 50.0));
    assert_eq!(other.intersection(&bbox).unwrap(), wrapped(45.0, 45.0, 50.0, 50.0));
}

#[test]
fn bbox_intersection_no_intersection() {
    let bbox = wrapped(0.0, 0.0, 50.0, 50.0);
    let other = wrapped(50.1, 45.0, 80.0, 80.0);

    assert!(bbox.intersection(&other).is_none());
}

#[test]
fn bbox_intersection_eq_intersection() {
    let bbox = wrapped(0.0, 0.0, 50.0, 50.0);
    let other = wrapped(0.0, 0.0, 50.0, 50.0);

    let intersection = bbox.intersection(&other).unwrap();
    assert_eq!(intersection, bbox);
    assert_eq!(intersection, other);
}

#[test]
fn bbox_partial_eq_eq() {
    let bbox1 = BBox::new(value(0.0, 0.0), value(1.0, 1.0)).unwrap();
    let bbox2 = BBox::new(value(0.0, 0.0), value(1.0, 1.0)).unwrap();

    assert_eq!(bbox1, bbox2);
}

#[test]
fn bbox_partial_eq_ne() {
    let bbox1 = BBox::new(value(0.0, 0.0), value(1.0, 1.0)).unwrap();
    let bbox2 = BBox::new(value(0.0, 1.0), value(2.0, 2.0)).unwrap();

    assert_ne!(bbox1, bbox2);
}

#[test]
fn bbox_partial_ord_greater() {
    let bbox1 = BBox::new(value(0.0, 0.0), value(2.0, 2.0)).unwrap();
    let bbox2 = BBox::new(value(0.0, 0.0), value(1.0, 1.0)).unwrap();

    assert!(bbox1 > bbox2);
}

#[test]
fn bbox_partial_ord_less() {
    let bbox1 = BBox::new(value(0.0, 0.0), value(1.0, 1.0)).unwrap();
    let bbox2 = BBox::new(value(0.0, 0.0), value(2.0, 2.0)).unwrap();

    assert!(bbox1 < bbox2);
}

#[test]
fn bbox_containment_order_cases() {
    let outer = wrapped(0.0, 0.0, 50.0, 50.0);
    let inner = wrapped(10.0, 10.0, 20.0, 20.0);
    let apart = wrapped(60.0, 60.0, 70.0, 70.0);

    assert_eq!(outer.partial_cmp(&outer), Some(Ordering::Equal));
    assert_eq!(inner.partial_cmp(&outer), Some(Ordering::Less));
    assert_eq!(outer.partial_cmp(&inner), Some(Ordering::Greater));
    assert_eq!(outer.partial_cmp(&apart), None);
}

#[test]
fn bbox_new_rejects_equal_or_inverted_corners() {
    let sw = value(10.0, 10.0);

    for ne in [value(10.0, 20.0), value(20.0, 10.0), value(10.0, 10.0), value(5.0, 20.0), value(20.0, 5.0)] {
        assert_eq!(
            BBox::new(sw, ne),
            Err(Error::InvalidCornerOrder { south_west: sw, north_east: ne })
        );
    }
    assert!(BBox::new(sw, value(10.0000001, 10.0000001)).is_ok());
}

#[test]
fn bbox_equal_bounds_touch_but_are_not_valid() {
    let bbox = wrapped(0.0, 0.0, 50.0, 50.0);
    let touching = BBox::from_unchecked(value(50.0, 0.0), value(50.0, 50.0));

    assert!(BBox::new(value(50.0, 0.0), value(50.0, 50.0)).is_err());
    assert!(bbox.intersects(&touching));
    assert!(bbox.contains_bbox(&touching));
}

#[test]
fn bbox_contains_bbox_shrunk_below_minimum() {
    let bbox = wrapped(0.0, 0.0, 50.0, 50.0);

    assert!(!bbox.contains_bbox(&wrapped(10.0, -0.1, 49.0, 40.0)));
    assert!(!bbox.contains_bbox(&wrapped(-0.1, 20.0, 49.0, 40.0)));
}

#[test]
fn bbox_no_intersection_with_gap_on_longitude() {
    let bbox = wrapped(0.0, 0.0, 50.0, 50.0);
    let other = wrapped(45.0, 50.1, 80.0, 80.0);

    assert!(!bbox.intersects(&other));
    assert!(bbox.intersection(&other).is_none());
}

#[test]
fn bbox_intersection_at_antimeridian_wraps() {
    let bbox = BBox::from_unchecked(value(0.0, 170.0), value(10.0, 180.0));

    assert_eq!(bbox.intersection(&bbox).unwrap().corners(), (deg(0.0), deg(170.0), deg(10.0), deg(-180.0)));
}

#[test]
fn bbox_intersection_may_be_degenerate() {
    let bbox = wrapped(0.0, 0.0, 50.0, 50.0);
    let other = wrapped(50.0, 10.0, 80.0, 20.0);

    assert_eq!(bbox.intersection(&other).unwrap().corners(), (deg(50.0), deg(10.0), deg(50.0), deg(20.0)));
}

#[test]
fn bbox_area_value() {
    let bbox = wrapped(0.0, 0.0, 2.0, 3.0);

    assert_eq!(bbox.area(), 6 * 10_000_000 * 10_000_000);
    assert_eq!(BBox::from_wrapped(LATITUDE_MIN, LONGITUDE_MIN, LATITUDE_MAX, LONGITUDE_MIN + deg(359.0)).area(), deg(180.0) * deg(359.0));
}

#[test]
fn bbox_center_uses_height_for_latitude() {
    let bbox = wrapped(10.0, 20.0, 14.0, 40.0);

    assert_eq!(bbox.center(), value(12.0, 30.0));
}

#[test]
fn bbox_center_of_whole_globe() {
    let bbox = BBox::from_unchecked(
        Coordinates::from_value(LATITUDE_MIN, LONGITUDE_MIN).unwrap(),
        Coordinates::from_value(LATITUDE_MAX, LONGITUDE_MAX).unwrap(),
    );

    assert_eq!(bbox.center(), value(0.0, 0.0));
}

#[test]
fn bbox_expand_saturates_and_wraps() {
    let mut bbox = wrapped(80.0, 170.0, 85.0, 175.0);

    bbox.expand(value(20.0, 20.0));

    assert_eq!(bbox.corners(), (deg(70.0), deg(160.0), deg(90.0), deg(-175.0)));
}

#[test]
fn bbox_from_wrapped_normalizes() {
    assert_eq!(wrapped(-95.0, 190.0, 95.0, -190.0).corners(), (deg(-90.0), deg(-170.0), deg(90.0), deg(170.0)));
}

#[test]
fn bbox_corners_round_trip() {
    let bbox = BBox::new(value(-10.25, 100.5), value(33.0, 179.0)).unwrap();

    assert_eq!(BBox::from_corners(bbox.corners()), Ok(bbox));
}

#[test]
fn bbox_from_corners_errors() {
    assert_eq!(
        BBox::from_corners((deg(-91.0), deg(0.0), deg(10.0), deg(10.0))),
        Err(Error::OutOfRange { value: deg(-91.0), min: LATITUDE_MIN, max: LATITUDE_MAX })
    );
    assert_eq!(
        BBox::from_corners((deg(0.0), deg(0.0), deg(10.0), deg(181.0))),
        Err(Error::OutOfRange { value: deg(181.0), min: LONGITUDE_MIN, max: LONGITUDE_MAX })
    );
    assert_eq!(
        BBox::from_corners((deg(10.0), deg(0.0), deg(10.0), deg(10.0))),
        Err(Error::InvalidCornerOrder { south_west: value(10.0, 0.0), north_east: value(10.0, 10.0) })
    );
}

#[test]
fn bbox_deltas_match_height_and_width() {
    let bbox = wrapped(-10.0, 20.0, 30.5, 21.25);

    assert_eq!(bbox.delta_lat_deg(), deg(40.5));
    assert_eq!(bbox.delta_lon_deg(), deg(1.25));
    assert_eq!(bbox.area_deg2(), deg(40.5) * deg(1.25));
    assert_eq!(bbox.area_deg2(), bbox.area());
}

#[test]
fn bbox_try_from_tuple_round_trip() {
    let bbox = BBox::new(value(-45.0, -170.5), value(45.0, 170.5)).unwrap();
    let tuple: (CoordinateType, CoordinateType, CoordinateType, CoordinateType) = bbox.into();

    assert_eq!(BBox::try_from(tuple), Ok(bbox));
    assert_eq!(
        BBox::try_from((deg(1.0), deg(1.0), deg(1.0), deg(2.0))),
        Err(Error::InvalidCornerOrder { south_west: value(1.0, 1.0), north_east: value(1.0, 2.0) })
    );
    assert!(BBox::try_from((deg(0.0), deg(0.0), deg(95.0), deg(2.0))).is_err());
}
