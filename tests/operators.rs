use osm_coords::coordinates::Coordinates;
use osm_coords::latitude::{Latitude, LATITUDE_MAX, LATITUDE_MIN};
use osm_coords::longitude::{Longitude, LONGITUDE_MAX, LONGITUDE_MIN};
use osm_coords::normalize::Normalized;
use osm_coords::CoordinateType;

/// Degrees as fixed-point units.
fn deg(degrees: f64) -> CoordinateType {
    (degrees * 1e7).round() as CoordinateType
}

#[test]
fn latitude_assign_operators_saturate() {
    let mut latitude = Latitude::new(deg(60.0)).unwrap();

    latitude += deg(40.0);
    assert_eq!(latitude.value(), deg(90.0));
    latitude -= deg(100.0);
    assert_eq!(latitude.value(), deg(-10.0));
    latitude *= 10;
    assert_eq!(latitude.value(), deg(-90.0));
}

#[test]
fn longitude_assign_operators_wrap() {
    let mut longitude = Longitude::new(deg(150.0)).unwrap();

    longitude += deg(40.0);
    assert_eq!(longitude.value(), deg(-170.0));
    longitude -= deg(20.0);
    assert_eq!(longitude.value(), deg(170.0));
    longitude *= 3;
    assert_eq!(longitude.value(), deg(150.0));
}

#[test]
fn coordinates_assign_operators() {
    let mut p = Coordinates::from_value(deg(10.0), deg(170.0)).unwrap();
    let q = Coordinates::from_value(deg(85.0), deg(20.0)).unwrap();

    p += q;
    assert_eq!(p.tuple(), (deg(90.0), deg(-170.0)));
    p -= q;
    assert_eq!(p.tuple(), (deg(5.0), deg(170.0)));
    p *= 2;
    assert_eq!(p.tuple(), (deg(10.0), deg(-20.0)));
}

#[test]
fn normalized_ranges() {
    assert_eq!(<Longitude as Normalized>::min(), LONGITUDE_MIN);
    assert_eq!(<Longitude as Normalized>::max(), LONGITUDE_MAX);
    assert_eq!(<Latitude as Normalized>::min(), LATITUDE_MIN);
    assert_eq!(<Latitude as Normalized>::max(), LATITUDE_MAX);
}

#[test]
fn normalized_reduces_into_half_open_range() {
    assert_eq!(<Longitude as Normalized>::normalized(deg(190.0) as i128), deg(-170.0));
    assert_eq!(<Longitude as Normalized>::normalized(deg(-180.0) as i128), deg(-180.0));
    assert_eq!(<Longitude as Normalized>::normalized(deg(180.0) as i128), deg(-180.0));
    assert_eq!(<Latitude as Normalized>::normalized(deg(100.0) as i128), deg(-80.0));
    assert_eq!(<Latitude as Normalized>::normalized(deg(90.0) as i128), deg(-90.0));
}
