use osm_coords::error::Error;
use osm_coords::latitude::{Latitude, LATITUDE_MAX, LATITUDE_MIN};
use osm_coords::CoordinateType;

/// Degrees as fixed-point units.
fn deg(degrees: f64) -> CoordinateType {
    (degrees * 1e7).round() as CoordinateType
}

#[test]
fn latitude_in_range() {
    assert!(Latitude::new(deg(0.0)).is_ok())
}

#[test]
fn latitude_in_range_lower_edge() {
    assert!(Latitude::new(deg(-90.0)).is_ok())
}

#[test]
fn latitude_in_range_upper_edge() {
    assert!(Latitude::new(deg(90.0)).is_ok())
}

#[test]
fn latitude_out_range_lower_edge() {
    assert!(Latitude::new(deg(-90.1)).is_err())
}

#[test]
fn latitude_out_range_upper_edge() {
    assert!(Latitude::new(deg(90.1)).is_err())
}

#[test]
fn latitude_out_range_lower() {
    assert!(Latitude::new(deg(-160.0)).is_err())
}

#[test]
fn latitude_out_range_upper() {
    assert!(Latitude::new(deg(160.0)).is_err())
}

#[test]
fn latitude_value() {
    let latitude = Latitude::new(deg(2.0)).unwrap();

    assert_eq!(deg(2.0), latitude.value());
}

#[test]
fn latitude_partial_ord() {
    let latitude1 = Latitude::new(deg(1.0)).unwrap();
    let latitude2 = Latitude::new(deg(2.0)).unwrap();

    assert!(latitude1 < latitude2);
    assert!(!(latitude1 > latitude2));
}

#[test]
fn latitude_neg() {
    assert_eq!(-Latitude::new(deg(45.0)).unwrap(), Latitude::new(deg(-45.0)).unwrap());
}

#[test]
fn latitude_out_of_range_error_carries_value_and_range() {
    assert_eq!(
        Latitude::new(deg(90.1)),
        Err(Error::OutOfRange { value: deg(90.1), min: LATITUDE_MIN, max: LATITUDE_MAX })
    );
}

#[test]
fn latitude_units_are_ten_millionths_of_a_degree() {
    assert_eq!(LATITUDE_MAX, 900_000_000);
    assert_eq!(LATITUDE_MIN, -900_000_000);
    assert_eq!(osm_coords::UNITS_PER_DEGREE, 10_000_000);
}

#[test]
fn latitude_clamped_saturates() {
    assert_eq!(Latitude::from_clamped(deg(100.0)).value(), deg(90.0));
    assert_eq!(Latitude::from_clamped(deg(-100.0)).value(), deg(-90.0));
    assert_eq!(Latitude::from_clamped(CoordinateType::MAX).value(), LATITUDE_MAX);
    assert_eq!(Latitude::from_clamped(CoordinateType::MIN).value(), LATITUDE_MIN);
}

#[test]
fn latitude_clamped_keeps_values_in_range() {
    assert_eq!(Latitude::from_clamped(deg(12.5)).value(), deg(12.5));
    assert_eq!(Latitude::from_clamped(deg(-90.0)).value(), deg(-90.0));
    assert_eq!(Latitude::from_clamped(deg(90.0)).value(), deg(90.0));
}

#[test]
fn latitude_is_valid() {
    assert!(Latitude::is_valid(deg(90.0)));
    assert!(!Latitude::is_valid(deg(90.0) + 1));
}

#[test]
fn latitude_arithmetic_saturates() {
    let latitude = Latitude::new(deg(80.0)).unwrap();

    assert_eq!((latitude + deg(20.0)).value(), deg(90.0));
    assert_eq!((latitude - deg(200.0)).value(), deg(-90.0));
    assert_eq!((latitude - deg(30.0)).value(), deg(50.0));
    assert_eq!((latitude * 2).value(), deg(90.0));
    assert_eq!((latitude * -1).value(), deg(-80.0));
    assert_eq!((latitude / 4).value(), deg(20.0));
    assert_eq!((latitude + CoordinateType::MAX).value(), deg(90.0));
    assert_eq!((latitude * CoordinateType::MIN).value(), deg(-90.0));
}

#[test]
fn latitude_division_rounds_down() {
    let latitude = Latitude::new(-3).unwrap();

    assert_eq!((latitude / 2).value(), -2);
    assert_eq!((Latitude::new(3).unwrap() / 2).value(), 1);
}

#[test]
fn latitude_into_raw_value() {
    let raw: CoordinateType = Latitude::new(deg(-12.25)).unwrap().into();

    assert_eq!(raw, deg(-12.25));
}
