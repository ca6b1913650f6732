use osm_coords::bbox::BBox;
use osm_coords::coordinates::Coordinates;
use osm_coords::latitude::Latitude;
use osm_coords::longitude::Longitude;
use osm_coords::CoordinateType;

/// Degrees as fixed-point units.
fn deg(degrees: f64) -> CoordinateType {
    (degrees * 1e7).round() as CoordinateType
}

#[test]
fn latitude_text_names_the_hemisphere() {
    assert_eq!(Latitude::new(deg(45.0)).unwrap().to_string(), "45 \u{b0}N");
    assert_eq!(Latitude::new(deg(-12.5)).unwrap().to_string(), "12.5 \u{b0}S");
    assert_eq!(Latitude::new(0).unwrap().to_string(), "0 \u{b0}N");
    assert_eq!(Latitude::new(deg(-90.0)).unwrap().to_string(), "90 \u{b0}S");
}

#[test]
fn latitude_text_keeps_every_significant_digit() {
    assert_eq!(Latitude::new(1).unwrap().to_string(), "0.0000001 \u{b0}N");
    assert_eq!(Latitude::new(deg(12.3456789)).unwrap().to_string(), "12.3456789 \u{b0}N");
    assert_eq!(Latitude::new(deg(-0.05)).unwrap().to_string(), "0.05 \u{b0}S");
    assert_eq!(Latitude::new(deg(10.1)).unwrap().to_string(), "10.1 \u{b0}N");
}

#[test]
fn longitude_text_names_the_side() {
    assert_eq!(Longitude::new(deg(179.75)).unwrap().to_string(), "179.75 \u{b0}E");
    assert_eq!(Longitude::new(deg(-180.0)).unwrap().to_string(), "180 \u{b0}W");
    assert_eq!(Longitude::new(deg(-7.0000003)).unwrap().to_string(), "7.0000003 \u{b0}W");
}

#[test]
fn coordinates_text() {
    let p = Coordinates::from_value(deg(52.5), deg(-13.25)).unwrap();

    assert_eq!(p.to_string(), "52.5 \u{b0}N 13.25 \u{b0}W");
}

#[test]
fn bbox_text() {
    let bbox = BBox::from_wrapped(deg(-1.0), deg(2.0), deg(3.5), deg(4.0));

    assert_eq!(
        bbox.to_string(),
        "(( South: 1 \u{b0}S, West: 2 \u{b0}E ), ( North: 3.5 \u{b0}N, East: 4 \u{b0}E ))"
    );
}

#[test]
fn write_text_appends() {
    let mut s = String::from("at ");
    Latitude::new(deg(1.5)).unwrap().write_text(&mut s);

    assert_eq!(s, "at 1.5 \u{b0}N");
}
