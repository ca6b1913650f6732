//! A value model for OpenStreetMap-style geodetic coordinates: latitudes,
//! longitudes, points and bounding boxes, with the REST verb surface that a
//! client of an OSM-style API implements.
//!
//! Angles are fixed-point integers in units of one ten-millionth of a degree,
//! the precision in which OpenStreetMap stores node positions.
use vstd::prelude::*;

pub mod bbox;
pub mod coordinates;
pub mod error;
pub mod latitude;
pub mod longitude;
pub mod normalize;
pub mod order;
pub mod rest_methods;
pub mod text;

verus! {

/// An angle in fixed-point units of one ten-millionth of a degree.
pub type CoordinateType = i64;

/// The number of fixed-point units in one degree.
pub const UNITS_PER_DEGREE: i64 = 10_000_000;

} // verus!
