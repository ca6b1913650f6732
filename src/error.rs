use vstd::prelude::*;

use crate::coordinates::Coordinates;
use crate::CoordinateType;

verus! {

/// Why a coordinate value could not be constructed.
#[derive(Debug, Clone, Copy, PartialEq, Eq, Structural)]
pub enum Error {
    /// A scalar lay outside its legal inclusive range `[min, max]`.
    OutOfRange { value: CoordinateType, min: CoordinateType, max: CoordinateType },
    /// A bounding box's south-west corner was not strictly south and strictly
    /// west of its north-east corner.
    InvalidCornerOrder { south_west: Coordinates, north_east: Coordinates },
}

} // verus!
