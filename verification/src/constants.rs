//! The bounds of a chunk, the bounds of a name, and the names under which a
//! world is kept.

use vstd::prelude::*;
use crate::types::Coords3D;

verus! {

pub const WORLD_FILENAME: &'static str = "world";

pub const WORLD_DIR_NAME: &'static str = "world/";

pub const SAVE_EXTENSION: &'static str = ".json";

/// The least number of bytes in a name, once the blanks around it are cut.
pub const MIN_NAME_LENGTH: usize = 1;

/// The largest number of bytes in a name, once the blanks around it are
/// cut.
pub const MAX_NAME_LENGTH: usize = 32;

pub const MAX_X: i32 = 31;

pub const MAX_Y: i32 = 15;

pub const MAX_Z: i32 = 1;

pub const MIN_X: i32 = -32;

pub const MIN_Y: i32 = -16;

pub const MIN_Z: i32 = 0;

/// The largest cell of a chunk along each axis.
pub open spec fn spec_max_coords() -> Coords3D {
    Coords3D(MAX_X, MAX_Y, MAX_Z)
}

/// The smallest cell of a chunk along each axis.
pub open spec fn spec_min_coords() -> Coords3D {
    Coords3D(MIN_X, MIN_Y, MIN_Z)
}

/// The largest cell of a chunk along each axis.
pub fn max_coords() -> (coords: Coords3D)
    ensures
        coords == spec_max_coords(),
{
    Coords3D(MAX_X, MAX_Y, MAX_Z)
}

/// The smallest cell of a chunk along each axis.
pub fn min_coords() -> (coords: Coords3D)
    ensures
        coords == spec_min_coords(),
{
    Coords3D(MIN_X, MIN_Y, MIN_Z)
}

/// Whether a cell lies in the closed box between the smallest and the
/// largest cell of a chunk.
pub open spec fn spec_in_bounds(coords: Coords3D) -> bool {
    &&& MIN_X <= coords.0 <= MAX_X
    &&& MIN_Y <= coords.1 <= MAX_Y
    &&& MIN_Z <= coords.2 <= MAX_Z
}

} // verus!
