//! Discrete addressing of a galaxy: a coordinate is three signed integers, one
//! per axis, and a galaxy declares the box of coordinates that it covers.

use vstd::prelude::*;

verus! {

/// The shallowest level of subdivision that can be asked for: a sub-sector.
pub const MIN_DIVISION_LEVEL: u8 = 1;

/// The deepest level of subdivision that a galaxy is mapped to.
pub const MAX_DIVISION_LEVEL: u8 = 9;

/// A position in a galaxy, in parsecs from the galactic centre.
#[derive(Clone, Copy, Debug, PartialEq, Eq, Structural)]
pub struct SpaceCoordinates {
    pub x: i64,
    pub y: i64,
    pub z: i64,
}

impl SpaceCoordinates {
    /// The coordinate with the given components.
    pub fn new(x: i64, y: i64, z: i64) -> (c: SpaceCoordinates)
        ensures
            c == (SpaceCoordinates { x, y, z }),
    {
        SpaceCoordinates { x, y, z }
    }
}

/// The box of coordinates that a galaxy covers: every coordinate whose
/// components lie between those of `start` and of `end`, both included.
#[derive(Clone, Copy, Debug, PartialEq, Eq, Structural)]
pub struct GalaxyExtent {
    pub start: SpaceCoordinates,
    pub end: SpaceCoordinates,
}

impl GalaxyExtent {
    /// Whether `coord` lies in the box.
    pub open spec fn covers(self, coord: SpaceCoordinates) -> bool {
        &&& self.start.x <= coord.x <= self.end.x
        &&& self.start.y <= coord.y <= self.end.y
        &&& self.start.z <= coord.z <= self.end.z
    }

    /// Decides whether `coord` lies in the box.
    pub fn contains(&self, coord: SpaceCoordinates) -> (inside: bool)
        ensures
            inside == self.covers(coord),
    {
        self.start.x <= coord.x && coord.x <= self.end.x
            && self.start.y <= coord.y && coord.y <= self.end.y
            && self.start.z <= coord.z && coord.z <= self.end.z
    }
}

/// Whether `level` names a level of subdivision of a mapped galaxy.
pub open spec fn level_exists(level: u8) -> bool {
    MIN_DIVISION_LEVEL <= level <= MAX_DIVISION_LEVEL
}

/// Decides whether `level` names a level of subdivision of a mapped galaxy.
pub fn is_division_level(level: u8) -> (known: bool)
    ensures
        known == level_exists(level),
{
    MIN_DIVISION_LEVEL <= level && level <= MAX_DIVISION_LEVEL
}

} // verus!
