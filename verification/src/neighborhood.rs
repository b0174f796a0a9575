//! How many galaxies a galactic neighbourhood holds, and so which indices
//! name a galaxy of it.

use vstd::prelude::*;

verus! {

/// How many galaxies of each rank a neighbourhood holds.
#[derive(Clone, Copy, Debug, PartialEq, Eq, Structural)]
pub enum NeighborhoodDensity {
    /// An almost empty region: major and minor galaxies.
    Void(u8, u16),
    /// An ordinary region: major and minor galaxies.
    Group(u8, u16),
    /// A crowded region: dominant, major and minor galaxies.
    Cluster(u8, u8, u16),
}

impl NeighborhoodDensity {
    /// The number of galaxies of all ranks.
    pub open spec fn galaxy_count(self) -> nat {
        match self {
            NeighborhoodDensity::Void(major, minor) => (major + minor) as nat,
            NeighborhoodDensity::Group(major, minor) => (major + minor) as nat,
            NeighborhoodDensity::Cluster(dominant, major, minor) => (dominant + major + minor) as nat,
        }
    }

    /// The number of galaxies that rank as major: the major ones, and in a
    /// cluster the dominant ones too.
    pub open spec fn ranked_count(self) -> nat {
        match self {
            NeighborhoodDensity::Void(major, _) => major as nat,
            NeighborhoodDensity::Group(major, _) => major as nat,
            NeighborhoodDensity::Cluster(dominant, major, _) => (dominant + major) as nat,
        }
    }

    /// Whether the galaxies that rank as major can be counted in a byte.
    pub open spec fn ranks_fit(self) -> bool {
        self.ranked_count() <= u8::MAX
    }

    /// Whether `index` names a galaxy of the neighbourhood.
    pub open spec fn has_galaxy(self, index: u16) -> bool {
        index < self.galaxy_count()
    }

    /// Counts the galaxies of all ranks.
    pub fn count_galaxies(&self) -> (count: u32)
        ensures
            count == self.galaxy_count(),
    {
        match *self {
            NeighborhoodDensity::Void(major, minor) => major as u32 + minor as u32,
            NeighborhoodDensity::Group(major, minor) => major as u32 + minor as u32,
            NeighborhoodDensity::Cluster(dominant, major, minor) => {
                dominant as u32 + major as u32 + minor as u32
            },
        }
    }

    /// Counts the galaxies that rank as major.
    pub fn count_ranked(&self) -> (count: u16)
        ensures
            count == self.ranked_count(),
    {
        match *self {
            NeighborhoodDensity::Void(major, _) => major as u16,
            NeighborhoodDensity::Group(major, _) => major as u16,
            NeighborhoodDensity::Cluster(dominant, major, _) => dominant as u16 + major as u16,
        }
    }

    /// Decides whether the galaxies that rank as major can be counted in a
    /// byte.
    pub fn fits_ranks(&self) -> (fit: bool)
        ensures
            fit == self.ranks_fit(),
    {
        self.count_ranked() <= u8::MAX as u16
    }

    /// Decides whether `index` names a galaxy of the neighbourhood.
    pub fn holds_galaxy(&self, index: u16) -> (held: bool)
        ensures
            held == self.has_galaxy(index),
    {
        (index as u32) < self.count_galaxies()
    }
}

} // verus!
