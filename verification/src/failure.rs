//! The ways in which a request can fail, and the three classes they fall in:
//! the settings are wrong, the place asked for is not in the galaxy, or the
//! generator itself is at fault.

use vstd::prelude::*;
use crate::coordinates::SpaceCoordinates;

verus! {

/// What the generator said when it gave up.
#[derive(Clone, Copy, Debug, PartialEq, Eq, Structural)]
pub enum GeneratorFailure {
    /// It held the coordinates to lie outside the galaxy.
    InvalidCoordinates,
    /// It held the division level to be unknown.
    InvalidDivisionLevel,
    /// Only interesting systems were asked for and none came up in `tries` tries.
    InterestingSystemNotFound { tries: u32 },
    /// It held the settings to be invalid.
    InvalidSettings,
    /// One of its own invariants broke.
    InternalInvariant,
    /// A failure of a kind that this library does not know.
    Other,
}

/// The first thing found wrong with an orbital hierarchy.
#[derive(Clone, Copy, Debug, PartialEq, Eq, Structural)]
pub enum ForestDefect {
    /// Two points share an id.
    DuplicateId,
    /// A point names a primary that does not list it exactly once.
    BrokenPrimaryLink,
    /// A point lists a satellite that does not name it as its primary.
    BrokenSatelliteLink,
    /// A root has a distance, or a point with a primary has none.
    MisplacedDistance,
    /// A distance is not greater than zero.
    DistanceNotPositive,
    /// The centre is missing or orbits something.
    CenterIsNoRoot,
    /// A point orbits in a circle and hangs from no root.
    DetachedFromRoots,
    /// The main star is missing or is no star.
    MainStarIsNoStar,
    /// Two points orbit the same primary at the same distance.
    SiblingsCollide,
    /// A star has a mass, a luminosity, a radius or an age below zero.
    UnphysicalStar,
}

/// Why a request produced nothing.
#[derive(Clone, Copy, Debug, PartialEq, Eq, Structural)]
pub enum PipelineError {
    /// The settings break `violations` of the documented ranges.
    InvalidSettings { violations: usize },
    /// The neighbourhood holds only `galaxies` galaxies, so none has the index `index`.
    GalaxyIndexOutOfRange { index: u16, galaxies: u32 },
    /// The layer of the galactic map at the place `layer` names an image or
    /// declares a document type, and so could make the generator read a file.
    OpenLayer { layer: usize },
    /// The cluster holds `ranked` dominant and major galaxies, more than the
    /// 255 that can be ranked.
    CrowdedCluster { ranked: u16 },
    /// The galaxy carries invalid settings, or a list of levels that no
    /// galaxy is made with.
    UnmappedGalaxy,
    /// The coordinates lie outside the extent of the galaxy.
    CoordinatesNotFound(SpaceCoordinates),
    /// The galaxy is not divided at that level.
    LevelNotFound(u8),
    /// The generator gave up on a place that the galaxy covers.
    GenerationFailed(GeneratorFailure),
    /// The generator handed over a cell of the level `level` that is not the
    /// one that holds the coordinates; the level of the hexes is 0.
    WrongCell { level: u8 },
    /// The generator handed over a star system whose hierarchy is broken.
    BrokenHierarchy(ForestDefect),
}

impl PipelineError {
    /// The caller has to mend the settings.
    pub open spec fn is_configuration_error(self) -> bool {
        self is InvalidSettings || self is OpenLayer || self is CrowdedCluster
            || self is GalaxyIndexOutOfRange
            || self is UnmappedGalaxy
    }

    /// The caller has to ask for another place.
    pub open spec fn is_not_found(self) -> bool {
        self is CoordinatesNotFound || self is LevelNotFound
    }

    /// The generator is at fault.
    pub open spec fn is_internal(self) -> bool {
        self is GenerationFailed || self is WrongCell || self is BrokenHierarchy
    }

    /// Decides whether the caller has to mend the settings.
    pub fn blames_settings(&self) -> (yes: bool)
        ensures
            yes == self.is_configuration_error(),
    {
        match self {
            PipelineError::InvalidSettings { .. } => true,
            PipelineError::OpenLayer { .. } => true,
            PipelineError::CrowdedCluster { .. } => true,
            PipelineError::GalaxyIndexOutOfRange { .. } => true,
            PipelineError::UnmappedGalaxy => true,
            _ => false,
        }
    }

    /// Decides whether the caller has to ask for another place.
    pub fn blames_place(&self) -> (yes: bool)
        ensures
            yes == self.is_not_found(),
    {
        match self {
            PipelineError::CoordinatesNotFound(_) => true,
            PipelineError::LevelNotFound(_) => true,
            _ => false,
        }
    }

    /// Decides whether the generator is at fault.
    pub fn blames_generator(&self) -> (yes: bool)
        ensures
            yes == self.is_internal(),
    {
        match self {
            PipelineError::GenerationFailed(_) => true,
            PipelineError::WrongCell { .. } => true,
            PipelineError::BrokenHierarchy(_) => true,
            _ => false,
        }
    }
}

/// Every failure falls in exactly one of the three classes.
pub proof fn lemma_failure_classes_partition(error: PipelineError)
    ensures
        error.is_configuration_error() || error.is_not_found() || error.is_internal(),
        !(error.is_configuration_error() && error.is_not_found()),
        !(error.is_configuration_error() && error.is_internal()),
        !(error.is_not_found() && error.is_internal()),
{
}

} // verus!
