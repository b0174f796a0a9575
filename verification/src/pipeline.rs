//! The stages of a run, each fed with what the stage before it made: a
//! universe, the neighbourhood of a galaxy in it, the galaxy, the division
//! and the hex that hold a coordinate, and the star system at that hex.

use vstd::prelude::*;
use planet_generator::prelude::{
    GalacticHex, GalacticMapDivision, GalacticNeighborhood, Galaxy, GenerationSettings, StarSystem,
    Universe,
};
use crate::chart::{forest_of, release, release_verdict};
use crate::coordinates::{is_division_level, level_exists, GalaxyExtent, SpaceCoordinates};
use crate::failure::PipelineError;
use crate::generator::{
    caches_are_in_place, division_is_in_place, division_lookup, end_of, extent_of, failure_kind,
    galaxy_of, grid_of, hex_is_in_place, hex_lookup, is_mapped, lookup_division, lookup_hex,
    holds_region_map, make_galaxy, make_neighborhood, make_system, make_universe, neighborhood_density,
    neighborhood_of, read_density, read_division_index, read_division_level, read_failure,
    read_galaxy_layers, read_hex_index, read_levels, read_settings, same_map, start_of, system_generation,
    universe_of, word_bits,
};
use crate::grid::{Grid, HEX_LEVEL};
use crate::layers::find_open_layer;
use crate::settings::{
    check_settings, effective_settings, is_valid, keeps_ranges, leaves_seed_open,
    settings_verdict, settle_seed,
};

verus! {

/// The index of the galaxy that a request works in.
pub const DEFAULT_GALAXY_INDEX: u16 = 0;

/// The level of the division that a star system is made in: its sub-sector.
pub const SUB_SECTOR_LEVEL: u8 = 1;

/// The index of the star system that a request makes at its hex.
pub const DEFAULT_SYSTEM_INDEX: u16 = 0;

/// What the universe stage yields: nothing where the settings are invalid.
pub open spec fn universe_outcome(settings: GenerationSettings) -> Result<Universe, PipelineError> {
    match settings_verdict(settings) {
        Err(error) => Err(error),
        Ok(_) => Ok(universe_of(settings)),
    }
}

/// What the neighbourhood stage yields in `universe`: nothing where the
/// settings are invalid.
pub open spec fn neighborhood_outcome(universe: Universe, settings: GenerationSettings) -> Result<
    GalacticNeighborhood,
    PipelineError,
> {
    match settings_verdict(settings) {
        Err(error) => Err(error),
        Ok(_) => Ok(neighborhood_of(universe, settings)),
    }
}

/// What the galaxy stage yields at `index` of `neighborhood`: nothing where
/// the settings are invalid, where the neighbourhood is a cluster with more
/// dominant and major galaxies than can be ranked, or where it holds no
/// galaxy with that index.
pub open spec fn galaxy_outcome(
    neighborhood: GalacticNeighborhood,
    index: u16,
    settings: GenerationSettings,
) -> Result<Galaxy, PipelineError> {
    match settings_verdict(settings) {
        Err(error) => Err(error),
        Ok(_) => {
            let density = neighborhood_density(neighborhood);
            if !density.ranks_fit() {
                Err(PipelineError::CrowdedCluster { ranked: density.ranked_count() as u16 })
            } else if density.has_galaxy(index) {
                Ok(galaxy_of(neighborhood, index, settings))
            } else {
                Err(
                    PipelineError::GalaxyIndexOutOfRange {
                        index,
                        galaxies: density.galaxy_count() as u32,
                    },
                )
            }
        },
    }
}

/// What the first three stages yield, run one after the other, each on what
/// the one before it made.
pub open spec fn galaxy_run(settings: GenerationSettings, index: u16) -> Result<
    Galaxy,
    PipelineError,
> {
    match universe_outcome(settings) {
        Err(error) => Err(error),
        Ok(universe) => match neighborhood_outcome(universe, settings) {
            Err(error) => Err(error),
            Ok(neighborhood) => galaxy_outcome(neighborhood, index, settings),
        },
    }
}

/// What a lookup of the division that holds `coord` at `level` yields, and
/// the galaxy as the lookup leaves it. The answer of the generator counts
/// only where it is the cell of that level that holds the coordinates.
pub open spec fn division_outcome(galaxy: Galaxy, coord: SpaceCoordinates, level: u8) -> (
    Result<GalacticMapDivision, PipelineError>,
    Galaxy,
) {
    if !level_exists(level) {
        (Err(PipelineError::LevelNotFound(level)), galaxy)
    } else if !extent_of(galaxy).covers(coord) {
        (Err(PipelineError::CoordinatesNotFound(coord)), galaxy)
    } else if !is_mapped(galaxy) {
        (Err(PipelineError::UnmappedGalaxy), galaxy)
    } else {
        let answer = division_lookup(galaxy, coord, level);
        match answer.0 {
            Ok(division) => if division_is_in_place(galaxy, division, coord, level) {
                (Ok(division), answer.1)
            } else {
                (Err(PipelineError::WrongCell { level }), answer.1)
            },
            Err(error) => (Err(PipelineError::GenerationFailed(failure_kind(error))), answer.1),
        }
    }
}

/// What a lookup of the hex that holds `coord` yields, and the galaxy as the
/// lookup leaves it. The answer of the generator counts only where it is the
/// hex that holds the coordinates.
pub open spec fn hex_outcome(galaxy: Galaxy, coord: SpaceCoordinates) -> (
    Result<GalacticHex, PipelineError>,
    Galaxy,
) {
    if !extent_of(galaxy).covers(coord) {
        (Err(PipelineError::CoordinatesNotFound(coord)), galaxy)
    } else if !is_mapped(galaxy) {
        (Err(PipelineError::UnmappedGalaxy), galaxy)
    } else {
        let answer = hex_lookup(galaxy, coord, word_bits());
        match answer.0 {
            Ok(hex) => if hex_is_in_place(galaxy, hex, coord) {
                (Ok(hex), answer.1)
            } else {
                (Err(PipelineError::WrongCell { level: HEX_LEVEL }), answer.1)
            },
            Err(error) => (Err(PipelineError::GenerationFailed(failure_kind(error))), answer.1),
        }
    }
}

/// What the star system stage yields at `coord`, and the galaxy as it leaves
/// it: the sub-sector is resolved, then the hex, then the system is made in
/// them and released only if its hierarchy is sound.
pub open spec fn system_outcome(galaxy: Galaxy, coord: SpaceCoordinates) -> (
    Result<StarSystem, PipelineError>,
    Galaxy,
) {
    let sub_sector = division_outcome(galaxy, coord, SUB_SECTOR_LEVEL);
    match sub_sector.0 {
        Err(error) => (Err(error), sub_sector.1),
        Ok(division) => {
            let cell = hex_outcome(sub_sector.1, coord);
            match cell.0 {
                Err(error) => (Err(error), cell.1),
                Ok(hex) => {
                    let made = system_generation(
                        DEFAULT_SYSTEM_INDEX,
                        coord,
                        hex,
                        division,
                        cell.1,
                        word_bits(),
                    );
                    match made.0 {
                        Err(error) => (
                            Err(PipelineError::GenerationFailed(failure_kind(error))),
                            made.1,
                        ),
                        Ok(system) => (release_verdict(system), made.1),
                    }
                },
            }
        },
    }
}

/// What a request for a universe yields.
pub open spec fn universe_request(settings: GenerationSettings, fresh_seed: Seq<char>) -> Result<
    Universe,
    PipelineError,
> {
    universe_outcome(effective_settings(settings, fresh_seed))
}

/// What a request for a galaxy yields.
pub open spec fn galaxy_request(settings: GenerationSettings, fresh_seed: Seq<char>) -> Result<
    Galaxy,
    PipelineError,
> {
    galaxy_run(effective_settings(settings, fresh_seed), DEFAULT_GALAXY_INDEX)
}

/// What a request for the star system at `coord` yields.
pub open spec fn system_request(
    settings: GenerationSettings,
    fresh_seed: Seq<char>,
    coord: SpaceCoordinates,
) -> Result<StarSystem, PipelineError> {
    match galaxy_request(settings, fresh_seed) {
        Err(error) => Err(error),
        Ok(galaxy) => system_outcome(galaxy, coord).0,
    }
}

/// The extent that a galaxy declares.
pub fn galaxy_extent(galaxy: &Galaxy) -> (extent: GalaxyExtent)
    ensures
        extent == extent_of(*galaxy),
{
    GalaxyExtent { start: start_of(galaxy), end: end_of(galaxy) }
}

/// The grid of a galaxy: its extent and its list of levels.
pub fn galaxy_grid(galaxy: &Galaxy) -> (grid: Grid)
    ensures
        grid@ == grid_of(*galaxy),
{
    Grid { extent: galaxy_extent(galaxy), levels: read_levels(galaxy) }
}

/// Decides whether the galaxy can be asked for its divisions, hexes and star
/// systems: the settings it carries keep their ranges, its list of levels is
/// one that a galaxy is made with, and it holds the map of its regions or
/// carries only closed layers to read it from.
pub fn mapped(galaxy: &Galaxy) -> (ready: bool)
    ensures
        ready == is_mapped(*galaxy),
        ready ==> grid_of(*galaxy).is_usable(),
{
    let settings = read_settings(galaxy);
    keeps_ranges(&settings) && galaxy_grid(galaxy).standard() && (holds_region_map(galaxy)
        || find_open_layer(&read_galaxy_layers(galaxy)).is_none())
}

/// The universe stage: checks the settings, then makes the universe. Fails
/// exactly where the settings are invalid, and makes nothing then.
pub fn universe_stage(settings: &GenerationSettings) -> (built: Result<Universe, PipelineError>)
    ensures
        built == universe_outcome(*settings),
        built is Ok <==> is_valid(*settings),
        built matches Err(error) ==> error.is_configuration_error(),
{
    match check_settings(settings) {
        Err(error) => Err(error),
        Ok(_) => Ok(make_universe(settings)),
    }
}

/// The neighbourhood stage: checks the settings, then makes the
/// neighbourhood of a galaxy in `universe`. Fails exactly where the settings
/// are invalid.
pub fn neighborhood_stage(universe: Universe, settings: &GenerationSettings) -> (built: Result<
    GalacticNeighborhood,
    PipelineError,
>)
    ensures
        built == neighborhood_outcome(universe, *settings),
        built is Ok <==> is_valid(*settings),
        built matches Err(error) ==> error.is_configuration_error(),
{
    match check_settings(settings) {
        Err(error) => Err(error),
        Ok(_) => Ok(make_neighborhood(universe, settings)),
    }
}

/// The galaxy stage: checks the settings, that the galaxies of `neighborhood`
/// can be ranked, and that it holds a galaxy with the index `index`, then
/// makes that galaxy. Fails exactly where the settings are invalid, the
/// neighbourhood is a cluster with more than 255 dominant and major
/// galaxies, or the index names no galaxy.
pub fn galaxy_stage(neighborhood: GalacticNeighborhood, index: u16, settings: &GenerationSettings) -> (built:
    Result<Galaxy, PipelineError>)
    ensures
        built == galaxy_outcome(neighborhood, index, *settings),
        built is Ok <==> is_valid(*settings) && neighborhood_density(neighborhood).ranks_fit()
            && neighborhood_density(neighborhood).has_galaxy(index),
        built matches Ok(galaxy) ==> is_mapped(galaxy) && caches_are_in_place(galaxy),
        built matches Err(error) ==> error.is_configuration_error(),
{
    match check_settings(settings) {
        Err(error) => Err(error),
        Ok(_) => {
            let density = read_density(&neighborhood);
            if !density.fits_ranks() {
                Err(PipelineError::CrowdedCluster { ranked: density.count_ranked() })
            } else if density.holds_galaxy(index) {
                Ok(make_galaxy(neighborhood, index, settings))
            } else {
                Err(
                    PipelineError::GalaxyIndexOutOfRange {
                        index,
                        galaxies: density.count_galaxies(),
                    },
                )
            }
        },
    }
}

/// Runs the first three stages in order, each on what the one before it
/// made, and stops at the first that fails.
pub fn build_galaxy(settings: &GenerationSettings, index: u16) -> (built: Result<
    Galaxy,
    PipelineError,
>)
    ensures
        built == galaxy_run(*settings, index),
        built is Ok <==> is_valid(*settings) && neighborhood_density(
            neighborhood_of(universe_of(*settings), *settings),
        ).ranks_fit() && neighborhood_density(
            neighborhood_of(universe_of(*settings), *settings),
        ).has_galaxy(index),
        built matches Ok(galaxy) ==> is_mapped(galaxy) && caches_are_in_place(galaxy) && galaxy
            == galaxy_of(neighborhood_of(universe_of(*settings), *settings), index, *settings),
        built matches Err(error) ==> error.is_configuration_error(),
{
    let universe = match universe_stage(settings) {
        Ok(universe) => universe,
        Err(error) => {
            return Err(error);
        },
    };
    let neighborhood = match neighborhood_stage(universe, settings) {
        Ok(neighborhood) => neighborhood,
        Err(error) => {
            return Err(error);
        },
    };
    galaxy_stage(neighborhood, index, settings)
}

/// The division of the galaxy that holds `coord` at `level`. Nothing is
/// found, and the galaxy is left alone, exactly where the level is none of 1
/// to 9 or the coordinates lie outside the extent of the galaxy. A division
/// that is handed out has that level and is the cell that holds the
/// coordinates. In a galaxy that can be searched and keeps everything in
/// place, as every galaxy does that a stage of this library made and only
/// its lookups touched, a division is found for every coordinate of the
/// extent at every level from 1 to 9. A lookup that found a division, asked
/// again of the galaxy as it left it, finds the same division and changes
/// nothing.
pub fn division_at_level(galaxy: &mut Galaxy, coord: SpaceCoordinates, level: u8) -> (found:
    Result<GalacticMapDivision, PipelineError>)
    ensures
        (found, *final(galaxy)) == division_outcome(*old(galaxy), coord, level),
        found is Ok ==> division_outcome(*final(galaxy), coord, level) == (found, *final(galaxy)),
        same_map(*old(galaxy), *final(galaxy)),
        is_mapped(*old(galaxy)) ==> is_mapped(*final(galaxy)),
        !level_exists(level) || !extent_of(*old(galaxy)).covers(coord) <==> (found matches Err(
            error,
        ) && error.is_not_found()),
        found matches Ok(division) ==> is_mapped(*old(galaxy)) && division_is_in_place(
            *old(galaxy),
            division,
            coord,
            level,
        ),
        level_exists(level) && extent_of(*old(galaxy)).covers(coord) && is_mapped(*old(galaxy))
            ==> found is Ok || (found matches Err(error) && error.is_internal()),
        caches_are_in_place(*old(galaxy)) ==> caches_are_in_place(*final(galaxy)),
        level_exists(level) && extent_of(*old(galaxy)).covers(coord) && is_mapped(*old(galaxy))
            && caches_are_in_place(*old(galaxy)) ==> found is Ok,
{
    if !is_division_level(level) {
        return Err(PipelineError::LevelNotFound(level));
    }
    let grid = galaxy_grid(galaxy);
    if !grid.extent.contains(coord) {
        return Err(PipelineError::CoordinatesNotFound(coord));
    }
    if !mapped(galaxy) {
        return Err(PipelineError::UnmappedGalaxy);
    }
    match lookup_division(galaxy, coord, level) {
        Ok(division) => {
            let in_place = match grid.cell_index(coord, level) {
                Some(cell) => read_division_level(&division) == level && cell.stands_at(
                    read_division_index(&division),
                ),
                None => false,
            };
            if in_place {
                Ok(division)
            } else {
                Err(PipelineError::WrongCell { level })
            }
        },
        Err(error) => Err(PipelineError::GenerationFailed(read_failure(&error))),
    }
}

/// The hex of the galaxy that holds `coord`. Nothing is found, and the
/// galaxy is left alone, exactly where the coordinates lie outside the extent
/// of the galaxy. A hex that is handed out is the one that holds the
/// coordinates. In a galaxy that can be searched and keeps everything in
/// place, the hex is found for every coordinate of the extent unless the
/// generator itself gives up on it. A lookup that found a hex, asked again
/// of the galaxy as it left it, finds the same hex and changes nothing.
pub fn hex(galaxy: &mut Galaxy, coord: SpaceCoordinates) -> (found: Result<
    GalacticHex,
    PipelineError,
>)
    ensures
        (found, *final(galaxy)) == hex_outcome(*old(galaxy), coord),
        found is Ok ==> hex_outcome(*final(galaxy), coord) == (found, *final(galaxy)),
        same_map(*old(galaxy), *final(galaxy)),
        is_mapped(*old(galaxy)) ==> is_mapped(*final(galaxy)),
        !extent_of(*old(galaxy)).covers(coord) <==> (found matches Err(error)
            && error.is_not_found()),
        found matches Ok(hex) ==> is_mapped(*old(galaxy)) && hex_is_in_place(
            *old(galaxy),
            hex,
            coord,
        ),
        extent_of(*old(galaxy)).covers(coord) && is_mapped(*old(galaxy)) ==> found is Ok || (
        found matches Err(error) && error.is_internal()),
        caches_are_in_place(*old(galaxy)) ==> caches_are_in_place(*final(galaxy)),
        extent_of(*old(galaxy)).covers(coord) && is_mapped(*old(galaxy)) && caches_are_in_place(
            *old(galaxy),
        ) ==> found is Ok || found is Err && found->Err_0 is GenerationFailed,
{
    let grid = galaxy_grid(galaxy);
    if !grid.extent.contains(coord) {
        return Err(PipelineError::CoordinatesNotFound(coord));
    }
    if !mapped(galaxy) {
        return Err(PipelineError::UnmappedGalaxy);
    }
    match lookup_hex(galaxy, coord) {
        Ok(hex) => {
            let in_place = match grid.hex_index(coord) {
                Some(cell) => cell.stands_at(read_hex_index(&hex)),
                None => false,
            };
            if in_place {
                Ok(hex)
            } else {
                Err(PipelineError::WrongCell { level: HEX_LEVEL })
            }
        },
        Err(error) => Err(PipelineError::GenerationFailed(read_failure(&error))),
    }
}

/// The star system stage: resolves the sub-sector and the hex that hold
/// `coord`, makes the star system in them, and releases it only if its
/// hierarchy is sound. Where the coordinates lie outside the extent of the
/// galaxy nothing is made and the galaxy is left alone.
pub fn system_stage(galaxy: &mut Galaxy, coord: SpaceCoordinates) -> (made: Result<
    StarSystem,
    PipelineError,
>)
    ensures
        (made, *final(galaxy)) == system_outcome(*old(galaxy), coord),
        same_map(*old(galaxy), *final(galaxy)),
        is_mapped(*old(galaxy)) ==> is_mapped(*final(galaxy)),
        made matches Ok(system) ==> is_mapped(*old(galaxy)) && forest_of(system).is_sound(),
        !extent_of(*old(galaxy)).covers(coord) <==> (made matches Err(error)
            && error.is_not_found()),
        !extent_of(*old(galaxy)).covers(coord) ==> *final(galaxy) == *old(galaxy),
        extent_of(*old(galaxy)).covers(coord) && is_mapped(*old(galaxy)) ==> made is Ok || (
        made matches Err(error) && error.is_internal()),
        caches_are_in_place(*old(galaxy)) ==> caches_are_in_place(*final(galaxy)),
        extent_of(*old(galaxy)).covers(coord) && is_mapped(*old(galaxy)) && caches_are_in_place(
            *old(galaxy),
        ) ==> made is Ok || made is Err && (made->Err_0 is GenerationFailed || made->Err_0
            is BrokenHierarchy),
{
    let sub_sector = match division_at_level(galaxy, coord, SUB_SECTOR_LEVEL) {
        Ok(division) => division,
        Err(error) => {
            return Err(error);
        },
    };
    let cell = match hex(galaxy, coord) {
        Ok(hex) => hex,
        Err(error) => {
            return Err(error);
        },
    };
    match make_system(DEFAULT_SYSTEM_INDEX, coord, &cell, &sub_sector, galaxy) {
        Ok(system) => release(system),
        Err(error) => Err(PipelineError::GenerationFailed(read_failure(&error))),
    }
}

/// Answers a request for a universe. An empty seed is replaced by
/// `fresh_seed` first. Fails exactly where the settings are invalid, by a
/// range that they break or a layer that is not closed.
pub fn generate_universe(settings: GenerationSettings, fresh_seed: &str) -> (answer: Result<
    Universe,
    PipelineError,
>)
    ensures
        answer == universe_request(settings, fresh_seed@),
        answer is Ok <==> is_valid(settings),
        answer matches Err(error) ==> error.is_configuration_error(),
{
    let settled = settle_seed(settings, fresh_seed);
    universe_stage(&settled)
}

/// Answers a request for a galaxy: the first galaxy of the neighbourhood. An
/// empty seed is replaced by `fresh_seed` first. Fails exactly where the
/// settings are invalid, by a range that they break or a layer that is not
/// closed, where the neighbourhood is a cluster with more than 255 dominant
/// and major galaxies, or where it holds no galaxy.
pub fn generate_galaxy(settings: GenerationSettings, fresh_seed: &str) -> (answer: Result<
    Galaxy,
    PipelineError,
>)
    ensures
        answer == galaxy_request(settings, fresh_seed@),
        answer is Ok <==> is_valid(settings) && neighborhood_density(
            neighborhood_of(
                universe_of(effective_settings(settings, fresh_seed@)),
                effective_settings(settings, fresh_seed@),
            ),
        ).has_galaxy(DEFAULT_GALAXY_INDEX) && neighborhood_density(
            neighborhood_of(
                universe_of(effective_settings(settings, fresh_seed@)),
                effective_settings(settings, fresh_seed@),
            ),
        ).ranks_fit(),
        answer matches Ok(galaxy) ==> is_mapped(galaxy) && caches_are_in_place(galaxy),
        answer matches Err(error) ==> error.is_configuration_error(),
{
    let settled = settle_seed(settings, fresh_seed);
    build_galaxy(&settled, DEFAULT_GALAXY_INDEX)
}

/// Answers a request for the star system at `(x, y, z)` of the first galaxy
/// of the neighbourhood. An empty seed is replaced by `fresh_seed` first.
/// The request fails as a whole where the request for the galaxy fails: the
/// settings are invalid, the neighbourhood is a cluster with more than 255
/// dominant and major galaxies, or it holds no galaxy. It fails as well
/// where the coordinates lie outside the extent of the galaxy, where the
/// generator gives up or hands over a cell that does not hold the
/// coordinates, and where the hierarchy of the system it made is broken.
pub fn generate_system(settings: GenerationSettings, fresh_seed: &str, x: i64, y: i64, z: i64) -> (answer:
    Result<StarSystem, PipelineError>)
    ensures
        answer == system_request(settings, fresh_seed@, (SpaceCoordinates { x, y, z })),
        answer matches Ok(system) ==> forest_of(system).is_sound(),
        answer matches Err(error) ==> (error.is_configuration_error() <==> galaxy_request(
            settings,
            fresh_seed@,
        ) is Err),
        answer matches Err(error) ==> (error.is_not_found() <==> (galaxy_request(
            settings,
            fresh_seed@,
        ) matches Ok(galaxy) && !extent_of(galaxy).covers((SpaceCoordinates { x, y, z })))),
{
    let settled = settle_seed(settings, fresh_seed);
    let mut galaxy = match build_galaxy(&settled, DEFAULT_GALAXY_INDEX) {
        Ok(galaxy) => galaxy,
        Err(error) => {
            return Err(error);
        },
    };
    system_stage(&mut galaxy, SpaceCoordinates::new(x, y, z))
}

/// A run whose settings name a seed does not depend on the fresh seed that
/// it is offered: whatever is offered, each request yields the same answer.
pub proof fn lemma_named_seed_decides_the_run(
    settings: GenerationSettings,
    fresh_seed: Seq<char>,
    other_fresh_seed: Seq<char>,
    coord: SpaceCoordinates,
)
    requires
        !leaves_seed_open(settings),
    ensures
        universe_request(settings, fresh_seed) == universe_request(settings, other_fresh_seed),
        galaxy_request(settings, fresh_seed) == galaxy_request(settings, other_fresh_seed),
        system_request(settings, fresh_seed, coord) == system_request(
            settings,
            other_fresh_seed,
            coord,
        ),
{
}

/// A lookup outside the extent of the galaxy, or at a level that the galaxy
/// is not divided at, finds nothing and leaves the galaxy as it was.
pub proof fn lemma_out_of_range_is_not_found(galaxy: Galaxy, coord: SpaceCoordinates, level: u8)
    requires
        !extent_of(galaxy).covers(coord) || !level_exists(level),
    ensures
        division_outcome(galaxy, coord, level).0 matches Err(error) && error.is_not_found(),
        division_outcome(galaxy, coord, level).1 == galaxy,
        !extent_of(galaxy).covers(coord) ==> hex_outcome(galaxy, coord) == (
            Err::<GalacticHex, PipelineError>(PipelineError::CoordinatesNotFound(coord)),
            galaxy,
        ),
        !extent_of(galaxy).covers(coord) ==> system_outcome(galaxy, coord) == (
            Err::<StarSystem, PipelineError>(PipelineError::CoordinatesNotFound(coord)),
            galaxy,
        ),
{
}

/// A lookup inside the extent of the galaxy, at a level that the galaxy is
/// divided at, never reports that nothing was found.
pub proof fn lemma_in_range_is_never_not_found(galaxy: Galaxy, coord: SpaceCoordinates, level: u8)
    requires
        extent_of(galaxy).covers(coord),
        level_exists(level),
    ensures
        division_outcome(galaxy, coord, level).0 matches Err(error) ==> !error.is_not_found(),
        hex_outcome(galaxy, coord).0 matches Err(error) ==> !error.is_not_found(),
{
}

} // verus!
