//! The boundary to the generator library. The types, the names without a
//! body and the wrappers here are believed, not proved: each says what it
//! claims of the outside item it stands for. The spec functions with a body
//! only combine those names.

use vstd::prelude::*;
use planet_generator::prelude::{
    AstronomicalObject, Diagnostics, GalacticHex, GalacticMapDivision, GalacticNeighborhood,
    GalacticNeighborhoodDensity, Galaxy, GenerationError, GenerationSettings, SettingsError,
    StarSystem, Universe,
};
use crate::coordinates::{GalaxyExtent, SpaceCoordinates};
use crate::failure::GeneratorFailure;
use crate::grid::{levels_are_standard, CellSpan, GridModel, LevelRecord, HEX_LEVEL};
use crate::chart::{OrbitRecord, PointRecord};
use crate::hierarchy::{ObjectKind, StarFacts};
use crate::layers::layers_are_closed;
use crate::neighborhood::NeighborhoodDensity;

verus! {

/// The settings of a run: a seed and the parameters of every stage.
#[verifier::external_type_specification]
#[verifier::external_body]
pub struct ExGenerationSettings(planet_generator::prelude::GenerationSettings);

/// One documented range that a value of the settings breaks.
#[verifier::external_type_specification]
#[verifier::external_body]
pub struct ExSettingsError(planet_generator::prelude::SettingsError);

/// The large-scale parameters of a universe.
#[verifier::external_type_specification]
#[verifier::external_body]
pub struct ExUniverse(planet_generator::prelude::Universe);

/// The group of galaxies that a galaxy sits in.
#[verifier::external_type_specification]
#[verifier::external_body]
pub struct ExGalacticNeighborhood(planet_generator::prelude::GalacticNeighborhood);

/// A galaxy, with the divisions and hexes that were looked up in it so far.
#[verifier::external_type_specification]
#[verifier::external_body]
pub struct ExGalaxy(planet_generator::prelude::Galaxy);

/// A sector or sub-sector of a galaxy.
#[verifier::external_type_specification]
#[verifier::external_body]
pub struct ExGalacticMapDivision(planet_generator::prelude::GalacticMapDivision);

/// The finest cell of a galaxy.
#[verifier::external_type_specification]
#[verifier::external_body]
pub struct ExGalacticHex(planet_generator::prelude::GalacticHex);

/// A star system as the generator hands it over.
#[verifier::external_type_specification]
#[verifier::external_body]
pub struct ExStarSystem(planet_generator::prelude::StarSystem);

/// The reason that the generator gives when it fails.
#[verifier::external_type_specification]
#[verifier::external_body]
pub struct ExGenerationError(planet_generator::prelude::GenerationError);

/// The settings with the seed `seed` and every parameter at its documented
/// default.
pub uninterp spec fn defaults_with(seed: Seq<char>) -> GenerationSettings;

/// The seed of the settings.
pub uninterp spec fn settings_seed(settings: GenerationSettings) -> Seq<char>;

/// The settings with `seed` in place of their seed.
pub uninterp spec fn reseeded(settings: GenerationSettings, seed: Seq<char>) -> GenerationSettings;

/// The documented ranges that the settings break, in the order in which the
/// generator's validation reports them.
pub uninterp spec fn settings_violations(settings: GenerationSettings) -> Seq<SettingsError>;

/// The layers of the galactic map that the settings carry, each as the bytes
/// of its text.
pub uninterp spec fn settings_map_layers(settings: GenerationSettings) -> Seq<Seq<u8>>;

/// The universe that the generator makes from the settings.
pub uninterp spec fn universe_of(settings: GenerationSettings) -> Universe;

/// The neighbourhood that the generator makes in a universe.
pub uninterp spec fn neighborhood_of(
    universe: Universe,
    settings: GenerationSettings,
) -> GalacticNeighborhood;

/// How many galaxies of each rank the neighbourhood holds.
pub uninterp spec fn neighborhood_density(neighborhood: GalacticNeighborhood) -> NeighborhoodDensity;

/// The galaxy that the generator makes at `index` of a neighbourhood.
pub uninterp spec fn galaxy_of(
    neighborhood: GalacticNeighborhood,
    index: u16,
    settings: GenerationSettings,
) -> Galaxy;

/// The settings that the galaxy carries.
pub uninterp spec fn galaxy_settings(galaxy: Galaxy) -> GenerationSettings;

/// The list of levels that the galaxy carries.
pub uninterp spec fn galaxy_levels(galaxy: Galaxy) -> Seq<LevelRecord>;

/// The layers of the galactic map that the galaxy carries, each as the bytes
/// of its text.
pub uninterp spec fn galaxy_map_layers(galaxy: Galaxy) -> Seq<Seq<u8>>;

/// Whether the galaxy holds the map of its regions, read from its layers.
pub uninterp spec fn has_region_map(galaxy: Galaxy) -> bool;

/// The corner of the galaxy's extent with the lowest coordinates.
pub uninterp spec fn galactic_start(galaxy: Galaxy) -> SpaceCoordinates;

/// The corner of the galaxy's extent with the highest coordinates.
pub uninterp spec fn galactic_end(galaxy: Galaxy) -> SpaceCoordinates;

/// What the generator answers when asked for the division of `galaxy` that
/// holds `coord` at `level`, and the galaxy as the lookup leaves it.
pub uninterp spec fn division_lookup(galaxy: Galaxy, coord: SpaceCoordinates, level: u8) -> (
    Result<GalacticMapDivision, GenerationError>,
    Galaxy,
);

/// What the generator answers, on a machine with words of `word_bits` bits,
/// when asked for the hex of `galaxy` that holds `coord`, and the galaxy as
/// the lookup leaves it. The word size counts because the generator makes
/// the star systems of the hex with draws of the size of a word, for their
/// names and for the elements of their bodies.
pub uninterp spec fn hex_lookup(galaxy: Galaxy, coord: SpaceCoordinates, word_bits: nat) -> (
    Result<GalacticHex, GenerationError>,
    Galaxy,
);

/// What the generator answers, on a machine with words of `word_bits` bits,
/// when asked for the star system with the index `index` at `coord`, and the
/// galaxy as the generation leaves it. The word size counts because the
/// generator makes the star system with draws of the size of a word, for its
/// name and for the elements of its bodies.
pub uninterp spec fn system_generation(
    index: u16,
    coord: SpaceCoordinates,
    hex: GalacticHex,
    sub_sector: GalacticMapDivision,
    galaxy: Galaxy,
    word_bits: nat,
) -> (Result<StarSystem, GenerationError>, Galaxy);

/// What the galaxy keeps of the divisions that were looked up in it: under
/// each key, a level and an index, the level and the index of the division
/// that it keeps there.
pub uninterp spec fn cached_divisions(galaxy: Galaxy) -> Map<
    (u8, SpaceCoordinates),
    (u8, SpaceCoordinates),
>;

/// What the galaxy keeps of the hexes that were looked up in it: under each
/// key, an index, the index of the hex that it keeps there.
pub uninterp spec fn cached_hexes(galaxy: Galaxy) -> Map<SpaceCoordinates, SpaceCoordinates>;

/// The level of a division.
pub uninterp spec fn division_level(division: GalacticMapDivision) -> u8;

/// The place of a division among the divisions of its level.
pub uninterp spec fn division_index(division: GalacticMapDivision) -> SpaceCoordinates;

/// The place of a hex among the hexes.
pub uninterp spec fn hex_index(hex: GalacticHex) -> SpaceCoordinates;

/// The kind of a failure of the generator.
pub uninterp spec fn failure_kind(error: GenerationError) -> GeneratorFailure;

/// The name of a star system.
pub uninterp spec fn system_name(system: StarSystem) -> Seq<char>;

/// The id of the point at the centre of a star system.
pub uninterp spec fn system_center(system: StarSystem) -> u32;

/// The id of the point that holds the main star of a star system.
pub uninterp spec fn system_main_star(system: StarSystem) -> u32;

/// The orbital points of a star system, in the order in which it holds them.
pub uninterp spec fn system_points(system: StarSystem) -> Seq<PointRecord>;

/// The number of bits of a word of the machine.
pub open spec fn word_bits() -> nat {
    usize::BITS as nat
}

/// The extent that a galaxy declares.
pub open spec fn extent_of(galaxy: Galaxy) -> GalaxyExtent {
    GalaxyExtent { start: galactic_start(galaxy), end: galactic_end(galaxy) }
}

/// The grid of a galaxy: its extent and its list of levels.
pub open spec fn grid_of(galaxy: Galaxy) -> GridModel {
    GridModel { extent: extent_of(galaxy), levels: galaxy_levels(galaxy) }
}

/// Whether `division` is the cell of `level` that holds `coord` in the grid
/// of `galaxy`.
pub open spec fn division_is_in_place(
    galaxy: Galaxy,
    division: GalacticMapDivision,
    coord: SpaceCoordinates,
    level: u8,
) -> bool {
    &&& division_level(division) == level
    &&& grid_of(galaxy).places(
        coord,
        level,
        division_index(division).x as int,
        division_index(division).y as int,
        division_index(division).z as int,
    )
}

/// Whether `hex` is the hex that holds `coord` in the grid of `galaxy`.
pub open spec fn hex_is_in_place(galaxy: Galaxy, hex: GalacticHex, coord: SpaceCoordinates) -> bool {
    grid_of(galaxy).places(
        coord,
        HEX_LEVEL,
        hex_index(hex).x as int,
        hex_index(hex).y as int,
        hex_index(hex).z as int,
    )
}

/// Whether the generator can read the regions of the galaxy without
/// reading a file: the galaxy holds the map of its regions, or no layer that
/// it would read the map from names an image or declares a document type.
pub open spec fn map_is_closed(galaxy: Galaxy) -> bool {
    has_region_map(galaxy) || layers_are_closed(galaxy_map_layers(galaxy))
}

/// Whether the galaxy can be asked for its divisions, hexes and star
/// systems: the settings it carries break no documented range, its list of
/// levels is one that a galaxy is made with, and its map is closed.
pub open spec fn is_mapped(galaxy: Galaxy) -> bool {
    &&& settings_violations(galaxy_settings(galaxy)).len() == 0
    &&& levels_are_standard(galaxy_levels(galaxy))
    &&& map_is_closed(galaxy)
}

/// Whether the galaxy keeps every division and every hex where it belongs:
/// each division under its own level and index, each hex under its own index.
pub open spec fn caches_are_in_place(galaxy: Galaxy) -> bool {
    &&& forall|key: (u8, SpaceCoordinates)| #[trigger]
        cached_divisions(galaxy).contains_key(key) ==> cached_divisions(galaxy)[key] == key
    &&& forall|key: SpaceCoordinates| #[trigger]
        cached_hexes(galaxy).contains_key(key) ==> cached_hexes(galaxy)[key] == key
}

/// Whether two states of a galaxy carry the same settings and levels and
/// declare the same extent.
pub open spec fn same_map(before: Galaxy, after: Galaxy) -> bool {
    &&& galaxy_settings(after) == galaxy_settings(before)
    &&& galaxy_levels(after) == galaxy_levels(before)
    &&& galactic_start(after) == galactic_start(before)
    &&& galactic_end(after) == galactic_end(before)
}

/// `GenerationSettings::default`, with `seed` in the field `seed` of what it
/// makes. Claims that the result has that seed, that it breaks no
/// documented range, the defaults lying within the ranges that
/// `GenerationSettings::validate` tests, and that it carries no layer.
#[verifier::external_body]
pub(crate) fn make_defaults(seed: &str) -> (settings: GenerationSettings)
    ensures
        settings == defaults_with(seed@),
        settings_seed(settings) == seed@,
        settings_violations(settings).len() == 0,
        settings_map_layers(settings).len() == 0,
{
    GenerationSettings { seed: seed.into(), ..GenerationSettings::default() }
}

/// Reads the field `seed` of the settings.
#[verifier::external_body]
pub(crate) fn read_seed(settings: &GenerationSettings) -> (seed: String)
    ensures
        seed@ == settings_seed(*settings),
{
    settings.seed.to_string()
}

/// Copies the settings and puts `seed` in the field `seed` of the copy.
/// Claims that the copy has that seed, and breaks the ranges that the given
/// settings break: `GenerationSettings::validate` does not read the seed.
#[verifier::external_body]
pub(crate) fn replace_seed(settings: &GenerationSettings, seed: &str) -> (changed: GenerationSettings)
    ensures
        changed == reseeded(*settings, seed@),
        settings_seed(changed) == seed@,
        settings_violations(changed) == settings_violations(*settings),
        settings_map_layers(changed) == settings_map_layers(*settings),
{
    GenerationSettings { seed: seed.into(), ..settings.clone() }
}

/// Reads the field `galaxy.galactic_map_layers` of the settings: the bytes
/// of each layer.
#[verifier::external_body]
pub(crate) fn read_settings_layers(settings: &GenerationSettings) -> (layers: Vec<Vec<u8>>)
    ensures
        layers.deep_view() == settings_map_layers(*settings),
{
    settings.galaxy.galactic_map_layers.iter().map(|layer| layer.as_bytes().to_vec()).collect()
}

/// `GenerationSettings::validate`: every violation found, none where the
/// settings are valid.
#[verifier::external_body]
pub(crate) fn validate(settings: &GenerationSettings) -> (violations: Vec<SettingsError>)
    ensures
        violations@ == settings_violations(*settings),
{
    settings.validate().err().unwrap_or_default()
}

/// `Universe::generate`, which expects valid settings; its warnings are dropped.
#[verifier::external_body]
pub(crate) fn make_universe(settings: &GenerationSettings) -> (universe: Universe)
    requires
        settings_violations(*settings).len() == 0,
    ensures
        universe == universe_of(*settings),
{
    Universe::generate(settings, &mut Diagnostics::default())
}

/// `GalacticNeighborhood::generate`, which expects valid settings.
#[verifier::external_body]
pub(crate) fn make_neighborhood(universe: Universe, settings: &GenerationSettings) -> (neighborhood:
    GalacticNeighborhood)
    requires
        settings_violations(*settings).len() == 0,
    ensures
        neighborhood == neighborhood_of(universe, *settings),
{
    GalacticNeighborhood::generate(universe, settings, &mut Diagnostics::default())
}

/// Reads the field `density` of the neighbourhood.
#[verifier::external_body]
pub(crate) fn read_density(neighborhood: &GalacticNeighborhood) -> (density: NeighborhoodDensity)
    ensures
        density == neighborhood_density(*neighborhood),
{
    match neighborhood.density {
        GalacticNeighborhoodDensity::Void(major, minor) => NeighborhoodDensity::Void(major, minor),
        GalacticNeighborhoodDensity::Group(major, minor) => NeighborhoodDensity::Group(major, minor),
        GalacticNeighborhoodDensity::Cluster(dominant, major, minor) => NeighborhoodDensity::Cluster(
            dominant,
            major,
            minor,
        ),
    }
}

/// `Galaxy::generate`, which expects valid settings, ranks the galaxy by
/// the sum of the dominant and major galaxies of a cluster, a sum of bytes,
/// and reads the regions of the galaxy from the layers in the settings, or
/// from layers of its own where the settings carry none or cannot be read. A
/// layer that names an image can make it read a file, so such layers are
/// kept out. Claims that the galaxy carries a copy of the settings, that its
/// list of levels is made from the sizes in the settings, which valid
/// settings hold between 1 and 255 for the hexes and between 4 and 62 above
/// them, with 1 in place of the third size where the map is flat, that it
/// keeps no division and no hex yet, and that the layers it carries, those
/// of the settings or its own, are closed.
#[verifier::external_body]
pub(crate) fn make_galaxy(
    neighborhood: GalacticNeighborhood,
    index: u16,
    settings: &GenerationSettings,
) -> (galaxy: Galaxy)
    requires
        settings_violations(*settings).len() == 0,
        layers_are_closed(settings_map_layers(*settings)),
        neighborhood_density(neighborhood).ranks_fit(),
    ensures
        galaxy == galaxy_of(neighborhood, index, *settings),
        galaxy_settings(galaxy) == *settings,
        levels_are_standard(galaxy_levels(galaxy)),
        cached_divisions(galaxy).is_empty(),
        cached_hexes(galaxy).is_empty(),
        layers_are_closed(galaxy_map_layers(galaxy)),
{
    Galaxy::generate(neighborhood, index, settings)
}

/// Copies the field `settings` of the galaxy.
#[verifier::external_body]
pub(crate) fn read_settings(galaxy: &Galaxy) -> (settings: GenerationSettings)
    ensures
        settings == galaxy_settings(*galaxy),
{
    galaxy.settings.clone()
}

/// Reads the field `galactic_map_layers` of the galaxy: the bytes of each
/// layer.
#[verifier::external_body]
pub(crate) fn read_galaxy_layers(galaxy: &Galaxy) -> (layers: Vec<Vec<u8>>)
    ensures
        layers.deep_view() == galaxy_map_layers(*galaxy),
{
    galaxy.galactic_map_layers.iter().map(|layer| layer.as_bytes().to_vec()).collect()
}

/// Tells whether the field `region_map` of the galaxy holds a map.
#[verifier::external_body]
pub(crate) fn holds_region_map(galaxy: &Galaxy) -> (held: bool)
    ensures
        held == has_region_map(*galaxy),
{
    galaxy.region_map.is_some()
}

/// Reads the field `division_levels` of the galaxy: of each entry its level
/// and its subdivisions on the three axes.
#[verifier::external_body]
pub(crate) fn read_levels(galaxy: &Galaxy) -> (levels: Vec<LevelRecord>)
    ensures
        levels@ == galaxy_levels(*galaxy),
{
    galaxy.division_levels.iter().map(
        |entry|
            LevelRecord {
                level: entry.level,
                span: CellSpan {
                    x: entry.x_subdivisions,
                    y: entry.y_subdivisions,
                    z: entry.z_subdivisions,
                },
            },
    ).collect()
}

/// `Galaxy::get_galactic_start`.
#[verifier::external_body]
pub(crate) fn start_of(galaxy: &Galaxy) -> (start: SpaceCoordinates)
    ensures
        start == galactic_start(*galaxy),
{
    let start = galaxy.get_galactic_start();
    SpaceCoordinates { x: start.x, y: start.y, z: start.z }
}

/// `Galaxy::get_galactic_end`.
#[verifier::external_body]
pub(crate) fn end_of(galaxy: &Galaxy) -> (end: SpaceCoordinates)
    ensures
        end == galactic_end(*galaxy),
{
    let end = galaxy.get_galactic_end();
    SpaceCoordinates { x: end.x, y: end.y, z: end.z }
}

/// `Galaxy::get_division_at_level`, with a copy of the division it finds.
/// Claims that the lookup leaves the settings, the levels and the extent of
/// the galaxy alone, and its map closed; that it keeps what it makes under
/// the level and the index of what it makes; that a lookup that found a
/// division, asked again of the galaxy as it left it, finds the same
/// division and changes nothing; and that, where everything the galaxy keeps
/// is in
/// place, the coordinates lie in the extent and the level is one of 1 to 9,
/// it finds the division of that level whose index is the offset of the
/// coordinates from the start of the extent, divided by the span of each
/// level in turn from the hexes up to that level.
#[verifier::external_body]
pub(crate) fn lookup_division(galaxy: &mut Galaxy, coord: SpaceCoordinates, level: u8) -> (found:
    Result<GalacticMapDivision, GenerationError>)
    requires
        is_mapped(*old(galaxy)),
    ensures
        (found, *final(galaxy)) == division_lookup(*old(galaxy), coord, level),
        same_map(*old(galaxy), *final(galaxy)),
        map_is_closed(*final(galaxy)),
        found is Ok ==> division_lookup(*final(galaxy), coord, level) == (found, *final(galaxy)),
        caches_are_in_place(*old(galaxy)) ==> caches_are_in_place(*final(galaxy)),
        caches_are_in_place(*old(galaxy)) && extent_of(*old(galaxy)).covers(coord) && 1 <= level
            <= 9 ==> (found matches Ok(division) && division_is_in_place(
            *old(galaxy),
            division,
            coord,
            level,
        )),
{
    let place = planet_generator::prelude::SpaceCoordinates::new(coord.x, coord.y, coord.z);
    galaxy.get_division_at_level(place, level).cloned()
}

/// `Galaxy::get_hex`, with a copy of the hex it finds. Claims that the lookup
/// leaves the settings, the levels and the extent of the galaxy alone, and
/// its map closed; that it keeps what it makes under the index of what it
/// makes; that a lookup that found a hex, asked again of the galaxy as it
/// left it, finds the same hex and changes nothing; and that, where
/// everything the galaxy keeps is in place, a hex that it finds has as its
/// index the offset of the coordinates from the start of the extent, divided
/// by the span of the hexes.
#[verifier::external_body]
pub(crate) fn lookup_hex(galaxy: &mut Galaxy, coord: SpaceCoordinates) -> (found: Result<
    GalacticHex,
    GenerationError,
>)
    requires
        is_mapped(*old(galaxy)),
    ensures
        (found, *final(galaxy)) == hex_lookup(*old(galaxy), coord, word_bits()),
        same_map(*old(galaxy), *final(galaxy)),
        map_is_closed(*final(galaxy)),
        found is Ok ==> hex_lookup(*final(galaxy), coord, word_bits()) == (found, *final(galaxy)),
        caches_are_in_place(*old(galaxy)) ==> caches_are_in_place(*final(galaxy)),
        caches_are_in_place(*old(galaxy)) ==> (found matches Ok(hex) ==> hex_is_in_place(
            *old(galaxy),
            hex,
            coord,
        )),
{
    let place = planet_generator::prelude::SpaceCoordinates::new(coord.x, coord.y, coord.z);
    galaxy.get_hex(place).cloned()
}

/// Reads the field `level` of the division.
#[verifier::external_body]
pub(crate) fn read_division_level(division: &GalacticMapDivision) -> (level: u8)
    ensures
        level == division_level(*division),
{
    division.level
}

/// Reads the field `index` of the division.
#[verifier::external_body]
pub(crate) fn read_division_index(division: &GalacticMapDivision) -> (index: SpaceCoordinates)
    ensures
        index == division_index(*division),
{
    SpaceCoordinates { x: division.index.x, y: division.index.y, z: division.index.z }
}

/// Reads the field `index` of the hex.
#[verifier::external_body]
pub(crate) fn read_hex_index(hex: &GalacticHex) -> (index: SpaceCoordinates)
    ensures
        index == hex_index(*hex),
{
    SpaceCoordinates { x: hex.index.x, y: hex.index.y, z: hex.index.z }
}

/// `StarSystem::generate`. Claims that the generation leaves the settings,
/// the levels and the extent of the galaxy alone, and its map closed, and
/// that it keeps the divisions it makes under their level and index.
#[verifier::external_body]
pub(crate) fn make_system(
    index: u16,
    coord: SpaceCoordinates,
    hex: &GalacticHex,
    sub_sector: &GalacticMapDivision,
    galaxy: &mut Galaxy,
) -> (made: Result<StarSystem, GenerationError>)
    requires
        is_mapped(*old(galaxy)),
    ensures
        (made, *final(galaxy)) == system_generation(
            index,
            coord,
            *hex,
            *sub_sector,
            *old(galaxy),
            word_bits(),
        ),
        same_map(*old(galaxy), *final(galaxy)),
        map_is_closed(*final(galaxy)),
        caches_are_in_place(*old(galaxy)) ==> caches_are_in_place(*final(galaxy)),
{
    let place = planet_generator::prelude::SpaceCoordinates::new(coord.x, coord.y, coord.z);
    StarSystem::generate(index, place, hex, sub_sector, galaxy)
}

/// Tells the variants of `GenerationError` apart.
#[verifier::external_body]
pub(crate) fn read_failure(error: &GenerationError) -> (kind: GeneratorFailure)
    ensures
        kind == failure_kind(*error),
{
    match error {
        GenerationError::InvalidCoordinates(_) => GeneratorFailure::InvalidCoordinates,
        GenerationError::InvalidDivisionLevel(_) => GeneratorFailure::InvalidDivisionLevel,
        GenerationError::InterestingSystemNotFound { tries } => {
            GeneratorFailure::InterestingSystemNotFound { tries: *tries }
        },
        GenerationError::InvalidSettings(_) => GeneratorFailure::InvalidSettings,
        GenerationError::InternalInvariant(_) => GeneratorFailure::InternalInvariant,
        _ => GeneratorFailure::Other,
    }
}

/// Reads the field `name` of the star system.
#[verifier::external_body]
pub(crate) fn read_name(system: &StarSystem) -> (name: String)
    ensures
        name@ == system_name(*system),
{
    system.name.to_string()
}

/// Reads the field `center_id` of the star system.
#[verifier::external_body]
pub(crate) fn read_center(system: &StarSystem) -> (id: u32)
    ensures
        id == system_center(*system),
{
    system.center_id
}

/// Reads the field `main_star_id` of the star system.
#[verifier::external_body]
pub(crate) fn read_main_star(system: &StarSystem) -> (id: u32)
    ensures
        id == system_main_star(*system),
{
    system.main_star_id
}

/// The length of the field `all_objects` of the star system.
#[verifier::external_body]
pub(crate) fn count_points(system: &StarSystem) -> (count: usize)
    ensures
        count == system_points(*system).len(),
{
    system.all_objects.len()
}

/// Reads the field `id` of the point at `i`.
#[verifier::external_body]
pub(crate) fn read_point_id(system: &StarSystem, i: usize) -> (id: u32)
    requires
        i < system_points(*system).len(),
    ensures
        id == system_points(*system)[i as int].id,
{
    system.all_objects[i].id
}

/// Reads the field `own_orbit` of the point at `i`: the id of its primary
/// and the bits of its average distance.
#[verifier::external_body]
pub(crate) fn read_own_orbit(system: &StarSystem, i: usize) -> (orbit: Option<OrbitRecord>)
    requires
        i < system_points(*system).len(),
    ensures
        orbit == system_points(*system)[i as int].own_orbit,
{
    system.all_objects[i].own_orbit.as_ref().map(
        |orbit|
            OrbitRecord {
                primary_body_id: orbit.primary_body_id,
                average_distance: orbit.average_distance.to_bits(),
            },
    )
}

/// Reads the field `orbits` of the point at `i`: the field `id` of each.
#[verifier::external_body]
pub(crate) fn read_orbit_slots(system: &StarSystem, i: usize) -> (slots: Vec<Option<u32>>)
    requires
        i < system_points(*system).len(),
    ensures
        slots@ == system_points(*system)[i as int].orbit_slots,
{
    system.all_objects[i].orbits.iter().map(|orbit| orbit.id).collect()
}

/// Tells the variants of the field `object` of the point at `i` apart, and
/// reads the numbers of a star: the bits of its mass, luminosity, radius and
/// age, and its temperature.
#[verifier::external_body]
pub(crate) fn read_object(system: &StarSystem, i: usize) -> (kind: ObjectKind)
    requires
        i < system_points(*system).len(),
    ensures
        kind == system_points(*system)[i as int].object,
{
    match &system.all_objects[i].object {
        AstronomicalObject::Void => ObjectKind::Void,
        AstronomicalObject::Star(star) => ObjectKind::Star(StarFacts {
            mass: star.mass.to_bits(), radius: star.radius.to_bits(),
            luminosity: star.luminosity.to_bits(), age: star.age.to_bits(),
            temperature: star.temperature,
        }),
        AstronomicalObject::TelluricBody(_) => ObjectKind::TelluricBody,
        AstronomicalObject::IcyBody(_) => ObjectKind::IcyBody,
        AstronomicalObject::GaseousBody(_) => ObjectKind::GaseousBody,
        AstronomicalObject::TelluricDisk(_) => ObjectKind::TelluricDisk,
        AstronomicalObject::IcyDisk(_) => ObjectKind::IcyDisk,
        AstronomicalObject::GaseousDisk(_) => ObjectKind::GaseousDisk,
        AstronomicalObject::Spacecraft => ObjectKind::Spacecraft,
    }
}

} // verus!
