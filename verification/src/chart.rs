//! Reading the orbital hierarchy out of a star system that the generator
//! made, and deciding whether the system may be handed out.

use vstd::prelude::*;
use planet_generator::prelude::StarSystem;
use crate::failure::PipelineError;
use crate::generator::{
    count_points, read_center, read_main_star, read_name, read_object, read_orbit_slots,
    read_own_orbit, read_point_id, system_center, system_main_star, system_name, system_points,
};
use crate::hierarchy::{
    distances_follow_primaries, ForestModel, ObjectKind, OrbitalForest, OrbitalPoint, PointModel,
};

verus! {

/// The orbit of a point as the generator records it: the id of the primary
/// and the mean distance to it, in astronomical units, as the bit pattern of
/// an IEEE 754 double.
#[derive(Clone, Copy, Debug, PartialEq, Eq, Structural)]
pub struct OrbitRecord {
    pub primary_body_id: u32,
    pub average_distance: u64,
}

/// An orbital point as the generator records it.
pub ghost struct PointRecord {
    pub id: u32,
    /// The orbit of the point itself; `None` for a point that orbits nothing.
    pub own_orbit: Option<OrbitRecord>,
    /// The orbits around the point, each with the id of the point in it, or
    /// `None` where the orbit is empty.
    pub orbit_slots: Seq<Option<u32>>,
    pub object: ObjectKind,
}

/// The ids in the orbits that are not empty, in the order of the orbits.
pub open spec fn occupied(slots: Seq<Option<u32>>) -> Seq<u32>
    decreases slots.len(),
{
    if slots.len() == 0 {
        Seq::empty()
    } else {
        match slots.last() {
            Some(id) => occupied(slots.drop_last()).push(id),
            None => occupied(slots.drop_last()),
        }
    }
}

/// The orbital point that a record of the generator stands for: its primary
/// and its distance come from its own orbit, its satellites from the orbits
/// around it that are not empty.
pub open spec fn point_of(record: PointRecord) -> PointModel {
    PointModel {
        id: record.id,
        primary_body_id: match record.own_orbit {
            Some(orbit) => Some(orbit.primary_body_id),
            None => None,
        },
        distance_from_primary: match record.own_orbit {
            Some(orbit) => Some(orbit.average_distance),
            None => None,
        },
        satellite_ids: occupied(record.orbit_slots),
        object: record.object,
    }
}

/// The orbital hierarchy of a star system of the generator.
pub open spec fn forest_of(system: StarSystem) -> ForestModel {
    ForestModel {
        name: system_name(system),
        center_id: system_center(system),
        main_star_id: system_main_star(system),
        points: Seq::new(system_points(system).len(), |i: int| point_of(system_points(system)[i])),
    }
}

/// What becomes of a star system that the generator made: it is handed out
/// where its hierarchy is sound, and refused with the first defect otherwise.
pub open spec fn release_verdict(system: StarSystem) -> Result<StarSystem, PipelineError> {
    match forest_of(system).first_defect() {
        None => Ok(system),
        Some(defect) => Err(PipelineError::BrokenHierarchy(defect)),
    }
}

/// Collects the ids in the orbits that are not empty.
pub fn occupied_slots(slots: &Vec<Option<u32>>) -> (ids: Vec<u32>)
    ensures
        ids@ == occupied(slots@),
{
    let mut ids: Vec<u32> = Vec::new();
    let mut i: usize = 0;
    while i < slots.len()
        invariant
            i <= slots.len(),
            ids@ == occupied(slots@.take(i as int)),
        decreases slots.len() - i,
    {
        proof {
            assert(slots@.take(i + 1).drop_last() == slots@.take(i as int));
            assert(slots@.take(i + 1).last() == slots@[i as int]);
        }
        match slots[i] {
            Some(id) => {
                ids.push(id);
            },
            None => {},
        }
        i += 1;
    }
    proof {
        assert(slots@.take(slots@.len() as int) == slots@);
    }
    ids
}

/// Builds an orbital point from what the generator records of it.
pub fn point_from_record(
    id: u32,
    own_orbit: Option<OrbitRecord>,
    orbit_slots: &Vec<Option<u32>>,
    object: ObjectKind,
) -> (point: OrbitalPoint)
    ensures
        point@ == point_of((PointRecord { id, own_orbit, orbit_slots: orbit_slots@, object })),
{
    let satellite_ids = occupied_slots(orbit_slots);
    match own_orbit {
        Some(orbit) => OrbitalPoint {
            id,
            primary_body_id: Some(orbit.primary_body_id),
            distance_from_primary: Some(orbit.average_distance),
            satellite_ids,
            object,
        },
        None => OrbitalPoint {
            id,
            primary_body_id: None,
            distance_from_primary: None,
            satellite_ids,
            object,
        },
    }
}

/// Reads the orbital hierarchy out of a star system.
pub fn chart(system: &StarSystem) -> (forest: OrbitalForest)
    ensures
        forest@ == forest_of(*system),
{
    let count = count_points(system);
    let mut all_objects: Vec<OrbitalPoint> = Vec::new();
    let mut i: usize = 0;
    while i < count
        invariant
            count == system_points(*system).len(),
            i <= count,
            all_objects@.len() == i,
            forall|k: int|
                0 <= k < i ==> (#[trigger] all_objects@[k])@ == point_of(system_points(*system)[k]),
        decreases count - i,
    {
        let id = read_point_id(system, i);
        let own_orbit = read_own_orbit(system, i);
        let orbit_slots = read_orbit_slots(system, i);
        let object = read_object(system, i);
        let point = point_from_record(id, own_orbit, &orbit_slots, object);
        all_objects.push(point);
        i += 1;
    }
    let forest = OrbitalForest {
        name: read_name(system),
        center_id: read_center(system),
        main_star_id: read_main_star(system),
        all_objects,
    };
    proof {
        assert(forest@.points =~= forest_of(*system).points);
    }
    forest
}

/// Hands a star system out where its hierarchy is sound, and refuses it with
/// the first defect otherwise.
pub fn release(system: StarSystem) -> (released: Result<StarSystem, PipelineError>)
    ensures
        released == release_verdict(system),
        released matches Ok(sound) ==> sound == system && forest_of(sound).is_sound(),
        released is Ok <==> forest_of(system).is_sound(),
{
    let forest = chart(&system);
    match forest.first_defect() {
        None => Ok(system),
        Some(defect) => Err(PipelineError::BrokenHierarchy(defect)),
    }
}

/// In the hierarchy of any star system of the generator, sound or not, a
/// point has a distance to its primary exactly when it has a primary.
pub proof fn lemma_charted_distances_follow_primaries(system: StarSystem)
    ensures
        distances_follow_primaries(forest_of(system).points),
{
}

} // verus!
