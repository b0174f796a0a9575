//! The orbital hierarchy of a star system: a forest of orbital points, each
//! linked to the point it orbits and to the points that orbit it, held in one
//! sequence and linked by id.

use vstd::prelude::*;
use crate::failure::ForestDefect;

verus! {

/// The numbers of a star. Those that the generator holds as fractions are
/// kept as the bit patterns of their IEEE 754 values.
#[derive(Clone, Copy, Debug, PartialEq, Eq, Structural)]
pub struct StarFacts {
    /// The mass, in solar masses: the bit pattern of a double.
    pub mass: u64,
    /// The luminosity, in solar luminosities: the bit pattern of a single.
    pub luminosity: u32,
    /// The radius, in solar radii: the bit pattern of a double.
    pub radius: u64,
    /// The age, in billions of years: the bit pattern of a single.
    pub age: u32,
    /// The temperature, in kelvins.
    pub temperature: u32,
}

/// What sits at an orbital point.
#[derive(Clone, Copy, Debug, PartialEq, Eq, Structural)]
pub enum ObjectKind {
    /// Nothing: a barycentre, or an empty orbital slot.
    Void,
    /// A star, with its numbers.
    Star(StarFacts),
    /// A body of rock or metal.
    TelluricBody,
    /// A body of ices and rock.
    IcyBody,
    /// A body of gas without a solid surface.
    GaseousBody,
    /// A disk of rock, metal or dust.
    TelluricDisk,
    /// A disk of ices.
    IcyDisk,
    /// A disk of gas.
    GaseousDisk,
    /// A vehicle or habitat that somebody built.
    Spacecraft,
}

/// One node of the orbital forest.
#[derive(Clone, Debug)]
pub struct OrbitalPoint {
    /// The id of this point, unique in its system.
    pub id: u32,
    /// The id of the point that this one orbits; `None` for a root.
    pub primary_body_id: Option<u32>,
    /// The mean distance to the primary, in astronomical units, as the bit
    /// pattern of an IEEE 754 double; `None` for a root.
    pub distance_from_primary: Option<u64>,
    /// The ids of the points that orbit this one, in the order of their orbits.
    pub satellite_ids: Vec<u32>,
    /// What sits at this point.
    pub object: ObjectKind,
}

/// The mathematical value of an `OrbitalPoint`.
pub ghost struct PointModel {
    pub id: u32,
    pub primary_body_id: Option<u32>,
    pub distance_from_primary: Option<u64>,
    pub satellite_ids: Seq<u32>,
    pub object: ObjectKind,
}

impl View for OrbitalPoint {
    type V = PointModel;

    open spec fn view(&self) -> PointModel {
        PointModel {
            id: self.id,
            primary_body_id: self.primary_body_id,
            distance_from_primary: self.distance_from_primary,
            satellite_ids: self.satellite_ids@,
            object: self.object,
        }
    }
}

/// A star system: its name, the ids of its centre and of its main star, and
/// its orbital points in the order in which they were made.
#[derive(Clone, Debug)]
pub struct OrbitalForest {
    pub name: String,
    pub center_id: u32,
    pub main_star_id: u32,
    pub all_objects: Vec<OrbitalPoint>,
}

/// The mathematical value of an `OrbitalForest`.
pub ghost struct ForestModel {
    pub name: Seq<char>,
    pub center_id: u32,
    pub main_star_id: u32,
    pub points: Seq<PointModel>,
}

/// The values of the points of a vector, in order.
pub open spec fn point_models(points: Seq<OrbitalPoint>) -> Seq<PointModel> {
    Seq::new(points.len(), |i: int| points[i]@)
}

impl View for OrbitalForest {
    type V = ForestModel;

    open spec fn view(&self) -> ForestModel {
        ForestModel {
            name: self.name@,
            center_id: self.center_id,
            main_star_id: self.main_star_id,
            points: point_models(self.all_objects@),
        }
    }
}

/// Whether `id` stands at exactly one place of `ids`.
pub open spec fn listed_once(ids: Seq<u32>, id: u32) -> bool {
    exists|k: int|
        0 <= k < ids.len() && #[trigger] ids[k] == id && forall|m: int|
            0 <= m < ids.len() && #[trigger] ids[m] == id ==> m == k
}

/// Whether some point of `points` has the id `id`.
pub open spec fn has_point(points: Seq<PointModel>, id: u32) -> bool {
    exists|i: int| 0 <= i < points.len() && (#[trigger] points[i]).id == id
}

/// No two points share an id.
pub open spec fn ids_are_unique(points: Seq<PointModel>) -> bool {
    forall|i: int, j: int|
        0 <= i < j < points.len() ==> (#[trigger] points[i]).id != (#[trigger] points[j]).id
}

/// A point has a distance to its primary exactly when it has a primary.
pub open spec fn distances_follow_primaries(points: Seq<PointModel>) -> bool {
    forall|i: int|
        0 <= i < points.len() ==> ((#[trigger] points[i]).primary_body_id is None
            <==> points[i].distance_from_primary is None)
}

/// The point at `i` is a root, or its primary is a point of `points` that
/// lists it exactly once among its satellites.
pub open spec fn primary_link_holds(points: Seq<PointModel>, i: int) -> bool {
    points[i].primary_body_id matches Some(primary) ==> exists|j: int|
        0 <= j < points.len() && (#[trigger] points[j]).id == primary && listed_once(
            points[j].satellite_ids,
            points[i].id,
        )
}

/// Every point that names a primary is listed exactly once by that primary.
pub open spec fn primary_links_hold(points: Seq<PointModel>) -> bool {
    forall|i: int| 0 <= i < points.len() ==> #[trigger] primary_link_holds(points, i)
}

/// The satellite at place `k` of the point at `j` is a point of `points`
/// whose primary is the point at `j`.
pub open spec fn satellite_link_holds(points: Seq<PointModel>, j: int, k: int) -> bool {
    exists|i: int|
        0 <= i < points.len() && (#[trigger] points[i]).id == points[j].satellite_ids[k]
            && points[i].primary_body_id == Some(points[j].id)
}

/// Every id among a point's satellites is that of a point that orbits it.
pub open spec fn satellite_links_hold(points: Seq<PointModel>) -> bool {
    forall|j: int, k: int|
        0 <= j < points.len() && 0 <= k < points[j].satellite_ids.len()
            ==> #[trigger] satellite_link_holds(points, j, k)
}

/// The bit pattern of the double that stands for infinity: the greatest
/// bit pattern of a double that is greater than zero.
pub const INFINITE_DISTANCE: u64 = 0x7FF0_0000_0000_0000;

/// The bit pattern of the double that stands for zero with the sign set.
pub const NEGATIVE_ZERO_DOUBLE: u64 = 0x8000_0000_0000_0000;

/// The bit pattern of the single that stands for infinity.
pub const INFINITE_SINGLE: u32 = 0x7F80_0000;

/// The bit pattern of the single that stands for zero with the sign set.
pub const NEGATIVE_ZERO_SINGLE: u32 = 0x8000_0000;

/// Whether the double with the bit pattern `bits` is not less than zero:
/// zero of either sign, or a number above zero up to infinity.
pub open spec fn is_non_negative_double(bits: u64) -> bool {
    bits <= INFINITE_DISTANCE || bits == NEGATIVE_ZERO_DOUBLE
}

/// Whether the single with the bit pattern `bits` is not less than zero.
pub open spec fn is_non_negative_single(bits: u32) -> bool {
    bits <= INFINITE_SINGLE || bits == NEGATIVE_ZERO_SINGLE
}

impl StarFacts {
    /// Whether mass, luminosity, radius and age are not less than zero. The
    /// temperature is a count of kelvins and cannot be.
    pub open spec fn is_physical(self) -> bool {
        &&& is_non_negative_double(self.mass)
        &&& is_non_negative_single(self.luminosity)
        &&& is_non_negative_double(self.radius)
        &&& is_non_negative_single(self.age)
    }

    /// Decides whether mass, luminosity, radius and age are not less than
    /// zero.
    pub fn has_physical_numbers(&self) -> (physical: bool)
        ensures
            physical == self.is_physical(),
    {
        (self.mass <= INFINITE_DISTANCE || self.mass == NEGATIVE_ZERO_DOUBLE) && (self.luminosity
            <= INFINITE_SINGLE || self.luminosity == NEGATIVE_ZERO_SINGLE) && (self.radius
            <= INFINITE_DISTANCE || self.radius == NEGATIVE_ZERO_DOUBLE) && (self.age
            <= INFINITE_SINGLE || self.age == NEGATIVE_ZERO_SINGLE)
    }
}

/// No star has a mass, a luminosity, a radius or an age below zero.
pub open spec fn stars_are_physical(points: Seq<PointModel>) -> bool {
    forall|i: int|
        0 <= i < points.len() && (#[trigger] points[i]).object is Star
            ==> points[i].object->Star_0.is_physical()
}

/// Whether the double with the bit pattern `bits` is greater than zero.
pub open spec fn is_positive_distance(bits: u64) -> bool {
    0 < bits <= INFINITE_DISTANCE
}

/// Every distance to a primary is greater than zero.
pub open spec fn distances_are_positive(points: Seq<PointModel>) -> bool {
    forall|i: int|
        0 <= i < points.len() && (#[trigger] points[i]).distance_from_primary is Some
            ==> is_positive_distance(points[i].distance_from_primary->0)
}

/// No two points that orbit the same primary do so at the same distance.
pub open spec fn siblings_keep_apart(points: Seq<PointModel>) -> bool {
    forall|i: int, j: int|
        0 <= i < j < points.len() && (#[trigger] points[i]).primary_body_id is Some
            && points[i].primary_body_id == (#[trigger] points[j]).primary_body_id
            ==> points[i].distance_from_primary != points[j].distance_from_primary
}

/// Some point with the id `id` holds a star.
pub open spec fn hosts_star(points: Seq<PointModel>, id: u32) -> bool {
    exists|i: int|
        0 <= i < points.len() && (#[trigger] points[i]).id == id && points[i].object
            is Star
}

/// Whether the point at `place` is the first with the id `id`.
pub open spec fn is_first_with_id(points: Seq<PointModel>, id: u32, place: int) -> bool {
    &&& 0 <= place < points.len()
    &&& points[place].id == id
    &&& forall|k: int| 0 <= k < place ==> (#[trigger] points[k]).id != id
}

/// Whether a climb from the point at `i`, each step to the first point with
/// the id of the primary, ends at a root after `steps` steps at most.
pub open spec fn reaches_root(points: Seq<PointModel>, i: int, steps: nat) -> bool
    decreases steps,
{
    &&& 0 <= i < points.len()
    &&& points[i].primary_body_id is Some ==> steps > 0 && exists|j: int|
        #[trigger] is_first_with_id(points, points[i].primary_body_id->0, j) && reaches_root(
            points,
            j,
            (steps - 1) as nat,
        )
}

/// Every point hangs from a root: a climb from it ends at a root after as
/// many steps as there are points, at most. So no point orbits in a circle.
pub open spec fn hangs_from_roots(points: Seq<PointModel>) -> bool {
    forall|i: int| 0 <= i < points.len() ==> #[trigger] reaches_root(points, i, points.len())
}

/// The point with the id `id` exists and orbits nothing.
pub open spec fn is_root(points: Seq<PointModel>, id: u32) -> bool {
    exists|i: int|
        0 <= i < points.len() && (#[trigger] points[i]).id == id
            && points[i].primary_body_id is None
}

impl ForestModel {
    /// Primaries and satellites refer to each other, in both directions.
    pub open spec fn has_referential_integrity(self) -> bool {
        primary_links_hold(self.points) && satellite_links_hold(self.points)
    }

    /// Roots, and only roots, lack a distance, and the centre is a root.
    pub open spec fn has_consistent_roots(self) -> bool {
        distances_follow_primaries(self.points) && is_root(self.points, self.center_id)
    }

    /// The points form a forest with orbits that can be told apart, the
    /// main star is one of its stars, and no star has a number below zero.
    pub open spec fn is_a_forest_with_a_main_star(self) -> bool {
        &&& distances_are_positive(self.points)
        &&& hangs_from_roots(self.points)
        &&& hosts_star(self.points, self.main_star_id)
        &&& siblings_keep_apart(self.points)
        &&& stars_are_physical(self.points)
    }

    /// Everything that must hold of a star system before it is handed out.
    pub open spec fn is_sound(self) -> bool {
        &&& ids_are_unique(self.points)
        &&& self.has_referential_integrity()
        &&& self.has_consistent_roots()
        &&& self.is_a_forest_with_a_main_star()
    }

    /// What is wrong with the system, if anything: the first that fails of
    /// unique ids, links to primaries, links to satellites, distances where
    /// they belong, distances above zero, a centre that is a root, points
    /// that hang from roots, a main star that is a star, siblings at
    /// distances of their own, stars without a number below zero.
    pub open spec fn first_defect(self) -> Option<ForestDefect> {
        if !ids_are_unique(self.points) {
            Some(ForestDefect::DuplicateId)
        } else if !primary_links_hold(self.points) {
            Some(ForestDefect::BrokenPrimaryLink)
        } else if !satellite_links_hold(self.points) {
            Some(ForestDefect::BrokenSatelliteLink)
        } else if !distances_follow_primaries(self.points) {
            Some(ForestDefect::MisplacedDistance)
        } else if !distances_are_positive(self.points) {
            Some(ForestDefect::DistanceNotPositive)
        } else if !is_root(self.points, self.center_id) {
            Some(ForestDefect::CenterIsNoRoot)
        } else if !hangs_from_roots(self.points) {
            Some(ForestDefect::DetachedFromRoots)
        } else if !hosts_star(self.points, self.main_star_id) {
            Some(ForestDefect::MainStarIsNoStar)
        } else if !siblings_keep_apart(self.points) {
            Some(ForestDefect::SiblingsCollide)
        } else if !stars_are_physical(self.points) {
            Some(ForestDefect::UnphysicalStar)
        } else {
            None
        }
    }
}

/// Decides whether the double with the bit pattern `bits` is greater than
/// zero.
pub fn distance_is_positive(bits: u64) -> (positive: bool)
    ensures
        positive == is_positive_distance(bits),
{
    0 < bits && bits <= INFINITE_DISTANCE
}

/// Decides whether two optional ids are both absent, or both present and
/// equal.
pub fn same_id(one: Option<u32>, other: Option<u32>) -> (same: bool)
    ensures
        same == (one == other),
{
    match (one, other) {
        (Some(a), Some(b)) => a == b,
        (None, None) => true,
        _ => false,
    }
}

/// Decides whether two optional distances are both absent, or both present
/// and of the same bit pattern.
pub fn same_distance(one: Option<u64>, other: Option<u64>) -> (same: bool)
    ensures
        same == (one == other),
{
    match (one, other) {
        (Some(a), Some(b)) => a == b,
        (None, None) => true,
        _ => false,
    }
}

/// Decides whether `id` stands at exactly one place of `ids`.
pub fn lists_once(ids: &Vec<u32>, id: u32) -> (once: bool)
    ensures
        once == listed_once(ids@, id),
{
    let mut first: usize = 0;
    while first < ids.len() && ids[first] != id
        invariant
            first <= ids.len(),
            forall|m: int| 0 <= m < first ==> ids@[m] != id,
        decreases ids.len() - first,
    {
        first += 1;
    }
    if first == ids.len() {
        return false;
    }
    let mut next: usize = first + 1;
    while next < ids.len()
        invariant
            first < next <= ids.len(),
            ids@[first as int] == id,
            forall|m: int| 0 <= m < next && ids@[m] == id ==> m == first,
        decreases ids.len() - next,
    {
        if ids[next] == id {
            proof {
                assert forall|k: int| 0 <= k < ids@.len() && ids@[k] == id implies !(forall|m: int|
                    0 <= m < ids@.len() && #[trigger] ids@[m] == id ==> m == k) by {
                    if k == first {
                        assert(ids@[next as int] == id);
                    } else {
                        assert(ids@[first as int] == id);
                    }
                }
            }
            return false;
        }
        next += 1;
    }
    true
}

impl OrbitalForest {
    /// The number of orbital points.
    pub fn len(&self) -> (n: usize)
        ensures
            n == self@.points.len(),
    {
        self.all_objects.len()
    }

    /// The place of the first point with the id `id`, if there is one.
    pub fn position_of(&self, id: u32) -> (found: Option<usize>)
        ensures
            match found {
                Some(i) => i < self@.points.len() && self@.points[i as int].id == id && forall|
                    k: int,
                | 0 <= k < i ==> (#[trigger] self@.points[k]).id != id,
                None => !has_point(self@.points, id),
            },
    {
        let mut i: usize = 0;
        while i < self.all_objects.len()
            invariant
                i <= self.all_objects.len(),
                forall|k: int| 0 <= k < i ==> (#[trigger] self@.points[k]).id != id,
            decreases self.all_objects.len() - i,
        {
            if self.all_objects[i].id == id {
                return Some(i);
            }
            i += 1;
        }
        None
    }

    /// The first point with the id `id`, if there is one.
    pub fn get_point(&self, id: u32) -> (found: Option<&OrbitalPoint>)
        ensures
            found is Some <==> has_point(self@.points, id),
            found matches Some(p) ==> p.id == id && exists|i: int|
                0 <= i < self@.points.len() && #[trigger] self@.points[i] == p@ && forall|k: int|
                    0 <= k < i ==> (#[trigger] self@.points[k]).id != id,
    {
        match self.position_of(id) {
            Some(i) => {
                assert(self@.points[i as int] == self.all_objects@[i as int]@);
                Some(&self.all_objects[i])
            },
            None => None,
        }
    }

    /// Decides whether no two points share an id.
    pub fn has_unique_ids(&self) -> (unique: bool)
        ensures
            unique == ids_are_unique(self@.points),
    {
        let n = self.all_objects.len();
        let mut j: usize = 0;
        while j < n
            invariant
                n == self.all_objects.len(),
                j <= n,
                forall|a: int, b: int|
                    0 <= a < b < j ==> (#[trigger] self@.points[a]).id != (
                    #[trigger] self@.points[b]).id,
            decreases n - j,
        {
            let mut i: usize = 0;
            while i < j
                invariant
                    n == self.all_objects.len(),
                    i <= j < n,
                    forall|a: int|
                        0 <= a < i ==> (#[trigger] self@.points[a]).id != self@.points[j as int].id,
                decreases j - i,
            {
                if self.all_objects[i].id == self.all_objects[j].id {
                    assert(self@.points[i as int].id == self@.points[j as int].id);
                    return false;
                }
                i += 1;
            }
            j += 1;
        }
        true
    }

    /// Decides whether exactly the roots lack a distance.
    pub fn distances_follow_primaries(&self) -> (ok: bool)
        ensures
            ok == distances_follow_primaries(self@.points),
    {
        let mut i: usize = 0;
        while i < self.all_objects.len()
            invariant
                i <= self.all_objects.len(),
                forall|a: int|
                    0 <= a < i ==> ((#[trigger] self@.points[a]).primary_body_id is None
                        <==> self@.points[a].distance_from_primary is None),
            decreases self.all_objects.len() - i,
        {
            let point = &self.all_objects[i];
            if point.primary_body_id.is_none() != point.distance_from_primary.is_none() {
                assert(!(self@.points[i as int].primary_body_id is None
                    <==> self@.points[i as int].distance_from_primary is None));
                return false;
            }
            i += 1;
        }
        true
    }

    /// Decides whether the point at `i` is a root or is listed exactly once
    /// by a point with the id of its primary.
    pub fn primary_link_holds(&self, i: usize) -> (ok: bool)
        requires
            i < self@.points.len(),
        ensures
            ok == primary_link_holds(self@.points, i as int),
    {
        let id = self.all_objects[i].id;
        match self.all_objects[i].primary_body_id {
            None => true,
            Some(primary) => {
                let mut j: usize = 0;
                while j < self.all_objects.len()
                    invariant
                        j <= self.all_objects.len(),
                        i < self@.points.len(),
                        id == self@.points[i as int].id,
                        self@.points[i as int].primary_body_id == Some(primary),
                        forall|b: int|
                            0 <= b < j ==> !((#[trigger] self@.points[b]).id == primary
                                && listed_once(self@.points[b].satellite_ids, id)),
                    decreases self.all_objects.len() - j,
                {
                    if self.all_objects[j].id == primary && lists_once(
                        &self.all_objects[j].satellite_ids,
                        id,
                    ) {
                        assert(self@.points[j as int].id == primary && listed_once(
                            self@.points[j as int].satellite_ids,
                            id,
                        ));
                        return true;
                    }
                    j += 1;
                }
                false
            },
        }
    }

    /// Decides whether every point that names a primary is listed exactly
    /// once by that primary.
    pub fn primary_links_hold(&self) -> (ok: bool)
        ensures
            ok == primary_links_hold(self@.points),
    {
        let mut i: usize = 0;
        while i < self.all_objects.len()
            invariant
                i <= self.all_objects.len(),
                forall|a: int| 0 <= a < i ==> #[trigger] primary_link_holds(self@.points, a),
            decreases self.all_objects.len() - i,
        {
            if !self.primary_link_holds(i) {
                return false;
            }
            i += 1;
        }
        true
    }

    /// Decides whether the satellite at place `k` of the point at `j` is a
    /// point that names the point at `j` as its primary.
    pub fn satellite_link_holds(&self, j: usize, k: usize) -> (ok: bool)
        requires
            j < self@.points.len(),
            k < self@.points[j as int].satellite_ids.len(),
        ensures
            ok == satellite_link_holds(self@.points, j as int, k as int),
    {
        let owner = self.all_objects[j].id;
        let satellite = self.all_objects[j].satellite_ids[k];
        let mut i: usize = 0;
        while i < self.all_objects.len()
            invariant
                i <= self.all_objects.len(),
                j < self@.points.len(),
                k < self@.points[j as int].satellite_ids.len(),
                owner == self@.points[j as int].id,
                satellite == self@.points[j as int].satellite_ids[k as int],
                forall|a: int|
                    0 <= a < i ==> !((#[trigger] self@.points[a]).id == satellite
                        && self@.points[a].primary_body_id == Some(owner)),
            decreases self.all_objects.len() - i,
        {
            if self.all_objects[i].id == satellite {
                match self.all_objects[i].primary_body_id {
                    Some(primary) => {
                        if primary == owner {
                            assert(self@.points[i as int].id == satellite
                                && self@.points[i as int].primary_body_id == Some(owner));
                            return true;
                        }
                    },
                    None => {},
                }
            }
            i += 1;
        }
        false
    }

    /// Decides whether every id among a point's satellites is that of a
    /// point that orbits it.
    pub fn satellite_links_hold(&self) -> (ok: bool)
        ensures
            ok == satellite_links_hold(self@.points),
    {
        let mut j: usize = 0;
        while j < self.all_objects.len()
            invariant
                j <= self.all_objects.len(),
                forall|b: int, k: int|
                    0 <= b < j && 0 <= k < self@.points[b].satellite_ids.len()
                        ==> #[trigger] satellite_link_holds(self@.points, b, k),
            decreases self.all_objects.len() - j,
        {
            let mut k: usize = 0;
            while k < self.all_objects[j].satellite_ids.len()
                invariant
                    j < self.all_objects.len(),
                    k <= self@.points[j as int].satellite_ids.len(),
                    forall|c: int|
                        0 <= c < k ==> #[trigger] satellite_link_holds(self@.points, j as int, c),
                decreases self.all_objects[j as int].satellite_ids.len() - k,
            {
                if !self.satellite_link_holds(j, k) {
                    return false;
                }
                k += 1;
            }
            j += 1;
        }
        true
    }

    /// Decides whether the centre is a point that orbits nothing.
    pub fn center_is_root(&self) -> (ok: bool)
        ensures
            ok == is_root(self@.points, self@.center_id),
    {
        let mut i: usize = 0;
        while i < self.all_objects.len()
            invariant
                i <= self.all_objects.len(),
                forall|a: int|
                    0 <= a < i ==> !((#[trigger] self@.points[a]).id == self.center_id
                        && self@.points[a].primary_body_id is None),
            decreases self.all_objects.len() - i,
        {
            if self.all_objects[i].id == self.center_id
                && self.all_objects[i].primary_body_id.is_none() {
                assert(self@.points[i as int].id == self.center_id
                    && self@.points[i as int].primary_body_id is None);
                return true;
            }
            i += 1;
        }
        false
    }

    /// Decides whether every distance to a primary is greater than zero.
    pub fn distances_are_positive(&self) -> (ok: bool)
        ensures
            ok == distances_are_positive(self@.points),
    {
        let mut i: usize = 0;
        while i < self.all_objects.len()
            invariant
                i <= self.all_objects.len(),
                forall|a: int|
                    0 <= a < i && (#[trigger] self@.points[a]).distance_from_primary is Some
                        ==> is_positive_distance(self@.points[a].distance_from_primary->0),
            decreases self.all_objects.len() - i,
        {
            match self.all_objects[i].distance_from_primary {
                Some(bits) => {
                    if !distance_is_positive(bits) {
                        assert(self@.points[i as int].distance_from_primary is Some
                            && !is_positive_distance(
                            self@.points[i as int].distance_from_primary->0,
                        ));
                        return false;
                    }
                },
                None => {},
            }
            i += 1;
        }
        true
    }

    /// Decides whether some point with the id of the main star holds a star.
    pub fn main_star_is_a_star(&self) -> (ok: bool)
        ensures
            ok == hosts_star(self@.points, self@.main_star_id),
    {
        let mut i: usize = 0;
        while i < self.all_objects.len()
            invariant
                i <= self.all_objects.len(),
                forall|a: int|
                    0 <= a < i ==> !((#[trigger] self@.points[a]).id == self.main_star_id
                        && self@.points[a].object is Star),
            decreases self.all_objects.len() - i,
        {
            if self.all_objects[i].id == self.main_star_id {
                match self.all_objects[i].object {
                    ObjectKind::Star(_) => {
                        assert(self@.points[i as int].id == self.main_star_id
                            && self@.points[i as int].object is Star);
                        return true;
                    },
                    _ => {},
                }
            }
            i += 1;
        }
        false
    }

    /// Decides whether a climb from the point at `i`, each step to the first
    /// point with the id of the primary, ends at a root after as many steps
    /// as there are points, at most.
    pub fn reaches_root(&self, i: usize) -> (ok: bool)
        requires
            i < self@.points.len(),
        ensures
            ok == reaches_root(self@.points, i as int, self@.points.len()),
    {
        let mut current: usize = i;
        let mut steps: usize = self.all_objects.len();
        loop
            invariant
                current < self@.points.len(),
                steps <= self@.points.len(),
                self@.points.len() == self.all_objects.len(),
                reaches_root(self@.points, i as int, self@.points.len()) == reaches_root(
                    self@.points,
                    current as int,
                    steps as nat,
                ),
            decreases steps,
        {
            match self.all_objects[current].primary_body_id {
                None => {
                    assert(self@.points[current as int].primary_body_id is None);
                    return true;
                },
                Some(primary) => {
                    assert(self@.points[current as int].primary_body_id == Some(primary));
                    if steps == 0 {
                        return false;
                    }
                    match self.position_of(primary) {
                        None => {
                            proof {
                                let points = self@.points;
                                assert forall|j: int| !is_first_with_id(points, primary, j) by {
                                    if is_first_with_id(points, primary, j) {
                                        assert(points[j].id == primary);
                                    }
                                }
                            }
                            return false;
                        },
                        Some(next) => {
                            proof {
                                let points = self@.points;
                                assert(is_first_with_id(points, primary, next as int));
                                assert forall|j: int|
                                    is_first_with_id(points, primary, j) implies j == next by {
                                    if j < next {
                                        assert(points[j].id != primary);
                                    } else if next < j {
                                        assert(points[next as int].id != primary);
                                    }
                                }
                            }
                            current = next;
                            steps -= 1;
                        },
                    }
                },
            }
        }
    }

    /// Decides whether every point hangs from a root.
    pub fn hangs_from_roots(&self) -> (ok: bool)
        ensures
            ok == hangs_from_roots(self@.points),
    {
        let mut i: usize = 0;
        while i < self.all_objects.len()
            invariant
                i <= self.all_objects.len(),
                forall|a: int|
                    0 <= a < i ==> #[trigger] reaches_root(self@.points, a, self@.points.len()),
            decreases self.all_objects.len() - i,
        {
            if !self.reaches_root(i) {
                return false;
            }
            i += 1;
        }
        true
    }

    /// Decides whether no two points that orbit the same primary do so at
    /// the same distance.
    pub fn siblings_keep_apart(&self) -> (ok: bool)
        ensures
            ok == siblings_keep_apart(self@.points),
    {
        let n = self.all_objects.len();
        let mut j: usize = 0;
        while j < n
            invariant
                n == self.all_objects.len(),
                j <= n,
                forall|a: int, b: int|
                    0 <= a < b < j && (#[trigger] self@.points[a]).primary_body_id is Some
                        && self@.points[a].primary_body_id == (
                    #[trigger] self@.points[b]).primary_body_id
                        ==> self@.points[a].distance_from_primary
                        != self@.points[b].distance_from_primary,
            decreases n - j,
        {
            let mut i: usize = 0;
            while i < j
                invariant
                    n == self.all_objects.len(),
                    i <= j < n,
                    forall|a: int|
                        0 <= a < i && (#[trigger] self@.points[a]).primary_body_id is Some
                            && self@.points[a].primary_body_id
                            == self@.points[j as int].primary_body_id
                            ==> self@.points[a].distance_from_primary
                            != self@.points[j as int].distance_from_primary,
                decreases j - i,
            {
                if self.all_objects[i].primary_body_id.is_some() && same_id(
                    self.all_objects[i].primary_body_id,
                    self.all_objects[j].primary_body_id,
                ) && same_distance(
                    self.all_objects[i].distance_from_primary,
                    self.all_objects[j].distance_from_primary,
                ) {
                    assert(self@.points[i as int].primary_body_id is Some
                        && self@.points[i as int].primary_body_id
                        == self@.points[j as int].primary_body_id
                        && self@.points[i as int].distance_from_primary
                        == self@.points[j as int].distance_from_primary);
                    return false;
                }
                i += 1;
            }
            j += 1;
        }
        true
    }

    /// Decides whether no star has a mass, a luminosity, a radius or an age
    /// below zero.
    pub fn stars_are_physical(&self) -> (ok: bool)
        ensures
            ok == stars_are_physical(self@.points),
    {
        let mut i: usize = 0;
        while i < self.all_objects.len()
            invariant
                i <= self.all_objects.len(),
                forall|a: int|
                    0 <= a < i && (#[trigger] self@.points[a]).object is Star
                        ==> self@.points[a].object->Star_0.is_physical(),
            decreases self.all_objects.len() - i,
        {
            match self.all_objects[i].object {
                ObjectKind::Star(facts) => {
                    if !facts.has_physical_numbers() {
                        assert(self@.points[i as int].object is Star
                            && !self@.points[i as int].object->Star_0.is_physical());
                        return false;
                    }
                },
                _ => {},
            }
            i += 1;
        }
        true
    }

    /// Finds what is wrong with the system, if anything.
    pub fn first_defect(&self) -> (defect: Option<ForestDefect>)
        ensures
            defect == self@.first_defect(),
            defect is None <==> self@.is_sound(),
    {
        if !self.has_unique_ids() {
            Some(ForestDefect::DuplicateId)
        } else if !self.primary_links_hold() {
            Some(ForestDefect::BrokenPrimaryLink)
        } else if !self.satellite_links_hold() {
            Some(ForestDefect::BrokenSatelliteLink)
        } else if !self.distances_follow_primaries() {
            Some(ForestDefect::MisplacedDistance)
        } else if !self.distances_are_positive() {
            Some(ForestDefect::DistanceNotPositive)
        } else if !self.center_is_root() {
            Some(ForestDefect::CenterIsNoRoot)
        } else if !self.hangs_from_roots() {
            Some(ForestDefect::DetachedFromRoots)
        } else if !self.main_star_is_a_star() {
            Some(ForestDefect::MainStarIsNoStar)
        } else if !self.siblings_keep_apart() {
            Some(ForestDefect::SiblingsCollide)
        } else if !self.stars_are_physical() {
            Some(ForestDefect::UnphysicalStar)
        } else {
            None
        }
    }

    /// Decides whether the system may be handed out: ids are unique,
    /// primaries and satellites refer to each other, the roots are
    /// consistent, every distance is greater than zero, every point hangs
    /// from a root, the main star is a star, no two points orbit the same
    /// primary at the same distance, and no star has a number below zero.
    pub fn is_sound(&self) -> (ok: bool)
        ensures
            ok == self@.is_sound(),
    {
        self.first_defect().is_none()
    }
}

/// In a sound system two points with the same id are the same point.
pub proof fn lemma_sound_forest_names_each_point_once(forest: ForestModel, i: int, j: int)
    requires
        forest.is_sound(),
        0 <= i < forest.points.len(),
        0 <= j < forest.points.len(),
        forest.points[i].id == forest.points[j].id,
    ensures
        i == j,
{
    if i < j {
        assert(forest.points[i].id != forest.points[j].id);
    } else if j < i {
        assert(forest.points[j].id != forest.points[i].id);
    }
}

/// Referential integrity of a sound system. Every point that names a primary
/// finds it among the points, and the primary lists that point exactly once
/// among its satellites. Conversely every id among the satellites of a point
/// is that of a point of the system, and that point names the owner of the
/// list as its primary.
pub proof fn lemma_sound_forest_has_referential_integrity(forest: ForestModel)
    requires
        forest.is_sound(),
    ensures
        forall|i: int|
            0 <= i < forest.points.len() && (#[trigger] forest.points[i]).primary_body_id is Some
                ==> has_point(forest.points, forest.points[i].primary_body_id->0),
        forall|i: int, j: int|
            0 <= i < forest.points.len() && 0 <= j < forest.points.len() && (
            #[trigger] forest.points[i]).primary_body_id == Some((#[trigger] forest.points[j]).id)
                ==> listed_once(forest.points[j].satellite_ids, forest.points[i].id),
        forall|j: int, k: int|
            0 <= j < forest.points.len() && 0 <= k < forest.points[j].satellite_ids.len()
                ==> has_point(forest.points, #[trigger] forest.points[j].satellite_ids[k]),
        forall|i: int, j: int, k: int|
            0 <= i < forest.points.len() && 0 <= j < forest.points.len() && 0 <= k
                < forest.points[j].satellite_ids.len() && (#[trigger] forest.points[i]).id
                == #[trigger] forest.points[j].satellite_ids[k]
                ==> forest.points[i].primary_body_id == Some(forest.points[j].id),
{
    let points = forest.points;
    assert forall|i: int|
        0 <= i < points.len() && (#[trigger] points[i]).primary_body_id is Some implies has_point(
        points,
        points[i].primary_body_id->0,
    ) by {
        assert(primary_link_holds(points, i));
    }
    assert forall|i: int, j: int|
        0 <= i < points.len() && 0 <= j < points.len() && (#[trigger] points[i]).primary_body_id
            == Some((#[trigger] points[j]).id) implies listed_once(
        points[j].satellite_ids,
        points[i].id,
    ) by {
        assert(primary_link_holds(points, i));
        let lister = choose|b: int|
            0 <= b < points.len() && (#[trigger] points[b]).id == points[j].id && listed_once(
                points[b].satellite_ids,
                points[i].id,
            );
        lemma_sound_forest_names_each_point_once(forest, lister, j);
    }
    assert forall|j: int, k: int|
        0 <= j < points.len() && 0 <= k < points[j].satellite_ids.len() implies has_point(
        points,
        #[trigger] points[j].satellite_ids[k],
    ) by {
        assert(satellite_link_holds(points, j, k));
    }
    assert forall|i: int, j: int, k: int|
        0 <= i < points.len() && 0 <= j < points.len() && 0 <= k < points[j].satellite_ids.len()
            && (#[trigger] points[i]).id
            == #[trigger] points[j].satellite_ids[k] implies points[i].primary_body_id == Some(
        points[j].id,
    ) by {
        assert(satellite_link_holds(points, j, k));
        let orbiter = choose|a: int|
            0 <= a < points.len() && (#[trigger] points[a]).id == points[j].satellite_ids[k]
                && points[a].primary_body_id == Some(points[j].id);
        lemma_sound_forest_names_each_point_once(forest, orbiter, i);
    }
}

/// Root consistency of a sound system. Exactly the points without a primary
/// lack a distance, the centre is a point of the system, and it is such a
/// root.
pub proof fn lemma_sound_forest_has_consistent_roots(forest: ForestModel)
    requires
        forest.is_sound(),
    ensures
        forall|i: int|
            0 <= i < forest.points.len() ==> ((#[trigger] forest.points[i]).primary_body_id is None
                <==> forest.points[i].distance_from_primary is None),
        has_point(forest.points, forest.center_id),
        forall|i: int|
            0 <= i < forest.points.len() && (#[trigger] forest.points[i]).id == forest.center_id
                ==> forest.points[i].primary_body_id is None
                && forest.points[i].distance_from_primary is None,
{
    let points = forest.points;
    let root = choose|r: int|
        0 <= r < points.len() && (#[trigger] points[r]).id == forest.center_id
            && points[r].primary_body_id is None;
    assert forall|i: int|
        0 <= i < points.len() && (#[trigger] points[i]).id
            == forest.center_id implies points[i].primary_body_id is None
        && points[i].distance_from_primary is None by {
        lemma_sound_forest_names_each_point_once(forest, root, i);
    }
}

/// A point that names itself as its primary, and is the first with its id,
/// reaches no root, however long the climb.
pub proof fn lemma_own_satellite_reaches_no_root(points: Seq<PointModel>, i: int, steps: nat)
    requires
        is_first_with_id(points, points[i].id, i),
        points[i].primary_body_id == Some(points[i].id),
    ensures
        !reaches_root(points, i, steps),
    decreases steps,
{
    if reaches_root(points, i, steps) {
        let via = choose|j: int|
            #[trigger] is_first_with_id(points, points[i].id, j) && reaches_root(
                points,
                j,
                (steps - 1) as nat,
            );
        if via < i {
            assert(points[via].id != points[i].id);
        } else if i < via {
            assert(points[i].id != points[i].id);
        }
        lemma_own_satellite_reaches_no_root(points, i, (steps - 1) as nat);
    }
}

/// In a sound system no point is its own primary, every distance is greater
/// than zero, the main star is a point of the system that holds a star, no
/// two points orbit the same primary at the same distance, and no star has a
/// mass, a luminosity, a radius or an age below zero.
pub proof fn lemma_sound_forest_is_a_forest(forest: ForestModel)
    requires
        forest.is_sound(),
    ensures
        forall|i: int|
            0 <= i < forest.points.len() ==> (#[trigger] forest.points[i]).primary_body_id
                != Some(forest.points[i].id),
        forall|i: int|
            0 <= i < forest.points.len() && (#[trigger] forest.points[i]).distance_from_primary
                is Some ==> 0 < forest.points[i].distance_from_primary->0 <= INFINITE_DISTANCE,
        forall|i: int|
            0 <= i < forest.points.len() && (#[trigger] forest.points[i]).id
                == forest.main_star_id ==> forest.points[i].object is Star,
        forall|i: int, j: int|
            0 <= i < forest.points.len() && 0 <= j < forest.points.len() && i != j && (
            #[trigger] forest.points[i]).primary_body_id is Some && forest.points[i].primary_body_id
                == (#[trigger] forest.points[j]).primary_body_id
                ==> forest.points[i].distance_from_primary != forest.points[j].distance_from_primary,
        forall|i: int|
            0 <= i < forest.points.len() && (#[trigger] forest.points[i]).object is Star
                ==> forest.points[i].object->Star_0.is_physical(),
{
    let points = forest.points;
    assert forall|i: int, j: int|
        0 <= i < points.len() && 0 <= j < points.len() && i != j && (
        #[trigger] points[i]).primary_body_id is Some && points[i].primary_body_id == (
        #[trigger] points[j]).primary_body_id implies points[i].distance_from_primary
        != points[j].distance_from_primary by {
        if i < j {
            assert(points[i].distance_from_primary != points[j].distance_from_primary);
        } else {
            assert(points[j].distance_from_primary != points[i].distance_from_primary);
        }
    }
    assert forall|i: int| 0 <= i < points.len() implies (#[trigger] points[i]).primary_body_id
        != Some(points[i].id) by {
        if points[i].primary_body_id == Some(points[i].id) {
            assert forall|k: int| 0 <= k < i implies (#[trigger] points[k]).id != points[i].id by {
                if points[k].id == points[i].id {
                    lemma_sound_forest_names_each_point_once(forest, k, i);
                }
            }
            lemma_own_satellite_reaches_no_root(points, i, points.len());
            assert(reaches_root(points, i, points.len()));
        }
    }
    let star = choose|s: int|
        0 <= s < points.len() && (#[trigger] points[s]).id == forest.main_star_id
            && points[s].object is Star;
    assert forall|i: int|
        0 <= i < points.len() && (#[trigger] points[i]).id
            == forest.main_star_id implies points[i].object is Star by {
        lemma_sound_forest_names_each_point_once(forest, star, i);
    }
}

} // verus!
