use star_atlas::failure::ForestDefect;
use star_atlas::hierarchy::{
    distance_is_positive, lists_once, same_distance, same_id, ObjectKind, OrbitalForest,
    OrbitalPoint, StarFacts, INFINITE_DISTANCE, INFINITE_SINGLE, NEGATIVE_ZERO_DOUBLE,
    NEGATIVE_ZERO_SINGLE,
};

fn facts(mass: f64, luminosity: f32, radius: f64, age: f32, temperature: u32) -> StarFacts {
    StarFacts {
        mass: mass.to_bits(),
        luminosity: luminosity.to_bits(),
        radius: radius.to_bits(),
        age: age.to_bits(),
        temperature,
    }
}

fn star() -> ObjectKind {
    ObjectKind::Star(facts(1.0, 1.0, 1.0, 4.6, 5772))
}

fn point(id: u32, primary: Option<(u32, f64)>, satellites: &[u32], object: ObjectKind) -> OrbitalPoint {
    OrbitalPoint {
        id,
        primary_body_id: primary.map(|p| p.0),
        distance_from_primary: primary.map(|p| p.1.to_bits()),
        satellite_ids: satellites.to_vec(),
        object,
    }
}

/// Two close stars around a barycentre that itself orbits the centre with a third star.
fn triple() -> OrbitalForest {
    OrbitalForest {
        name: String::from("Zayas"),
        center_id: 4,
        main_star_id: 0,
        all_objects: vec![
            point(0, Some((2, 9.9)), &[], star()),
            point(1, Some((2, 26.1)), &[], star()),
            point(2, Some((4, 7.8)), &[0, 1], ObjectKind::Void),
            point(3, Some((4, 70.8)), &[], star()),
            point(4, None, &[2, 3], ObjectKind::Void),
        ],
    }
}

#[test]
fn nested_triple_is_sound() {
    let forest = triple();
    assert_eq!(forest.len(), 5);
    assert!(forest.has_unique_ids());
    assert!(forest.primary_links_hold());
    assert!(forest.satellite_links_hold());
    assert!(forest.distances_follow_primaries());
    assert!(forest.distances_are_positive());
    assert!(forest.center_is_root());
    assert!(forest.hangs_from_roots());
    for place in 0..5 {
        assert!(forest.reaches_root(place));
    }
    assert!(forest.main_star_is_a_star());
    assert!(forest.siblings_keep_apart());
    assert_eq!(forest.first_defect(), None);
    assert!(forest.is_sound());
}

#[test]
fn single_root_is_sound() {
    let forest = OrbitalForest {
        name: String::from("Lone"),
        center_id: 7,
        main_star_id: 7,
        all_objects: vec![point(7, None, &[], star())],
    };
    assert!(forest.is_sound());
}

#[test]
fn empty_system_has_no_centre() {
    let forest = OrbitalForest {
        name: String::new(),
        center_id: 0,
        main_star_id: 0,
        all_objects: vec![],
    };
    assert!(forest.has_unique_ids());
    assert!(forest.primary_links_hold());
    assert!(forest.satellite_links_hold());
    assert!(forest.distances_follow_primaries());
    assert!(!forest.center_is_root());
    assert_eq!(forest.first_defect(), Some(ForestDefect::CenterIsNoRoot));
    assert!(!forest.is_sound());
}

#[test]
fn duplicate_id_is_the_first_defect() {
    let mut forest = triple();
    forest.all_objects[3].id = 1;
    assert!(!forest.has_unique_ids());
    assert_eq!(forest.first_defect(), Some(ForestDefect::DuplicateId));
    assert!(!forest.is_sound());
}

#[test]
fn primary_that_does_not_list_its_satellite_is_a_defect() {
    let mut forest = triple();
    forest.all_objects[2].satellite_ids = vec![0];
    assert!(forest.has_unique_ids());
    assert!(forest.primary_link_holds(0));
    assert!(!forest.primary_link_holds(1));
    assert!(!forest.primary_links_hold());
    assert!(forest.satellite_links_hold());
    assert_eq!(forest.first_defect(), Some(ForestDefect::BrokenPrimaryLink));
}

#[test]
fn primary_that_lists_its_satellite_twice_is_a_defect() {
    let mut forest = triple();
    forest.all_objects[2].satellite_ids = vec![0, 1, 0];
    assert!(!forest.primary_link_holds(0));
    assert!(forest.primary_link_holds(1));
    assert_eq!(forest.first_defect(), Some(ForestDefect::BrokenPrimaryLink));
}

#[test]
fn missing_primary_is_a_defect() {
    let mut forest = triple();
    forest.all_objects[3].primary_body_id = Some(9);
    assert!(!forest.primary_link_holds(3));
    assert_eq!(forest.first_defect(), Some(ForestDefect::BrokenPrimaryLink));
}

#[test]
fn satellite_that_names_another_primary_is_a_defect() {
    let mut forest = triple();
    forest.all_objects[3].satellite_ids = vec![0];
    assert!(forest.primary_links_hold());
    assert!(!forest.satellite_link_holds(3, 0));
    assert!(forest.satellite_link_holds(4, 0));
    assert!(forest.satellite_link_holds(4, 1));
    assert!(!forest.satellite_links_hold());
    assert_eq!(forest.first_defect(), Some(ForestDefect::BrokenSatelliteLink));
}

#[test]
fn satellite_that_does_not_exist_is_a_defect() {
    let mut forest = triple();
    forest.all_objects[0].satellite_ids = vec![42];
    assert!(!forest.satellite_link_holds(0, 0));
    assert_eq!(forest.first_defect(), Some(ForestDefect::BrokenSatelliteLink));
}

#[test]
fn root_with_a_distance_is_a_defect() {
    let mut forest = triple();
    forest.all_objects[4].distance_from_primary = Some(1.0f64.to_bits());
    assert!(!forest.distances_follow_primaries());
    assert_eq!(forest.first_defect(), Some(ForestDefect::MisplacedDistance));
}

#[test]
fn orbiting_point_without_a_distance_is_a_defect() {
    let mut forest = triple();
    forest.all_objects[1].distance_from_primary = None;
    assert!(!forest.distances_follow_primaries());
    assert_eq!(forest.first_defect(), Some(ForestDefect::MisplacedDistance));
}

#[test]
fn centre_that_orbits_something_is_a_defect() {
    let mut forest = triple();
    forest.center_id = 2;
    assert!(!forest.center_is_root());
    assert_eq!(forest.first_defect(), Some(ForestDefect::CenterIsNoRoot));
}

#[test]
fn centre_that_does_not_exist_is_a_defect() {
    let mut forest = triple();
    forest.center_id = 5;
    assert!(!forest.center_is_root());
    assert_eq!(forest.first_defect(), Some(ForestDefect::CenterIsNoRoot));
}

/// A root with a star, and two points that orbit each other.
fn circle() -> OrbitalForest {
    OrbitalForest {
        name: String::from("Ring"),
        center_id: 10,
        main_star_id: 10,
        all_objects: vec![
            point(10, None, &[], star()),
            point(1, Some((2, 1.5)), &[2], ObjectKind::TelluricBody),
            point(2, Some((1, 2.5)), &[1], ObjectKind::IcyBody),
        ],
    }
}

#[test]
fn points_that_orbit_each_other_hang_from_no_root() {
    let forest = circle();
    assert!(forest.has_unique_ids());
    assert!(forest.primary_links_hold());
    assert!(forest.satellite_links_hold());
    assert!(forest.distances_follow_primaries());
    assert!(forest.distances_are_positive());
    assert!(forest.center_is_root());
    assert!(forest.reaches_root(0));
    assert!(!forest.reaches_root(1));
    assert!(!forest.reaches_root(2));
    assert!(!forest.hangs_from_roots());
    assert_eq!(forest.first_defect(), Some(ForestDefect::DetachedFromRoots));
    assert!(!forest.is_sound());
}

#[test]
fn point_that_orbits_itself_hangs_from_no_root() {
    let mut forest = circle();
    forest.all_objects.truncate(2);
    forest.all_objects[1] = point(1, Some((1, 1.5)), &[1], ObjectKind::TelluricBody);
    assert!(forest.primary_links_hold());
    assert!(forest.satellite_links_hold());
    assert!(!forest.reaches_root(1));
    assert_eq!(forest.first_defect(), Some(ForestDefect::DetachedFromRoots));
}

#[test]
fn chain_as_long_as_the_system_reaches_its_root() {
    let forest = OrbitalForest {
        name: String::from("Chain"),
        center_id: 0,
        main_star_id: 0,
        all_objects: vec![
            point(3, Some((2, 1.0)), &[], ObjectKind::TelluricBody),
            point(2, Some((1, 1.0)), &[3], ObjectKind::GaseousBody),
            point(1, Some((0, 1.0)), &[2], ObjectKind::Void),
            point(0, None, &[1], star()),
        ],
    };
    assert!(forest.reaches_root(0));
    assert!(forest.hangs_from_roots());
    assert!(forest.is_sound());
}

#[test]
fn distance_that_is_not_above_zero_is_a_defect() {
    for distance in [0.0f64, -0.0, -1.0, f64::NAN, f64::NEG_INFINITY] {
        let mut forest = triple();
        forest.all_objects[3].distance_from_primary = Some(distance.to_bits());
        assert!(forest.distances_follow_primaries());
        assert!(!forest.distances_are_positive());
        assert_eq!(forest.first_defect(), Some(ForestDefect::DistanceNotPositive));
    }
    for distance in [f64::MIN_POSITIVE, 5e-324, 1.0, f64::MAX, f64::INFINITY] {
        let mut forest = triple();
        forest.all_objects[3].distance_from_primary = Some(distance.to_bits());
        assert!(forest.distances_are_positive());
        assert!(forest.is_sound());
    }
}

#[test]
fn positive_bit_patterns_are_those_of_doubles_above_zero() {
    assert_eq!(INFINITE_DISTANCE, f64::INFINITY.to_bits());
    let doubles = [
        0.0f64,
        -0.0,
        5e-324,
        f64::MIN_POSITIVE,
        0.1175712021477508,
        1.0,
        70.80642409145095,
        f64::MAX,
        f64::INFINITY,
        f64::NAN,
        -f64::NAN,
        -5e-324,
        -1.0,
        f64::MIN,
        f64::NEG_INFINITY,
    ];
    for double in doubles {
        assert_eq!(distance_is_positive(double.to_bits()), double > 0.0);
    }
    assert!(!distance_is_positive(0));
    assert!(distance_is_positive(1));
    assert!(distance_is_positive(0x7FF0_0000_0000_0000));
    assert!(!distance_is_positive(0x7FF0_0000_0000_0001));
    assert!(!distance_is_positive(u64::MAX));
}

#[test]
fn siblings_at_one_distance_are_a_defect() {
    let mut forest = triple();
    forest.all_objects[3].distance_from_primary = forest.all_objects[2].distance_from_primary;
    assert!(!forest.siblings_keep_apart());
    assert_eq!(forest.first_defect(), Some(ForestDefect::SiblingsCollide));
    assert!(!forest.is_sound());
    let mut forest = triple();
    forest.all_objects[1].distance_from_primary = forest.all_objects[3].distance_from_primary;
    assert!(forest.siblings_keep_apart());
    assert!(forest.is_sound());
}

#[test]
fn two_roots_are_no_siblings() {
    let forest = OrbitalForest {
        name: String::from("Pair"),
        center_id: 1,
        main_star_id: 2,
        all_objects: vec![
            point(1, None, &[], ObjectKind::Void),
            point(2, None, &[], star()),
        ],
    };
    assert!(forest.siblings_keep_apart());
    assert!(forest.is_sound());
}

#[test]
fn optional_numbers_are_compared_by_value() {
    assert!(same_id(None, None));
    assert!(same_id(Some(3), Some(3)));
    assert!(!same_id(Some(3), Some(4)));
    assert!(!same_id(Some(0), None));
    assert!(!same_id(None, Some(0)));
    assert!(same_distance(None, None));
    assert!(same_distance(Some(7), Some(7)));
    assert!(!same_distance(Some(7), Some(8)));
    assert!(!same_distance(None, Some(0)));
}

#[test]
fn main_star_that_is_no_star_is_a_defect() {
    let mut forest = triple();
    forest.main_star_id = 2;
    assert!(!forest.main_star_is_a_star());
    assert_eq!(forest.first_defect(), Some(ForestDefect::MainStarIsNoStar));
    forest.main_star_id = 77;
    assert!(!forest.main_star_is_a_star());
    assert_eq!(forest.first_defect(), Some(ForestDefect::MainStarIsNoStar));
    forest.main_star_id = 3;
    assert!(forest.main_star_is_a_star());
    assert!(forest.is_sound());
}

#[test]
fn defects_are_reported_in_a_fixed_order() {
    let mut forest = circle();
    forest.main_star_id = 1;
    assert_eq!(forest.first_defect(), Some(ForestDefect::DetachedFromRoots));
    forest.center_id = 5;
    assert_eq!(forest.first_defect(), Some(ForestDefect::CenterIsNoRoot));
    forest.all_objects[1].distance_from_primary = Some(0);
    assert_eq!(forest.first_defect(), Some(ForestDefect::DistanceNotPositive));
    let mut forest = triple();
    forest.center_id = 5;
    forest.all_objects[4].distance_from_primary = Some(3.0f64.to_bits());
    assert_eq!(forest.first_defect(), Some(ForestDefect::MisplacedDistance));
    forest.all_objects[0].satellite_ids = vec![42];
    assert_eq!(forest.first_defect(), Some(ForestDefect::BrokenSatelliteLink));
    forest.all_objects[2].satellite_ids = vec![1];
    assert_eq!(forest.first_defect(), Some(ForestDefect::BrokenPrimaryLink));
    forest.all_objects[1].id = 0;
    assert_eq!(forest.first_defect(), Some(ForestDefect::DuplicateId));
}

#[test]
fn lists_once_counts_places() {
    assert!(!lists_once(&vec![], 3));
    assert!(lists_once(&vec![3], 3));
    assert!(!lists_once(&vec![4], 3));
    assert!(lists_once(&vec![1, 3, 2], 3));
    assert!(lists_once(&vec![1, 2, 3], 3));
    assert!(!lists_once(&vec![3, 2, 3], 3));
    assert!(!lists_once(&vec![3, 3], 3));
    assert!(!lists_once(&vec![1, 3, 3, 3], 3));
}

#[test]
fn points_are_found_by_id() {
    let forest = triple();
    assert_eq!(forest.position_of(4), Some(4));
    assert_eq!(forest.position_of(0), Some(0));
    assert_eq!(forest.position_of(5), None);
    let centre = forest.get_point(4).expect("the centre is a point");
    assert_eq!(centre.id, 4);
    assert_eq!(centre.satellite_ids, vec![2, 3]);
    assert_eq!(centre.object, ObjectKind::Void);
    assert!(forest.get_point(17).is_none());
}

#[test]
fn first_of_two_points_with_one_id_is_found() {
    let mut forest = triple();
    forest.all_objects[3].id = 1;
    assert_eq!(forest.position_of(1), Some(1));
    let found = forest.get_point(1).expect("two points have the id");
    assert_eq!(found.primary_body_id, Some(2));
}

#[test]
fn distance_keeps_its_value() {
    let forest = triple();
    let bits = forest.all_objects[3].distance_from_primary.expect("the star orbits the centre");
    assert_eq!(f64::from_bits(bits), 70.8);
}

#[test]
fn climb_goes_to_the_first_point_with_the_id() {
    let forest = OrbitalForest {
        name: String::from("Twins"),
        center_id: 0,
        main_star_id: 0,
        all_objects: vec![
            point(0, None, &[5], star()),
            point(5, Some((0, 1.0)), &[], ObjectKind::Void),
            point(9, Some((9, 2.0)), &[9], ObjectKind::Void),
            point(9, None, &[], ObjectKind::Void),
            point(7, Some((9, 3.0)), &[], ObjectKind::Void),
        ],
    };
    assert!(forest.reaches_root(0));
    assert!(forest.reaches_root(1));
    assert!(!forest.reaches_root(2));
    assert!(forest.reaches_root(3));
    assert!(!forest.reaches_root(4));
    assert!(!forest.hangs_from_roots());
    assert_eq!(forest.first_defect(), Some(ForestDefect::DuplicateId));
}

#[test]
fn star_with_a_number_below_zero_is_a_defect() {
    let broken = [
        facts(-1.0, 1.0, 1.0, 4.6, 5772),
        facts(1.0, -0.5, 1.0, 4.6, 5772),
        facts(1.0, 1.0, -2.0, 4.6, 5772),
        facts(1.0, 1.0, 1.0, -4.6, 5772),
        facts(f64::NAN, 1.0, 1.0, 4.6, 5772),
        facts(1.0, f32::NAN, 1.0, 4.6, 5772),
        facts(1.0, 1.0, f64::NEG_INFINITY, 4.6, 5772),
        facts(1.0, 1.0, 1.0, -f32::MIN_POSITIVE, 5772),
    ];
    for numbers in broken {
        assert!(!numbers.has_physical_numbers());
        let mut forest = triple();
        forest.all_objects[3].object = ObjectKind::Star(numbers);
        assert!(!forest.stars_are_physical());
        assert_eq!(forest.first_defect(), Some(ForestDefect::UnphysicalStar));
        assert!(!forest.is_sound());
    }
}

#[test]
fn star_with_numbers_from_zero_up_is_physical() {
    let fine = [
        facts(0.0, 0.0, 0.0, 0.0, 0),
        facts(-0.0, -0.0, -0.0, -0.0, 0),
        facts(0.6197286975192232, 0.000028041659, 0.007389357533125019, 13.2, 4002),
        facts(f64::MAX, f32::MAX, f64::INFINITY, f32::INFINITY, u32::MAX),
        facts(5e-324, f32::MIN_POSITIVE, f64::MIN_POSITIVE, 1e-45, 1),
    ];
    for numbers in fine {
        assert!(numbers.has_physical_numbers());
        let mut forest = triple();
        forest.all_objects[0].object = ObjectKind::Star(numbers);
        assert!(forest.stars_are_physical());
        assert!(forest.is_sound());
    }
}

#[test]
fn physical_numbers_are_those_not_below_zero() {
    assert_eq!(NEGATIVE_ZERO_DOUBLE, (-0.0f64).to_bits());
    assert_eq!(NEGATIVE_ZERO_SINGLE, (-0.0f32).to_bits());
    assert_eq!(INFINITE_SINGLE, f32::INFINITY.to_bits());
    let doubles = [0.0f64, -0.0, 5e-324, 1.0, f64::MAX, f64::INFINITY, f64::NAN, -5e-324, -1.0, f64::NEG_INFINITY];
    let singles = [0.0f32, -0.0, 1e-45, 1.0, f32::MAX, f32::INFINITY, f32::NAN, -1e-45, -1.0, f32::NEG_INFINITY];
    for double in doubles {
        assert_eq!(facts(double, 1.0, 1.0, 1.0, 1).has_physical_numbers(), double >= 0.0);
        assert_eq!(facts(1.0, 1.0, double, 1.0, 1).has_physical_numbers(), double >= 0.0);
    }
    for single in singles {
        assert_eq!(facts(1.0, single, 1.0, 1.0, 1).has_physical_numbers(), single >= 0.0);
        assert_eq!(facts(1.0, 1.0, 1.0, single, 1).has_physical_numbers(), single >= 0.0);
    }
}

#[test]
fn unphysical_star_is_the_last_defect_looked_for() {
    let mut forest = triple();
    forest.all_objects[0].object = ObjectKind::Star(facts(-1.0, 1.0, 1.0, 1.0, 1));
    forest.all_objects[3].distance_from_primary = forest.all_objects[2].distance_from_primary;
    assert_eq!(forest.first_defect(), Some(ForestDefect::SiblingsCollide));
}
