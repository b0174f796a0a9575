use star_atlas::coordinates::{GalaxyExtent, SpaceCoordinates};
use star_atlas::grid::{
    Axis, CellIndex, CellSpan, Grid, LevelRecord, HEX_LEVEL, LEVEL_COUNT, MAX_DIVISION_SPAN,
    MIN_DIVISION_SPAN, MISSING_LEVEL_SPAN,
};

fn span(x: u8, y: u8, z: u8) -> CellSpan {
    CellSpan { x, y, z }
}

/// A flat galaxy of 100 by 5 by 1 parsecs with hexes of 4 by 2 by 4 parsecs.
fn flat() -> Grid {
    let mut levels = vec![
        LevelRecord { level: 0, span: span(4, 2, 4) },
        LevelRecord { level: 1, span: span(2, 2, 1) },
        LevelRecord { level: 2, span: span(3, 3, 1) },
        LevelRecord { level: 3, span: span(2, 2, 1) },
    ];
    for level in 4..=9u8 {
        levels.push(LevelRecord { level, span: span(10, 10, 1) });
    }
    Grid {
        extent: GalaxyExtent {
            start: SpaceCoordinates::new(-49, -2, 0),
            end: SpaceCoordinates::new(50, 2, 0),
        },
        levels,
    }
}

fn cell(x: u64, y: u64, z: u64) -> Option<CellIndex> {
    Some(CellIndex { x, y, z })
}

#[test]
fn span_is_read_from_the_first_entry_of_the_level() {
    let mut grid = flat();
    assert_eq!(grid.span_of(0), span(4, 2, 4));
    assert_eq!(grid.span_of(2), span(3, 3, 1));
    assert_eq!(grid.span_of(9), span(10, 10, 1));
    grid.levels.push(LevelRecord { level: 2, span: span(7, 7, 7) });
    assert_eq!(grid.span_of(2), span(3, 3, 1));
    assert_eq!(span(4, 2, 9).along(Axis::X), 4);
    assert_eq!(span(4, 2, 9).along(Axis::Y), 2);
    assert_eq!(span(4, 2, 9).along(Axis::Z), 9);
}

#[test]
fn missing_level_spans_255() {
    let mut grid = flat();
    assert_eq!(MISSING_LEVEL_SPAN, 255);
    assert_eq!(grid.span_of(10), span(255, 255, 255));
    grid.levels.clear();
    assert_eq!(grid.span_of(0), span(255, 255, 255));
    assert!(grid.usable());
    assert_eq!(grid.cell_index(SpaceCoordinates::new(50, 2, 0), 0), cell(0, 0, 0));
    grid.extent.end = SpaceCoordinates::new(65000, 2, 0);
    assert_eq!(grid.cell_index(SpaceCoordinates::new(64976, 2, 0), 0), cell(255, 0, 0));
    assert_eq!(grid.cell_index(SpaceCoordinates::new(64976, 2, 0), 1), cell(1, 0, 0));
    assert_eq!(grid.cell_index(SpaceCoordinates::new(64975, 2, 0), 1), cell(0, 0, 0));
}

#[test]
fn hexes_are_found_by_offset_from_the_start() {
    let grid = flat();
    assert_eq!(HEX_LEVEL, 0);
    assert_eq!(grid.hex_index(SpaceCoordinates::new(-49, -2, 0)), cell(0, 0, 0));
    assert_eq!(grid.hex_index(SpaceCoordinates::new(-48, -2, 0)), cell(0, 0, 0));
    assert_eq!(grid.hex_index(SpaceCoordinates::new(-45, -2, 0)), cell(1, 0, 0));
    assert_eq!(grid.hex_index(SpaceCoordinates::new(-10, -2, 0)), cell(9, 0, 0));
    assert_eq!(grid.hex_index(SpaceCoordinates::new(-10, 0, 0)), cell(9, 1, 0));
    assert_eq!(grid.hex_index(SpaceCoordinates::new(50, 2, 0)), cell(24, 2, 0));
    assert_eq!(grid.cell_index(SpaceCoordinates::new(50, 2, 0), 0), cell(24, 2, 0));
}

#[test]
fn divisions_are_found_by_dividing_level_by_level() {
    let grid = flat();
    assert_eq!(grid.cell_index(SpaceCoordinates::new(-49, -2, 0), 1), cell(0, 0, 0));
    assert_eq!(grid.cell_index(SpaceCoordinates::new(-46, -2, 0), 1), cell(0, 0, 0));
    assert_eq!(grid.cell_index(SpaceCoordinates::new(-10, -2, 0), 1), cell(4, 0, 0));
    assert_eq!(grid.cell_index(SpaceCoordinates::new(-10, 0, 0), 1), cell(4, 0, 0));
    assert_eq!(grid.cell_index(SpaceCoordinates::new(50, 2, 0), 1), cell(12, 1, 0));
    assert_eq!(grid.cell_index(SpaceCoordinates::new(-49, -2, 0), 2), cell(0, 0, 0));
    assert_eq!(grid.cell_index(SpaceCoordinates::new(-10, -2, 0), 2), cell(1, 0, 0));
    assert_eq!(grid.cell_index(SpaceCoordinates::new(50, 2, 0), 2), cell(4, 0, 0));
    assert_eq!(grid.cell_index(SpaceCoordinates::new(50, 2, 0), 3), cell(2, 0, 0));
    assert_eq!(grid.cell_index(SpaceCoordinates::new(50, 2, 0), 4), cell(0, 0, 0));
    assert_eq!(grid.cell_index(SpaceCoordinates::new(50, 2, 0), 9), cell(0, 0, 0));
}

#[test]
fn cell_on_one_axis_is_found_from_the_offset() {
    let grid = flat();
    assert_eq!(grid.cell_at_offset(Axis::X, 99, 0), 24);
    assert_eq!(grid.cell_at_offset(Axis::X, 99, 1), 12);
    assert_eq!(grid.cell_at_offset(Axis::X, 99, 2), 4);
    assert_eq!(grid.cell_at_offset(Axis::Y, 4, 0), 2);
    assert_eq!(grid.cell_at_offset(Axis::Y, 4, 1), 1);
    assert_eq!(grid.cell_at_offset(Axis::Z, 3, 0), 0);
    assert_eq!(grid.cell_at_offset(Axis::Z, 4, 0), 1);
    assert_eq!(grid.cell_at_offset(Axis::Z, 4, 9), 1);
}

#[test]
fn no_cell_outside_the_extent_or_above_the_top_level() {
    let grid = flat();
    assert_eq!(grid.cell_index(SpaceCoordinates::new(-50, -2, 0), 0), None);
    assert_eq!(grid.cell_index(SpaceCoordinates::new(51, 2, 0), 1), None);
    assert_eq!(grid.cell_index(SpaceCoordinates::new(0, 3, 0), 1), None);
    assert_eq!(grid.cell_index(SpaceCoordinates::new(0, 0, 1), 1), None);
    assert_eq!(grid.hex_index(SpaceCoordinates::new(0, 0, -1)), None);
    assert!(grid.cell_index(SpaceCoordinates::new(0, 0, 0), 9).is_some());
    assert_eq!(grid.cell_index(SpaceCoordinates::new(0, 0, 0), 10), None);
    assert_eq!(grid.cell_index(SpaceCoordinates::new(0, 0, 0), 255), None);
}

#[test]
fn level_without_a_span_makes_the_grid_unusable() {
    assert!(flat().usable());
    for level in [0usize, 1, 5, 9] {
        for broken in [span(0, 2, 2), span(2, 0, 2), span(2, 2, 0)] {
            let mut grid = flat();
            grid.levels[level].span = broken;
            assert!(!grid.usable());
            assert_eq!(grid.cell_index(SpaceCoordinates::new(0, 0, 0), 0), None);
            assert_eq!(grid.hex_index(SpaceCoordinates::new(0, 0, 0)), None);
        }
    }
    let mut grid = flat();
    grid.levels.push(LevelRecord { level: 10, span: span(0, 0, 0) });
    assert!(grid.usable());
}

#[test]
fn widest_extent_does_not_overflow() {
    let mut grid = flat();
    grid.extent = GalaxyExtent {
        start: SpaceCoordinates::new(i64::MIN, i64::MIN, i64::MIN),
        end: SpaceCoordinates::new(i64::MAX, i64::MAX, i64::MAX),
    };
    for record in grid.levels.iter_mut() {
        record.span = span(1, 1, 1);
    }
    let far = SpaceCoordinates::new(i64::MAX, 0, i64::MIN);
    assert_eq!(grid.cell_index(far, 0), cell(u64::MAX, 1 << 63, 0));
    assert_eq!(grid.cell_index(far, 9), cell(u64::MAX, 1 << 63, 0));
    grid.levels[0].span = span(2, 1, 1);
    assert_eq!(grid.cell_index(far, 9), cell(u64::MAX / 2, 1 << 63, 0));
}

#[test]
fn cells_keep_the_order_of_the_coordinates_and_have_no_gap() {
    let grid = flat();
    for level in 0..=9u8 {
        let mut last = 0;
        for offset in 0..100u64 {
            let here = grid.cell_at_offset(Axis::X, offset, level);
            assert!(last <= here);
            assert!(here <= offset);
            last = here;
        }
    }
    assert_eq!(grid.cell_at_offset(Axis::X, 8, 1), grid.cell_at_offset(Axis::X, 15, 1));
    for offset in 8..=15u64 {
        assert_eq!(grid.cell_at_offset(Axis::X, offset, 1), 1);
    }
    assert_eq!(grid.cell_at_offset(Axis::X, 7, 1), 0);
    assert_eq!(grid.cell_at_offset(Axis::X, 16, 1), 2);
}

#[test]
fn coordinates_of_one_cell_share_every_cell_above() {
    let grid = flat();
    for one in 0..100u64 {
        for other in 0..100u64 {
            for level in 0..9u8 {
                if grid.cell_at_offset(Axis::X, one, level)
                    == grid.cell_at_offset(Axis::X, other, level)
                {
                    assert_eq!(
                        grid.cell_at_offset(Axis::X, one, level + 1),
                        grid.cell_at_offset(Axis::X, other, level + 1)
                    );
                }
            }
        }
    }
}

#[test]
fn cell_stands_at_a_signed_place_with_the_same_numbers() {
    let index = CellIndex { x: 9, y: 1, z: 0 };
    assert!(index.stands_at(SpaceCoordinates::new(9, 1, 0)));
    assert!(!index.stands_at(SpaceCoordinates::new(9, 1, 1)));
    assert!(!index.stands_at(SpaceCoordinates::new(8, 1, 0)));
    assert!(!index.stands_at(SpaceCoordinates::new(9, -1, 0)));
    let far = CellIndex { x: u64::MAX, y: 0, z: 0 };
    assert!(!far.stands_at(SpaceCoordinates::new(-1, 0, 0)));
    let edge = CellIndex { x: i64::MAX as u64, y: 0, z: 0 };
    assert!(edge.stands_at(SpaceCoordinates::new(i64::MAX, 0, 0)));
}

/// A grid as a galaxy is made with: hexes of 1 parsec, then ten by ten by
/// `z` cells at every level.
fn made(z: u8) -> Grid {
    let mut levels = vec![LevelRecord { level: 0, span: span(1, 1, 1) }];
    for level in 1..=9u8 {
        levels.push(LevelRecord { level, span: span(10, 10, z) });
    }
    Grid {
        extent: GalaxyExtent {
            start: SpaceCoordinates::new(-10999, -10999, -54),
            end: SpaceCoordinates::new(11000, 11000, 55),
        },
        levels,
    }
}

#[test]
fn grids_that_galaxies_are_made_with_are_standard() {
    assert_eq!((LEVEL_COUNT, MIN_DIVISION_SPAN, MAX_DIVISION_SPAN), (10, 4, 62));
    for z in [1u8, 4, 10, 62] {
        assert!(made(z).standard());
        assert!(made(z).usable());
    }
    let mut edges = made(1);
    edges.levels[0].span = span(255, 1, 255);
    edges.levels[1].span = span(4, 62, 1);
    edges.levels[9].span = span(62, 4, 1);
    assert!(edges.standard());
}

#[test]
fn other_lists_of_levels_are_not_standard() {
    assert!(!flat().standard());
    for z in [0u8, 2, 3, 63, 255] {
        assert!(!made(z).standard());
    }
    let mut mixed = made(1);
    mixed.levels[6].span.z = 4;
    assert!(!mixed.standard());
    let mut mixed = made(10);
    mixed.levels[9].span.z = 1;
    assert!(!mixed.standard());
    let mut no_hex = made(1);
    no_hex.levels[0].span.y = 0;
    assert!(!no_hex.standard());
    for (x, y) in [(3u8, 10u8), (63, 10), (10, 3), (10, 63), (0, 10)] {
        let mut grid = made(1);
        grid.levels[5].span = span(x, y, 1);
        assert!(!grid.standard());
    }
    let mut eleven = made(1);
    eleven.levels.push(LevelRecord { level: 10, span: span(0, 0, 0) });
    assert!(eleven.usable());
    assert!(!eleven.standard());
    let only_eleventh = Grid { extent: made(1).extent, levels: eleven.levels[10..].to_vec() };
    assert!(only_eleventh.usable());
    assert!(!only_eleventh.standard());
    let mut nine = made(1);
    nine.levels.pop();
    assert!(!nine.standard());
    let mut swapped = made(1);
    swapped.levels.swap(3, 4);
    assert!(!swapped.standard());
    let mut renamed = made(1);
    renamed.levels[0].level = 1;
    assert!(!renamed.standard());
    let mut twice = made(1);
    twice.levels[9].level = 8;
    assert!(!twice.standard());
}

#[test]
fn spans_are_held_to_their_ranges() {
    assert!(span(1, 1, 1).has_no_gap());
    assert!(span(255, 255, 255).has_no_gap());
    assert!(!span(0, 1, 1).has_no_gap());
    assert!(!span(1, 0, 1).has_no_gap());
    assert!(!span(1, 1, 0).has_no_gap());
    assert!(span(4, 62, 0).lies_in_the_plane());
    assert!(span(62, 4, 255).lies_in_the_plane());
    assert!(!span(3, 10, 10).lies_in_the_plane());
    assert!(!span(10, 63, 10).lies_in_the_plane());
}
