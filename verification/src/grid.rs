//! The nested grid of a galaxy. Its extent is cut into hexes, hexes are
//! gathered into sub-sectors, sub-sectors into sectors, and so on for ten
//! levels. The cell that holds a coordinate at a level is found by dividing
//! the offset of the coordinate from the start of the extent by the span of
//! each level in turn, from the hexes up.

use vstd::prelude::*;
use vstd::arithmetic::div_mod::{
    lemma_div_is_ordered, lemma_div_nonincreasing, lemma_div_pos_is_pos,
};
use crate::coordinates::{GalaxyExtent, SpaceCoordinates, MAX_DIVISION_LEVEL};

verus! {

/// The level of the hexes.
pub const HEX_LEVEL: u8 = 0;

/// The span, on every axis, of a level that the list of levels does not hold.
pub const MISSING_LEVEL_SPAN: u8 = 255;

/// The number of levels of a grid, the level of the hexes included.
pub const LEVEL_COUNT: usize = 10;

/// The least span of a level above the hexes, on an axis that is not flat.
pub const MIN_DIVISION_SPAN: u8 = 4;

/// The greatest span of a level above the hexes.
pub const MAX_DIVISION_SPAN: u8 = 62;

/// One of the three axes of space.
#[derive(Clone, Copy, Debug, PartialEq, Eq, Structural)]
pub enum Axis {
    X,
    Y,
    Z,
}

/// How many cells of the level below a cell spans on each axis; for a hex,
/// how many parsecs.
#[derive(Clone, Copy, Debug, PartialEq, Eq, Structural)]
pub struct CellSpan {
    pub x: u8,
    pub y: u8,
    pub z: u8,
}

/// One entry of the list of levels of a galaxy.
#[derive(Clone, Copy, Debug, PartialEq, Eq, Structural)]
pub struct LevelRecord {
    pub level: u8,
    pub span: CellSpan,
}

/// The place of a cell among the cells of its level, counted on each axis
/// from the start of the extent.
#[derive(Clone, Copy, Debug, PartialEq, Eq, Structural)]
pub struct CellIndex {
    pub x: u64,
    pub y: u64,
    pub z: u64,
}

/// The extent of a galaxy and its list of levels.
#[derive(Clone, Debug)]
pub struct Grid {
    pub extent: GalaxyExtent,
    pub levels: Vec<LevelRecord>,
}

impl CellIndex {
    /// Whether the cell stands at the signed place `place`.
    pub open spec fn is_at(self, place: SpaceCoordinates) -> bool {
        place.x == self.x && place.y == self.y && place.z == self.z
    }

    /// Decides whether the cell stands at the signed place `place`.
    pub fn stands_at(&self, place: SpaceCoordinates) -> (same: bool)
        ensures
            same == self.is_at(place),
    {
        place.x >= 0 && place.y >= 0 && place.z >= 0 && place.x as u64 == self.x && place.y as u64
            == self.y && place.z as u64 == self.z
    }
}

impl CellSpan {
    /// The span on one axis.
    pub open spec fn on(self, axis: Axis) -> u8 {
        match axis {
            Axis::X => self.x,
            Axis::Y => self.y,
            Axis::Z => self.z,
        }
    }

    /// Whether the span is at least one on every axis.
    pub open spec fn is_positive(self) -> bool {
        self.x > 0 && self.y > 0 && self.z > 0
    }

    /// Whether the span is one that a level above the hexes can have on the
    /// two axes of the galactic plane: between 4 and 62.
    pub open spec fn fits_the_plane(self) -> bool {
        &&& MIN_DIVISION_SPAN <= self.x <= MAX_DIVISION_SPAN
        &&& MIN_DIVISION_SPAN <= self.y <= MAX_DIVISION_SPAN
    }

    /// Decides whether the span is at least one on every axis.
    pub fn has_no_gap(&self) -> (positive: bool)
        ensures
            positive == self.is_positive(),
    {
        self.x > 0 && self.y > 0 && self.z > 0
    }

    /// Decides whether the span is between 4 and 62 on the two axes of the
    /// galactic plane.
    pub fn lies_in_the_plane(&self) -> (fits: bool)
        ensures
            fits == self.fits_the_plane(),
    {
        MIN_DIVISION_SPAN <= self.x && self.x <= MAX_DIVISION_SPAN && MIN_DIVISION_SPAN <= self.y
            && self.y <= MAX_DIVISION_SPAN
    }

    /// The span on one axis.
    pub fn along(&self, axis: Axis) -> (span: u8)
        ensures
            span == self.on(axis),
    {
        match axis {
            Axis::X => self.x,
            Axis::Y => self.y,
            Axis::Z => self.z,
        }
    }
}

/// The span of the first entry for `level`, and 255 on every axis where
/// there is no such entry.
pub open spec fn span_at(levels: Seq<LevelRecord>, level: u8) -> CellSpan
    decreases levels.len(),
{
    if levels.len() == 0 {
        CellSpan { x: MISSING_LEVEL_SPAN, y: MISSING_LEVEL_SPAN, z: MISSING_LEVEL_SPAN }
    } else if levels[0].level == level {
        levels[0].span
    } else {
        span_at(levels.subrange(1, levels.len() as int), level)
    }
}

/// Whether the list of levels is one that a galaxy is made with: ten
/// entries, for the levels 0 to 9 in this order; a span of at least one on
/// every axis for the hexes; above them a span between 4 and 62 on the two
/// axes of the plane, and on the third axis either 1 at every level, for a
/// flat map, or between 4 and 62 at every level.
pub open spec fn levels_are_standard(levels: Seq<LevelRecord>) -> bool {
    &&& levels.len() == LEVEL_COUNT
    &&& forall|i: int| 0 <= i < LEVEL_COUNT ==> (#[trigger] levels[i]).level == i
    &&& levels[0].span.is_positive()
    &&& forall|i: int| 1 <= i < LEVEL_COUNT ==> (#[trigger] levels[i]).span.fits_the_plane()
    &&& {
        ||| forall|i: int| 1 <= i < LEVEL_COUNT ==> (#[trigger] levels[i]).span.z == 1
        ||| forall|i: int|
            1 <= i < LEVEL_COUNT ==> MIN_DIVISION_SPAN <= (#[trigger] levels[i]).span.z
                <= MAX_DIVISION_SPAN
    }
}

/// Whether every level from the hexes up to `top` has a span of at least one
/// on every axis.
pub open spec fn spans_are_positive(levels: Seq<LevelRecord>, top: u8) -> bool {
    forall|level: u8| level <= top ==> (#[trigger] span_at(levels, level)).is_positive()
}

/// The place, on one axis, of the cell of `level` that holds the coordinate
/// at `offset` from the start of the extent.
pub open spec fn cell_along(levels: Seq<LevelRecord>, axis: Axis, offset: int, level: nat) -> int
    decreases level,
{
    if level == 0 {
        offset / (span_at(levels, HEX_LEVEL).on(axis) as int)
    } else {
        cell_along(levels, axis, offset, (level - 1) as nat) / (span_at(levels, level as u8).on(
            axis,
        ) as int)
    }
}

/// The mathematical value of a `Grid`.
pub ghost struct GridModel {
    pub extent: GalaxyExtent,
    pub levels: Seq<LevelRecord>,
}

impl View for Grid {
    type V = GridModel;

    open spec fn view(&self) -> GridModel {
        GridModel { extent: self.extent, levels: self.levels@ }
    }
}

impl GridModel {
    /// Whether every level of the grid has a span of at least one on every
    /// axis, so that every coordinate of the extent has its cell.
    pub open spec fn is_usable(self) -> bool {
        spans_are_positive(self.levels, MAX_DIVISION_LEVEL)
    }

    /// The offset of `coord` from the start of the extent on one axis.
    pub open spec fn offset(self, axis: Axis, coord: SpaceCoordinates) -> int {
        match axis {
            Axis::X => coord.x - self.extent.start.x,
            Axis::Y => coord.y - self.extent.start.y,
            Axis::Z => coord.z - self.extent.start.z,
        }
    }

    /// The place, on one axis, of the cell of `level` that holds `coord`.
    pub open spec fn cell_on(self, axis: Axis, coord: SpaceCoordinates, level: u8) -> int {
        cell_along(self.levels, axis, self.offset(axis, coord), level as nat)
    }

    /// Whether the cell of `level` that holds `coord` stands at `(x, y, z)`.
    pub open spec fn places(self, coord: SpaceCoordinates, level: u8, x: int, y: int, z: int) -> bool {
        &&& x == self.cell_on(Axis::X, coord, level)
        &&& y == self.cell_on(Axis::Y, coord, level)
        &&& z == self.cell_on(Axis::Z, coord, level)
    }

    /// Whether the grid has a cell of `level` for `coord`.
    pub open spec fn has_cell(self, coord: SpaceCoordinates, level: u8) -> bool {
        self.extent.covers(coord) && level <= MAX_DIVISION_LEVEL && self.is_usable()
    }

    /// Whether the list of levels of the grid is one that a galaxy is made
    /// with.
    pub open spec fn is_standard(self) -> bool {
        levels_are_standard(self.levels)
    }
}

impl Grid {
    /// The span of `level`: that of the first entry for it, and 255 on every
    /// axis where the list holds none.
    pub fn span_of(&self, level: u8) -> (span: CellSpan)
        ensures
            span == span_at(self.levels@, level),
    {
        let mut i: usize = 0;
        assert(self.levels@.subrange(0, self.levels@.len() as int) == self.levels@);
        while i < self.levels.len()
            invariant
                i <= self.levels.len(),
                span_at(self.levels@, level) == span_at(
                    self.levels@.subrange(i as int, self.levels@.len() as int),
                    level,
                ),
            decreases self.levels.len() - i,
        {
            let rest = Ghost(self.levels@.subrange(i as int, self.levels@.len() as int));
            assert(rest@[0] == self.levels@[i as int]);
            assert(rest@.subrange(1, rest@.len() as int) == self.levels@.subrange(
                i + 1,
                self.levels@.len() as int,
            ));
            if self.levels[i].level == level {
                return self.levels[i].span;
            }
            i += 1;
        }
        CellSpan { x: MISSING_LEVEL_SPAN, y: MISSING_LEVEL_SPAN, z: MISSING_LEVEL_SPAN }
    }

    /// Decides whether the list of levels of the grid is one that a galaxy
    /// is made with. Such a grid is usable.
    pub fn standard(&self) -> (ok: bool)
        ensures
            ok == self@.is_standard(),
            ok ==> self@.is_usable(),
    {
        if self.levels.len() != LEVEL_COUNT {
            return false;
        }
        if self.levels[0].level != 0 || !self.levels[0].span.has_no_gap() {
            return false;
        }
        let mut flat: bool = true;
        let mut deep: bool = true;
        let mut i: usize = 1;
        while i < LEVEL_COUNT
            invariant
                1 <= i <= LEVEL_COUNT,
                self.levels@.len() == LEVEL_COUNT,
                forall|k: int| 0 <= k < i ==> (#[trigger] self.levels@[k]).level == k,
                forall|k: int| 1 <= k < i ==> (#[trigger] self.levels@[k]).span.fits_the_plane(),
                flat == (forall|k: int| 1 <= k < i ==> (#[trigger] self.levels@[k]).span.z == 1),
                deep == (forall|k: int|
                    1 <= k < i ==> MIN_DIVISION_SPAN <= (#[trigger] self.levels@[k]).span.z
                        <= MAX_DIVISION_SPAN),
            decreases LEVEL_COUNT - i,
        {
            let record = self.levels[i];
            if record.level as usize != i || !record.span.lies_in_the_plane() {
                assert(!((#[trigger] self.levels@[i as int]).level == i
                    && self.levels@[i as int].span.fits_the_plane()));
                return false;
            }
            let ghost was_flat = flat;
            let ghost was_deep = deep;
            flat = flat && record.span.z == 1;
            deep = deep && MIN_DIVISION_SPAN <= record.span.z && record.span.z <= MAX_DIVISION_SPAN;
            proof {
                if !flat && was_flat {
                    assert(self.levels@[i as int].span.z != 1);
                }
                if !deep && was_deep {
                    assert(!(MIN_DIVISION_SPAN <= self.levels@[i as int].span.z
                        <= MAX_DIVISION_SPAN));
                }
            }
            i += 1;
        }
        proof {
            if flat || deep {
                lemma_standard_levels_are_usable(self.levels@);
            }
        }
        flat || deep
    }

    /// Decides whether every level of the grid has a span of at least one on
    /// every axis.
    pub fn usable(&self) -> (ok: bool)
        ensures
            ok == self@.is_usable(),
    {
        let mut level: u8 = 0;
        while level <= MAX_DIVISION_LEVEL
            invariant
                level <= MAX_DIVISION_LEVEL + 1,
                forall|below: u8|
                    below < level ==> (#[trigger] span_at(self.levels@, below)).is_positive(),
            decreases MAX_DIVISION_LEVEL + 1 - level,
        {
            let span = self.span_of(level);
            if span.x == 0 || span.y == 0 || span.z == 0 {
                return false;
            }
            level += 1;
        }
        true
    }

    /// The place, on one axis, of the cell of `level` that holds the
    /// coordinate at `offset` from the start of the extent.
    pub fn cell_at_offset(&self, axis: Axis, offset: u64, level: u8) -> (cell: u64)
        requires
            level <= MAX_DIVISION_LEVEL,
            spans_are_positive(self.levels@, level),
        ensures
            cell == cell_along(self.levels@, axis, offset as int, level as nat),
    {
        assert(span_at(self.levels@, HEX_LEVEL).is_positive());
        let mut cell: u64 = offset / (self.span_of(HEX_LEVEL).along(axis) as u64);
        let mut done: u8 = 0;
        while done < level
            invariant
                done <= level <= MAX_DIVISION_LEVEL,
                spans_are_positive(self.levels@, level),
                cell == cell_along(self.levels@, axis, offset as int, done as nat),
            decreases level - done,
        {
            done += 1;
            assert(span_at(self.levels@, done).is_positive());
            cell = cell / (self.span_of(done).along(axis) as u64);
        }
        cell
    }

    /// The place of the cell of `level` that holds `coord`: `None` exactly
    /// where `coord` lies outside the extent, the level is above 9, or a
    /// level of the grid has no span on some axis.
    pub fn cell_index(&self, coord: SpaceCoordinates, level: u8) -> (found: Option<CellIndex>)
        ensures
            found is Some <==> self@.has_cell(coord, level),
            found matches Some(index) ==> self@.places(
                coord,
                level,
                index.x as int,
                index.y as int,
                index.z as int,
            ),
    {
        if level > MAX_DIVISION_LEVEL || !self.extent.contains(coord) || !self.usable() {
            return None;
        }
        let start = self.extent.start;
        let x: u64 = (coord.x as i128 - start.x as i128) as u64;
        let y: u64 = (coord.y as i128 - start.y as i128) as u64;
        let z: u64 = (coord.z as i128 - start.z as i128) as u64;
        Some(
            CellIndex {
                x: self.cell_at_offset(Axis::X, x, level),
                y: self.cell_at_offset(Axis::Y, y, level),
                z: self.cell_at_offset(Axis::Z, z, level),
            },
        )
    }

    /// The place of the hex that holds `coord`.
    pub fn hex_index(&self, coord: SpaceCoordinates) -> (found: Option<CellIndex>)
        ensures
            found is Some <==> self@.has_cell(coord, HEX_LEVEL),
            found matches Some(index) ==> self@.places(
                coord,
                HEX_LEVEL,
                index.x as int,
                index.y as int,
                index.z as int,
            ),
    {
        self.cell_index(coord, HEX_LEVEL)
    }
}

/// A cell lies between the start of its axis and the offset it was found at.
pub proof fn lemma_cell_is_bounded(levels: Seq<LevelRecord>, axis: Axis, offset: int, level: nat)
    requires
        0 <= offset,
        level <= MAX_DIVISION_LEVEL,
        spans_are_positive(levels, level as u8),
    ensures
        0 <= cell_along(levels, axis, offset, level) <= offset,
    decreases level,
{
    if level == 0 {
        assert(span_at(levels, HEX_LEVEL).is_positive());
        let span = span_at(levels, HEX_LEVEL).on(axis) as int;
        lemma_div_pos_is_pos(offset, span);
        lemma_div_nonincreasing(offset, span);
    } else {
        assert(span_at(levels, level as u8).is_positive());
        assert forall|below: u8| below <= (level - 1) as u8 implies (#[trigger] span_at(
            levels,
            below,
        )).is_positive() by {}
        lemma_cell_is_bounded(levels, axis, offset, (level - 1) as nat);
        let below = cell_along(levels, axis, offset, (level - 1) as nat);
        let span = span_at(levels, level as u8).on(axis) as int;
        lemma_div_pos_is_pos(below, span);
        lemma_div_nonincreasing(below, span);
    }
}

/// Cells keep the order of the coordinates: a coordinate further along an
/// axis lies in the same cell or in one further along.
pub proof fn lemma_cells_keep_order(
    levels: Seq<LevelRecord>,
    axis: Axis,
    near: int,
    far: int,
    level: nat,
)
    requires
        0 <= near <= far,
        level <= MAX_DIVISION_LEVEL,
        spans_are_positive(levels, level as u8),
    ensures
        cell_along(levels, axis, near, level) <= cell_along(levels, axis, far, level),
    decreases level,
{
    if level == 0 {
        assert(span_at(levels, HEX_LEVEL).is_positive());
        lemma_div_is_ordered(near, far, span_at(levels, HEX_LEVEL).on(axis) as int);
    } else {
        assert(span_at(levels, level as u8).is_positive());
        assert forall|below: u8| below <= (level - 1) as u8 implies (#[trigger] span_at(
            levels,
            below,
        )).is_positive() by {}
        lemma_cells_keep_order(levels, axis, near, far, (level - 1) as nat);
        lemma_div_is_ordered(
            cell_along(levels, axis, near, (level - 1) as nat),
            cell_along(levels, axis, far, (level - 1) as nat),
            span_at(levels, level as u8).on(axis) as int,
        );
    }
}

/// A cell has no gap: a coordinate between two coordinates of one cell lies
/// in that cell too.
pub proof fn lemma_cells_have_no_gap(
    levels: Seq<LevelRecord>,
    axis: Axis,
    near: int,
    between: int,
    far: int,
    level: nat,
)
    requires
        0 <= near <= between <= far,
        level <= MAX_DIVISION_LEVEL,
        spans_are_positive(levels, level as u8),
        cell_along(levels, axis, near, level) == cell_along(levels, axis, far, level),
    ensures
        cell_along(levels, axis, between, level) == cell_along(levels, axis, near, level),
{
    lemma_cells_keep_order(levels, axis, near, between, level);
    lemma_cells_keep_order(levels, axis, between, far, level);
}

/// Cells nest: two coordinates in one cell of a level lie in one cell of
/// every level above it.
pub proof fn lemma_cells_nest(
    levels: Seq<LevelRecord>,
    axis: Axis,
    one: int,
    other: int,
    level: nat,
    above: nat,
)
    requires
        level <= above,
        cell_along(levels, axis, one, level) == cell_along(levels, axis, other, level),
    ensures
        cell_along(levels, axis, one, above) == cell_along(levels, axis, other, above),
    decreases above,
{
    if level < above {
        lemma_cells_nest(levels, axis, one, other, level, (above - 1) as nat);
    }
}

/// In a standard list of levels the entry for a level stands at the place
/// of that level, and is the one whose span counts.
pub proof fn lemma_standard_levels_stand_in_order(levels: Seq<LevelRecord>, from: int, level: u8)
    requires
        levels_are_standard(levels),
        0 <= from <= level < LEVEL_COUNT,
    ensures
        span_at(levels.subrange(from, levels.len() as int), level) == levels[level as int].span,
    decreases level - from,
{
    let rest = levels.subrange(from, levels.len() as int);
    assert(rest[0] == levels[from]);
    if from < level {
        assert(rest.subrange(1, rest.len() as int) == levels.subrange(
            from + 1,
            levels.len() as int,
        ));
        lemma_standard_levels_stand_in_order(levels, from + 1, level);
    }
}

/// A standard list of levels has a span of at least one for every level on
/// every axis: a grid with such a list is usable.
pub proof fn lemma_standard_levels_are_usable(levels: Seq<LevelRecord>)
    requires
        levels_are_standard(levels),
    ensures
        spans_are_positive(levels, MAX_DIVISION_LEVEL),
        forall|level: u8|
            level <= MAX_DIVISION_LEVEL ==> #[trigger] span_at(levels, level)
                == levels[level as int].span,
{
    assert(levels.subrange(0, levels.len() as int) == levels);
    assert forall|level: u8| level <= MAX_DIVISION_LEVEL implies #[trigger] span_at(levels, level)
        == levels[level as int].span && span_at(levels, level).is_positive() by {
        lemma_standard_levels_stand_in_order(levels, 0, level);
        if level > 0 {
            assert(levels[level as int].span.fits_the_plane());
        }
    }
}

} // verus!
