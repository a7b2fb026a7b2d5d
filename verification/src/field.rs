//! The crop grid: cells, bounds, lookups and the one-way harvest transition.

use vstd::prelude::*;

verus! {

use vstd::pervasive::VecAdditionalExecFns;

use crate::clock::Clock;
use crate::movement::WorldPos;
use crate::numeric::{round_coord, round_to_cell};

/// Smallest and largest grid side lengths a field may have. The lower bound
/// keeps the combine's bounce rule meaningful; the upper bound keeps cell
/// counts and world coordinates comfortably inside machine integers.
pub const MIN_FIELD_SIDE: u32 = 2;
pub const MAX_FIELD_SIDE: u32 = 1000;

/// A grid coordinate. Field bounds are `[0, width) x [0, height)`.
#[derive(Debug, Default, Clone, Copy, PartialEq, Eq, Structural, Hash)]
pub struct Position {
    pub x: i32,
    pub y: i32,
}

/// One grid square: either a crop of a growth level 1..=4, or harvested.
/// Harvesting is a one-way transition; `Harvested` is terminal.
#[derive(Debug, Clone, Copy, PartialEq, Eq, Structural)]
pub enum Cell {
    Crop { level: u8 },
    Harvested,
}

/// Growth level a raw noise sample (in thousandths, nominally -1000..=1000)
/// maps to: quarters of the normalized sample range.
pub open spec fn noise_level(value: int) -> int {
    if value < -500 {
        1
    } else if value < 0 {
        2
    } else if value < 500 {
        3
    } else {
        4
    }
}

impl Cell {
    /// A crop's level is always within 1..=4.
    pub open spec fn wf(self) -> bool {
        self matches Cell::Crop { level } ==> 1 <= level <= 4
    }

    /// Initial cell for a terrain noise sample, given in thousandths.
    pub fn from_noise_value(value: i64) -> (c: Cell)
        ensures
            c matches Cell::Crop { level } && level == noise_level(value as int),
            c.wf(),
    {
        let level: u8 = if value < -500 {
            1
        } else if value < 0 {
            2
        } else if value < 500 {
            3
        } else {
            4
        };
        Cell::Crop { level }
    }
}

/// The cell a row-major grid of the given sides holds at integer
/// coordinates; absent outside the bounds, never a default cell.
pub open spec fn grid_cell(width: int, height: int, cells: Seq<Cell>, x: int, y: int) -> Option<
    Cell,
> {
    if 0 <= x < width && 0 <= y < height {
        Some(cells[y * width + x])
    } else {
        None
    }
}

/// The harvest transition on a row-major grid, as a mathematical function:
/// the cells afterward, and the crop value gained. An unharvested crop
/// turns `Harvested` and yields its level; any other position —
/// out-of-bounds ones included — changes nothing and yields zero.
pub open spec fn grid_harvest(width: int, height: int, cells: Seq<Cell>, x: int, y: int) -> (
    Seq<Cell>,
    int,
) {
    match grid_cell(width, height, cells, x, y) {
        Some(Cell::Crop { level }) => (cells.update(y * width + x, Cell::Harvested), level as int),
        _ => (cells, 0int),
    }
}

/// Harvest idempotence: harvesting is a one-way transition, so harvesting
/// the same position twice in a row yields crop value exactly once — the
/// second harvest changes nothing and gains nothing.
pub proof fn lemma_harvest_idempotent(width: int, height: int, cells: Seq<Cell>, x: int, y: int)
    requires
        cells.len() == width * height,
    ensures
        ({
            let once = grid_harvest(width, height, cells, x, y);
            grid_harvest(width, height, once.0, x, y) == (once.0, 0int)
        }),
{
    if 0 <= x < width && 0 <= y < height {
        assert(0 <= y * width + x < width * height) by (nonlinear_arith)
            requires
                0 <= x < width,
                0 <= y < height,
        ;
    }
}

/// Bounds closure: outside `[0, width) x [0, height)` there is no cell to
/// see and nothing to harvest — the lookup is absent and the harvest is a
/// no-op.
pub proof fn lemma_bounds_closure(width: int, height: int, cells: Seq<Cell>, x: int, y: int)
    requires
        !(0 <= x < width && 0 <= y < height),
    ensures
        grid_cell(width, height, cells, x, y) is None,
        grid_harvest(width, height, cells, x, y) == (cells, 0int),
{
}

/// Middle of the growth-interval range, in ms: the interval of a cell
/// whose terrain sample is zero.
pub const GROWTH_BASE_MS: u32 = 4000;

/// A crop cell's growth interval, derived from its deterministic terrain
/// sample (in thousandths): between three and five seconds.
pub open spec fn growth_interval_spec(sample: int) -> int {
    if sample < -1000 {
        GROWTH_BASE_MS - 1000
    } else if sample > 1000 {
        GROWTH_BASE_MS + 1000
    } else {
        GROWTH_BASE_MS + sample
    }
}

/// A cell after one growth opportunity: when its timer fired, a crop one
/// level from ripeness or further grows one level; ripe crop and
/// harvested ground are left alone. Growth and harvesting are
/// independent.
pub open spec fn grown_cell(c: Cell, fired: bool) -> Cell {
    if fired {
        match c {
            Cell::Crop { level } => if level < 4 {
                Cell::Crop { level: (level + 1) as u8 }
            } else {
                c
            },
            Cell::Harvested => c,
        }
    } else {
        c
    }
}

/// The cells after one growth opportunity, as a whole row: each cell's
/// fate decided by whether its own clock fires during the elapsed time.
pub open spec fn grown_cells_spec(cells: Seq<Cell>, timers: Seq<Clock>, delta_ms: int) -> Seq<
    Cell,
> {
    Seq::new(
        cells.len(),
        |i: int| grown_cell(cells[i], timers[i].elapsed_ms + delta_ms >= timers[i].duration_ms),
    )
}

/// The growth clocks after the elapsed time, as a whole row: each wraps
/// over its own interval.
pub open spec fn grown_timers_spec(timers: Seq<Clock>, delta_ms: int) -> Seq<Clock> {
    Seq::new(
        timers.len(),
        |i: int|
            Clock {
                elapsed_ms: ((timers[i].elapsed_ms + delta_ms) % (
                timers[i].duration_ms as int)) as u32,
                duration_ms: timers[i].duration_ms,
                repeating: timers[i].repeating,
            },
    )
}

/// Two cell rows with harvested cells at the same places count the same.
proof fn lemma_count_same_status(s1: Seq<Cell>, s2: Seq<Cell>)
    requires
        s1.len() == s2.len(),
        forall|i: int| 0 <= i < s1.len() ==> ((#[trigger] s1[i] is Harvested) <==> s2[i] is Harvested),
    ensures
        count_harvested(s1) == count_harvested(s2),
    decreases s1.len(),
{
    if s1.len() > 0 {
        assert(forall|i: int|
            0 <= i < s1.drop_last().len() ==> ((#[trigger] s1.drop_last()[i] is Harvested) <==> s2.drop_last()[i] is Harvested));
        lemma_count_same_status(s1.drop_last(), s2.drop_last());
    }
}

/// The optional per-cell growth machinery: one repeating clock per cell,
/// each with an interval derived from the cell's deterministic terrain
/// sample. Growth can be disabled outright by configuration.
#[derive(Debug, Clone)]
pub struct Growth {
    pub enabled: bool,
    pub timers: Vec<Clock>,
}

impl Growth {
    /// Structural invariant, relative to the field's cell count: one
    /// well-formed repeating clock per cell when enabled, none otherwise.
    pub open spec fn wf_for(self, n_cells: int) -> bool {
        &&& (forall|i: int|
            0 <= i < self.timers@.len() ==> (#[trigger] self.timers@[i]).wf()
                && self.timers@[i].repeating)
        &&& (self.enabled ==> self.timers@.len() == n_cells)
        &&& (!self.enabled ==> self.timers@.len() == 0)
    }

    /// Growth switched off: cells keep their levels forever.
    pub fn disabled() -> (g: Growth)
        ensures
            !g.enabled,
            g.timers@.len() == 0,
            forall|n: int| g.wf_for(n),
    {
        Growth { enabled: false, timers: Vec::new() }
    }

    /// Growth clocks for a row of cells, one per terrain sample; without
    /// samples every cell gets the middle interval.
    pub fn from_samples(n_cells: usize, samples: Option<&Vec<i64>>) -> (g: Growth)
        requires
            samples matches Some(s) ==> s@.len() == n_cells,
        ensures
            g.enabled,
            g.wf_for(n_cells as int),
            g.timers@.len() == n_cells,
            forall|i: int|
                0 <= i < n_cells ==> (#[trigger] g.timers@[i]).elapsed_ms == 0
                    && g.timers@[i].duration_ms == growth_interval_spec(
                    match samples {
                        Some(s) => s@[i] as int,
                        None => 0int,
                    },
                ),
    {
        let mut timers: Vec<Clock> = Vec::new();
        let mut i: usize = 0;
        while i < n_cells
            invariant
                i <= n_cells,
                timers@.len() == i,
                samples matches Some(s) ==> s@.len() == n_cells,
                forall|j: int|
                    0 <= j < i ==> (#[trigger] timers@[j]).wf() && timers@[j].repeating
                        && timers@[j].elapsed_ms == 0 && timers@[j].duration_ms
                        == growth_interval_spec(
                        match samples {
                            Some(s) => s@[j] as int,
                            None => 0int,
                        },
                    ),
            decreases n_cells - i,
        {
            let sample: i64 = match samples {
                Some(s) => s[i],
                None => 0,
            };
            let interval: u32 = if sample < -1000 {
                GROWTH_BASE_MS - 1000
            } else if sample > 1000 {
                GROWTH_BASE_MS + 1000
            } else {
                (GROWTH_BASE_MS as i64 + sample) as u32
            };
            timers.push(Clock::new(interval, true));
            i = i + 1;
        }
        Growth { enabled: true, timers }
    }
}

/// Let every crop cell take its growth opportunity: each cell's clock
/// advances by the elapsed time, and each crop whose clock fired this
/// tick grows one level, to ripeness at most. Harvested cells never come
/// back, so the harvested count — and with it the score — is untouched.
/// With growth disabled nothing changes at all.
pub fn grow(field: &mut Field, growth: &mut Growth, delta_ms: u32)
    requires
        old(field).wf(),
        old(growth).wf_for(old(field).cells@.len() as int),
        delta_ms <= crate::MAX_TICK_MS,
    ensures
        final(field).wf(),
        final(field).width == old(field).width,
        final(field).height == old(field).height,
        final(field).cells@.len() == old(field).cells@.len(),
        final(growth).wf_for(final(field).cells@.len() as int),
        final(growth).enabled == old(growth).enabled,
        final(field).harvested() == old(field).harvested(),
        !old(growth).enabled ==> *final(field) == *old(field) && *final(growth) == *old(growth),
        old(growth).enabled ==> final(field).cells@ == grown_cells_spec(
            old(field).cells@,
            old(growth).timers@,
            delta_ms as int,
        ),
        old(growth).enabled ==> final(growth).timers@ == grown_timers_spec(
            old(growth).timers@,
            delta_ms as int,
        ),
        old(growth).enabled ==> forall|i: int|
            0 <= i < old(field).cells@.len() ==> {
                let fired = old(growth).timers@[i].elapsed_ms + delta_ms
                    >= old(growth).timers@[i].duration_ms;
                &&& final(field).cells@[i] == grown_cell(#[trigger] old(field).cells@[i], fired)
                &&& final(growth).timers@[i].elapsed_ms == (old(growth).timers@[i].elapsed_ms
                    + delta_ms) % (old(growth).timers@[i].duration_ms as int)
                &&& final(growth).timers@[i].duration_ms == old(growth).timers@[i].duration_ms
            },
{
    if !growth.enabled {
        return ;
    }
    let len: usize = growth.timers.len();
    let mut i: usize = 0;
    while i < len
        invariant
            i <= len,
            growth.enabled,
            len == growth.timers@.len(),
            growth.timers@.len() == old(growth).timers@.len(),
            field.cells@.len() == old(field).cells@.len(),
            field.width == old(field).width,
            field.height == old(field).height,
            field.cells@.len() == len,
            delta_ms <= crate::MAX_TICK_MS,
            field.wf(),
            forall|j: int|
                0 <= j < len ==> (#[trigger] old(growth).timers@[j]).wf()
                    && old(growth).timers@[j].repeating,
            forall|j: int| 0 <= j < i ==> {
                let fired = old(growth).timers@[j].elapsed_ms + delta_ms
                    >= old(growth).timers@[j].duration_ms;
                &&& field.cells@[j] == grown_cell(#[trigger] old(field).cells@[j], fired)
                &&& growth.timers@[j].wf()
                &&& growth.timers@[j].repeating
                &&& growth.timers@[j].elapsed_ms == (old(growth).timers@[j].elapsed_ms + delta_ms)
                    % (old(growth).timers@[j].duration_ms as int)
                &&& growth.timers@[j].duration_ms == old(growth).timers@[j].duration_ms
            },
            forall|j: int| i <= j < len ==> growth.timers@[j] == #[trigger] old(growth).timers@[j],
            forall|j: int| i <= j < len ==> field.cells@[j] == #[trigger] old(field).cells@[j],
            forall|j: int|
                0 <= j < len ==> ((#[trigger] field.cells@[j] is Harvested) <==> old(
                    field,
                ).cells@[j] is Harvested),
        decreases len - i,
    {
        proof {
            assert(growth.timers@[i as int] == old(growth).timers@[i as int]);
            assert(field.cells@[i as int] == old(field).cells@[i as int]);
        }
        let mut clock: Clock = growth.timers[i];
        let fired = clock.tick(delta_ms);
        growth.timers.set(i, clock);
        if fired {
            match field.cells[i] {
                Cell::Crop { level } => {
                    if level < 4 {
                        field.cells.set(i, Cell::Crop { level: level + 1 });
                    }
                },
                Cell::Harvested => {},
            }
        }
        i = i + 1;
    }
    proof {
        lemma_count_same_status(field.cells@, old(field).cells@);
        assert(field.cells@ =~= grown_cells_spec(
            old(field).cells@,
            old(growth).timers@,
            delta_ms as int,
        ));
        assert forall|j: int|
            0 <= j < growth.timers@.len() implies growth.timers@[j] == grown_timers_spec(
            old(growth).timers@,
            delta_ms as int,
        )[j] by {
            assert(old(growth).timers@[j].wf());
            assert(old(field).cells@[j].wf());
        }
        assert(growth.timers@ =~= grown_timers_spec(old(growth).timers@, delta_ms as int));
        assert forall|j: int|
            0 <= j < growth.timers@.len() implies (#[trigger] growth.timers@[j]).wf()
            && growth.timers@[j].repeating by {
            assert(old(growth).timers@[j].wf());
            assert(old(field).cells@[j].wf());
        }
    }
}

/// The crop grid. Every in-bounds position holds exactly one cell, stored
/// row-major; out-of-bounds lookups return `None`, never a default cell.
#[derive(Debug, Clone)]
pub struct Field {
    pub width: u32,
    pub height: u32,
    pub cells: Vec<Cell>,
}

/// Cell counts of fields within the side-length caps stay small.
proof fn lemma_small_product(w: int, h: int)
    requires
        0 <= w <= MAX_FIELD_SIDE,
        0 <= h <= MAX_FIELD_SIDE,
    ensures
        0 <= w * h <= MAX_FIELD_SIDE * MAX_FIELD_SIDE,
{
    assert(0 <= w * h <= 1000 * 1000) by (nonlinear_arith)
        requires
            0 <= w <= 1000,
            0 <= h <= 1000,
    ;
}

/// A well-formed field's cell count is positive, small, and equal to the
/// length of its cell vector.
pub proof fn lemma_total_bounds(f: Field)
    requires
        f.wf(),
    ensures
        4 <= f.total() <= MAX_FIELD_SIDE * MAX_FIELD_SIDE,
        f.cells@.len() == f.total(),
{
    assert(4 <= f.width * f.height <= 1000 * 1000) by (nonlinear_arith)
        requires
            2 <= f.width <= 1000,
            2 <= f.height <= 1000,
    ;
}

/// Number of harvested cells in a row-major cell sequence.
pub open spec fn count_harvested(s: Seq<Cell>) -> int
    decreases s.len(),
{
    if s.len() == 0 {
        0
    } else {
        count_harvested(s.drop_last()) + if s.last() is Harvested {
            1int
        } else {
            0int
        }
    }
}

/// The harvested count lies between 0 and the number of cells.
pub proof fn lemma_count_harvested_bounds(s: Seq<Cell>)
    ensures
        0 <= count_harvested(s) <= s.len(),
    decreases s.len(),
{
    if s.len() > 0 {
        lemma_count_harvested_bounds(s.drop_last());
    }
}

/// A sequence without a single harvested cell counts zero.
pub proof fn lemma_count_harvested_none(s: Seq<Cell>)
    requires
        forall|i: int| 0 <= i < s.len() ==> !(#[trigger] s[i] is Harvested),
    ensures
        count_harvested(s) == 0,
    decreases s.len(),
{
    if s.len() > 0 {
        lemma_count_harvested_none(s.drop_last());
    }
}

/// Harvesting one unharvested cell raises the count by exactly one.
pub proof fn lemma_count_harvested_update(s: Seq<Cell>, i: int)
    requires
        0 <= i < s.len(),
        !(s[i] is Harvested),
    ensures
        count_harvested(s.update(i, Cell::Harvested)) == count_harvested(s) + 1,
    decreases s.len(),
{
    let t = s.update(i, Cell::Harvested);
    if i == s.len() - 1 {
        assert(t.drop_last() =~= s.drop_last());
    } else {
        assert(t.drop_last() =~= s.drop_last().update(i, Cell::Harvested));
        lemma_count_harvested_update(s.drop_last(), i);
    }
}

impl Field {
    /// Structural invariant: side lengths within range, one well-formed cell
    /// per in-bounds position, stored row-major.
    pub open spec fn wf(self) -> bool {
        &&& MIN_FIELD_SIDE <= self.width <= MAX_FIELD_SIDE
        &&& MIN_FIELD_SIDE <= self.height <= MAX_FIELD_SIDE
        &&& self.cells@.len() == self.width * self.height
        &&& forall|i: int| 0 <= i < self.cells@.len() ==> (#[trigger] self.cells@[i]).wf()
    }

    /// Whether integer grid coordinates fall inside the field bounds.
    pub open spec fn in_bounds_xy(self, x: int, y: int) -> bool {
        &&& 0 <= x < self.width
        &&& 0 <= y < self.height
    }

    pub open spec fn in_bounds(self, p: Position) -> bool {
        self.in_bounds_xy(p.x as int, p.y as int)
    }

    /// Row-major index of in-bounds grid coordinates.
    pub open spec fn index_of(self, x: int, y: int) -> int {
        y * self.width + x
    }

    /// The cell at integer grid coordinates; absent outside the bounds.
    pub open spec fn cell_at_xy(self, x: int, y: int) -> Option<Cell> {
        grid_cell(self.width as int, self.height as int, self.cells@, x, y)
    }

    pub open spec fn cell_at(self, p: Position) -> Option<Cell> {
        self.cell_at_xy(p.x as int, p.y as int)
    }

    /// Number of harvested cells.
    pub open spec fn harvested(self) -> int {
        count_harvested(self.cells@)
    }

    /// Total number of cells.
    pub open spec fn total(self) -> int {
        self.width * self.height
    }

    /// An in-bounds row-major index is within the cell vector.
    proof fn lemma_index_in_range(self, x: int, y: int)
        requires
            self.wf(),
            self.in_bounds_xy(x, y),
        ensures
            0 <= self.index_of(x, y) < self.cells@.len(),
    {
        assert(y * self.width + x < self.width * self.height) by (nonlinear_arith)
            requires
                0 <= x < self.width,
                0 <= y < self.height,
        ;
    }

    /// A fresh field of the given size, every cell an unharvested crop of
    /// level 1.
    pub fn new(width: u32, height: u32) -> (f: Field)
        requires
            MIN_FIELD_SIDE <= width <= MAX_FIELD_SIDE,
            MIN_FIELD_SIDE <= height <= MAX_FIELD_SIDE,
        ensures
            f.wf(),
            f.width == width,
            f.height == height,
            forall|i: int|
                0 <= i < f.cells@.len() ==> #[trigger] f.cells@[i] == (Cell::Crop { level: 1u8 }),
            f.harvested() == 0,
    {
        proof {
            lemma_small_product(width as int, height as int);
        }
        let total: usize = (width as usize) * (height as usize);
        let mut cells: Vec<Cell> = Vec::new();
        let mut i: usize = 0;
        while i < total
            invariant
                i <= total,
                cells@.len() == i,
                forall|j: int|
                    0 <= j < i ==> #[trigger] cells@[j] == (Cell::Crop { level: 1u8 }),
            decreases total - i,
        {
            cells.push(Cell::Crop { level: 1 });
            i = i + 1;
        }
        proof {
            lemma_count_harvested_none(cells@);
        }
        Field { width, height, cells }
    }

    /// A fresh field whose initial crop levels come from terrain noise
    /// samples, one per cell in row-major order, each in thousandths.
    pub fn from_samples(width: u32, height: u32, samples: &Vec<i64>) -> (f: Field)
        requires
            MIN_FIELD_SIDE <= width <= MAX_FIELD_SIDE,
            MIN_FIELD_SIDE <= height <= MAX_FIELD_SIDE,
            samples@.len() == width * height,
        ensures
            f.wf(),
            f.width == width,
            f.height == height,
            forall|i: int|
                0 <= i < f.cells@.len() ==> ((#[trigger] f.cells@[i]) matches Cell::Crop { level }
                    && level == noise_level(samples@[i] as int)),
            f.harvested() == 0,
    {
        proof {
            lemma_small_product(width as int, height as int);
        }
        let total: usize = (width as usize) * (height as usize);
        let mut cells: Vec<Cell> = Vec::new();
        let mut i: usize = 0;
        while i < total
            invariant
                i <= total,
                total == width * height,
                samples@.len() == total,
                cells@.len() == i,
                forall|j: int|
                    0 <= j < i ==> ((#[trigger] cells@[j]) matches Cell::Crop { level } && level
                        == noise_level(samples@[j] as int)),
            decreases total - i,
        {
            cells.push(Cell::from_noise_value(samples[i]));
            i = i + 1;
        }
        proof {
            assert(forall|j: int| 0 <= j < cells@.len() ==> !(#[trigger] cells@[j] is Harvested));
            lemma_count_harvested_none(cells@);
        }
        Field { width, height, cells }
    }

    /// The field's middle cell, where the combine starts.
    pub fn center(&self) -> (p: Position)
        requires
            self.wf(),
        ensures
            p.x == self.width / 2,
            p.y == self.height / 2,
            self.in_bounds(p),
    {
        Position { x: (self.width / 2) as i32, y: (self.height / 2) as i32 }
    }

    /// The cell at a grid position, absent when out of bounds.
    pub fn get(&self, position: Position) -> (r: Option<Cell>)
        requires
            self.wf(),
        ensures
            r == self.cell_at(position),
    {
        if position.x >= 0 && (position.x as u32) < self.width && position.y >= 0 && (position.y
            as u32) < self.height {
            proof {
                self.lemma_index_in_range(position.x as int, position.y as int);
                lemma_small_product(self.width as int, self.height as int);
            }
            let idx: usize = (position.y as usize) * (self.width as usize) + (position.x as usize);
            Some(self.cells[idx])
        } else {
            None
        }
    }

    /// The cell under a continuous world position: the world coordinate is
    /// rounded to the nearest grid cell and resolved through the grid.
    pub fn get_at(&self, world_coord: &WorldPos) -> (r: Option<Cell>)
        requires
            self.wf(),
            world_coord.wf(),
        ensures
            r == self.cell_at_xy(
                round_to_cell(world_coord.x as int),
                round_to_cell(world_coord.y as int),
            ),
    {
        let cx: i64 = round_coord(world_coord.x);
        let cy: i64 = round_coord(world_coord.y);
        if cx >= 0 && cx < self.width as i64 && cy >= 0 && cy < self.height as i64 {
            self.get(Position { x: cx as i32, y: cy as i32 })
        } else {
            None
        }
    }

    /// Harvest the cell at a grid position. An unharvested crop turns
    /// `Harvested` and yields its level in harvest units; anything else —
    /// out-of-bounds positions included — is a no-op yielding zero.
    pub fn harvest(&mut self, position: Position) -> (gained: u32)
        requires
            old(self).wf(),
        ensures
            final(self).wf(),
            final(self).width == old(self).width,
            final(self).height == old(self).height,
            match old(self).cell_at(position) {
                Some(Cell::Crop { level }) => {
                    &&& gained == level
                    &&& final(self).cells@ == old(self).cells@.update(
                        old(self).index_of(position.x as int, position.y as int),
                        Cell::Harvested,
                    )
                    &&& final(self).harvested() == old(self).harvested() + 1
                },
                _ => gained == 0 && *final(self) == *old(self),
            },
            final(self).harvested() >= old(self).harvested(),
            (gained > 0) <==> final(self).harvested() == old(self).harvested() + 1,
            (final(self).cells@, gained as int) == grid_harvest(
                old(self).width as int,
                old(self).height as int,
                old(self).cells@,
                position.x as int,
                position.y as int,
            ),
            final(self).cell_at(position) is Some ==> final(self).cell_at(position) == Some(
                Cell::Harvested,
            ) || old(self).cell_at(position) == final(self).cell_at(position),
    {
        if position.x >= 0 && (position.x as u32) < self.width && position.y >= 0 && (position.y
            as u32) < self.height {
            proof {
                self.lemma_index_in_range(position.x as int, position.y as int);
                lemma_small_product(self.width as int, self.height as int);
            }
            let idx: usize = (position.y as usize) * (self.width as usize) + (position.x as usize);
            match self.cells[idx] {
                Cell::Crop { level } => {
                    proof {
                        assert(self.cells@[idx as int].wf());
                        lemma_count_harvested_update(self.cells@, idx as int);
                    }
                    self.cells.set(idx, Cell::Harvested);
                    level as u32
                },
                Cell::Harvested => 0,
            }
        } else {
            0
        }
    }

    /// Number of harvested cells, counted over the grid.
    pub fn harvested_count(&self) -> (n: u32)
        requires
            self.wf(),
        ensures
            n == self.harvested(),
    {
        proof {
            lemma_small_product(self.width as int, self.height as int);
        }
        let len: usize = self.cells.len();
        let mut n: u32 = 0;
        let mut i: usize = 0;
        while i < len
            invariant
                i <= len,
                len == self.cells@.len(),
                self.cells@.len() <= MAX_FIELD_SIDE * MAX_FIELD_SIDE,
                n == count_harvested(self.cells@.take(i as int)),
                n <= i,
            decreases len - i,
        {
            proof {
                assert(self.cells@.take(i as int + 1).drop_last() =~= self.cells@.take(i as int));
                assert(self.cells@.take(i as int + 1).last() == self.cells@[i as int]);
            }
            match self.cells[i] {
                Cell::Harvested => {
                    n = n + 1;
                },
                Cell::Crop { .. } => {},
            }
            i = i + 1;
        }
        proof {
            assert(self.cells@.take(len as int) =~= self.cells@);
        }
        n
    }
}

} // verus!
