//! The autotiling engine: grid storage, the per-cell mask cache, and the
//! two operations the outside world calls.
//!
//! `place_terrain` mutates one cell and then recomputes the cached masks of
//! that cell and of its eight neighbors — each neighbor's mask depends on
//! its own neighborhood, which the changed cell belongs to. `get_variant`
//! reads the cached mask of a cell and resolves it against the rule table
//! of the cell's terrain. The engine's well-formedness ties the cache to
//! the grid: every non-blank cell caches exactly the sample of its current
//! neighborhood, and blank cells hold no entry. Placement fully
//! re-establishes that tie before it returns, so a resolution pass never
//! reads a partially updated neighborhood.

use vstd::prelude::*;

use crate::dirt_rules::DIRT_TEXTURE_OFFSET;
use crate::dirt_rules::dirt_rule_table;
use crate::dirt_rules::spec_dirt_table;
use crate::grass_rules::GRASS_TEXTURE_OFFSET;
use crate::grass_rules::grass_rule_table;
use crate::grass_rules::spec_grass_table;
use crate::blob::lemma_blob_resolve_complete;
use crate::ruleflag::RuleFlags;
use crate::rules::RuleTable;
use crate::rules::TileVariant;
use crate::rules::spec_resolve;
use crate::terrain_rules::Neighborhood;
use crate::terrain_rules::TerrainRule;
use crate::terrain_rules::TerrainType;
use crate::terrain_rules::spec_mask_for;
use crate::water_rules::WATER_TEXTURE_OFFSET;
use crate::water_rules::spec_water_table;
use crate::water_rules::water_rule_table;

verus! {

/// The terrain assignments of a rectangular grid, row by row: `cells[y]`
/// is row `y`, `cells[y][x]` the cell at column `x` of that row. Row zero
/// is the northern edge; `y` grows southward, `x` eastward.
#[derive(Clone, Debug)]
pub struct TerrainGrid {
    pub width: usize,
    pub height: usize,
    pub cells: Vec<Vec<TerrainType>>,
}

/// The terrain of the in-bounds cell `(x, y)`.
pub open spec fn spec_cell(g: TerrainGrid, x: int, y: int) -> TerrainType {
    g.cells@[y]@[x]
}

/// The terrain at `(x, y)`, or `None` where the position lies off the
/// grid. Off-grid positions are absent, never faults, and there is no
/// wraparound.
pub open spec fn spec_terrain_at(g: TerrainGrid, x: int, y: int) -> Option<TerrainType> {
    if 0 <= x < g.width && 0 <= y < g.height {
        Some(spec_cell(g, x, y))
    } else {
        None
    }
}

/// The neighborhood seen from the in-bounds cell `(x, y)`: its own terrain
/// and the terrain at each of the eight compass offsets.
pub open spec fn spec_neighborhood(g: TerrainGrid, x: int, y: int) -> Neighborhood {
    Neighborhood {
        c: spec_cell(g, x, y),
        nw: spec_terrain_at(g, x - 1, y - 1),
        n: spec_terrain_at(g, x, y - 1),
        ne: spec_terrain_at(g, x + 1, y - 1),
        w: spec_terrain_at(g, x - 1, y),
        e: spec_terrain_at(g, x + 1, y),
        sw: spec_terrain_at(g, x - 1, y + 1),
        s: spec_terrain_at(g, x, y + 1),
        se: spec_terrain_at(g, x + 1, y + 1),
    }
}

/// The full sample of the in-bounds cell `(x, y)`: one mask per terrain.
pub open spec fn spec_sample(g: TerrainGrid, x: int, y: int) -> TerrainRule {
    TerrainRule {
        grass: spec_mask_for(spec_neighborhood(g, x, y), TerrainType::Grass),
        dirt: spec_mask_for(spec_neighborhood(g, x, y), TerrainType::Dirt),
        water: spec_mask_for(spec_neighborhood(g, x, y), TerrainType::Water),
    }
}

impl TerrainGrid {
    /// The rows match the stated dimensions.
    pub open spec fn wf(&self) -> bool {
        &&& self.cells@.len() == self.height
        &&& forall|y: int| 0 <= y < self.height ==> self.cells@[y]@.len() == self.width
    }

    /// A grid of the given dimensions with every cell blank.
    pub fn new(width: usize, height: usize) -> (g: TerrainGrid)
        ensures
            g.wf(),
            g.width == width,
            g.height == height,
            forall|x: int, y: int|
                0 <= x < width && 0 <= y < height ==> spec_cell(g, x, y) == TerrainType::Blank,
    {
        let mut cells: Vec<Vec<TerrainType>> = Vec::new();
        let mut y: usize = 0;
        while y < height
            invariant
                y <= height,
                cells@.len() == y,
                forall|b: int| 0 <= b < y ==> cells@[b]@.len() == width,
                forall|a: int, b: int|
                    0 <= a < width && 0 <= b < y ==> cells@[b]@[a] == TerrainType::Blank,
            decreases height - y,
        {
            let mut row: Vec<TerrainType> = Vec::new();
            let mut x: usize = 0;
            while x < width
                invariant
                    x <= width,
                    row@.len() == x,
                    forall|a: int| 0 <= a < x ==> row@[a] == TerrainType::Blank,
                decreases width - x,
            {
                row.push(TerrainType::Blank);
                x = x + 1;
            }
            cells.push(row);
            y = y + 1;
        }
        TerrainGrid { width, height, cells }
    }

    /// The terrain of the in-bounds cell `(x, y)`.
    pub fn cell(&self, x: usize, y: usize) -> (t: TerrainType)
        requires
            self.wf(),
            x < self.width,
            y < self.height,
        ensures
            t == spec_cell(*self, x as int, y as int),
    {
        self.cells[y][x]
    }

    /// The terrain at `(x, y)`, or `None` where the position lies off the
    /// grid.
    pub fn terrain_at(&self, x: usize, y: usize) -> (t: Option<TerrainType>)
        requires
            self.wf(),
        ensures
            t == spec_terrain_at(*self, x as int, y as int),
    {
        if x < self.width && y < self.height {
            Some(self.cells[y][x])
        } else {
            None
        }
    }

    /// Assigns terrain `t` to the in-bounds cell `(x, y)`, leaving every
    /// other cell as it was.
    pub fn set(&mut self, x: usize, y: usize, t: TerrainType)
        requires
            old(self).wf(),
            x < old(self).width,
            y < old(self).height,
        ensures
            final(self).wf(),
            final(self).width == old(self).width,
            final(self).height == old(self).height,
            spec_cell(*final(self), x as int, y as int) == t,
            forall|a: int, b: int|
                0 <= a < old(self).width && 0 <= b < old(self).height && !(a == x && b == y)
                    ==> spec_cell(*final(self), a, b) == spec_cell(*old(self), a, b),
    {
        self.cells[y][x] = t;
    }

    /// The neighborhood seen from the in-bounds cell `(x, y)`, with
    /// off-grid neighbors absent.
    pub fn neighborhood(&self, x: usize, y: usize) -> (nb: Neighborhood)
        requires
            self.wf(),
            x < self.width,
            y < self.height,
        ensures
            nb == spec_neighborhood(*self, x as int, y as int),
    {
        let w = self.width;
        let h = self.height;
        Neighborhood {
            c: self.cells[y][x],
            nw: if x > 0 && y > 0 {
                Some(self.cells[y - 1][x - 1])
            } else {
                None
            },
            n: if y > 0 {
                Some(self.cells[y - 1][x])
            } else {
                None
            },
            ne: if x + 1 < w && y > 0 {
                Some(self.cells[y - 1][x + 1])
            } else {
                None
            },
            w: if x > 0 {
                Some(self.cells[y][x - 1])
            } else {
                None
            },
            e: if x + 1 < w {
                Some(self.cells[y][x + 1])
            } else {
                None
            },
            sw: if x > 0 && y + 1 < h {
                Some(self.cells[y + 1][x - 1])
            } else {
                None
            },
            s: if y + 1 < h {
                Some(self.cells[y + 1][x])
            } else {
                None
            },
            se: if x + 1 < w && y + 1 < h {
                Some(self.cells[y + 1][x + 1])
            } else {
                None
            },
        }
    }

    /// Samples the in-bounds cell `(x, y)`: one mask per terrain, where a
    /// direction flag is set exactly when that neighbor is on the grid and
    /// holds the terrain, and the center flag exactly when the cell itself
    /// does.
    pub fn sample(&self, x: usize, y: usize) -> (tr: TerrainRule)
        requires
            self.wf(),
            x < self.width,
            y < self.height,
        ensures
            tr == spec_sample(*self, x as int, y as int),
    {
        let nb = self.neighborhood(x, y);
        TerrainRule::from_neighbors(&nb)
    }
}

/// The rule tables of every terrain, built once at startup and read-only
/// afterwards.
#[derive(Clone, Debug)]
pub struct Rules {
    pub grass: RuleTable,
    pub dirt: RuleTable,
    pub water: RuleTable,
}

/// What resolving a mask for a given terrain returns: the first matching
/// rule's variant out of that terrain's table. Blank has no table and no
/// variant.
pub open spec fn spec_resolve_terrain(t: TerrainType, m: RuleFlags) -> Option<TileVariant> {
    match t {
        TerrainType::Blank => None,
        TerrainType::Grass => spec_resolve(spec_grass_table(), m),
        TerrainType::Dirt => spec_resolve(spec_dirt_table(), m),
        TerrainType::Water => spec_resolve(spec_water_table(WATER_TEXTURE_OFFSET), m),
    }
}

impl Rules {
    /// Each table holds its terrain's standard rule set.
    pub open spec fn wf(&self) -> bool {
        &&& self.grass.rules@ == spec_grass_table()
        &&& self.dirt.rules@ == spec_dirt_table()
        &&& self.water.rules@ == spec_water_table(WATER_TEXTURE_OFFSET)
    }

    /// Builds the standard rule tables: the blob table at the grass and
    /// dirt offsets and the four-entry water table.
    pub fn standard() -> (r: Rules)
        ensures
            r.wf(),
    {
        Rules {
            grass: grass_rule_table(),
            dirt: dirt_rule_table(),
            water: water_rule_table(WATER_TEXTURE_OFFSET),
        }
    }

    /// Resolves a mask against the table of the given terrain.
    pub fn resolve(&self, t: TerrainType, m: RuleFlags) -> (r: Option<TileVariant>)
        requires
            self.wf(),
        ensures
            r == spec_resolve_terrain(t, m),
    {
        match t {
            TerrainType::Blank => None,
            TerrainType::Grass => self.grass.resolve(m),
            TerrainType::Dirt => self.dirt.resolve(m),
            TerrainType::Water => self.water.resolve(m),
        }
    }
}

/// The per-cell memo of the last computed sample, laid out like the grid:
/// `active_rules[y][x]` holds the cached sample of cell `(x, y)`, or
/// `None` for a cell with no terrain assigned.
#[derive(Clone, Debug)]
pub struct ActiveRules {
    pub active_rules: Vec<Vec<Option<TerrainRule>>>,
}

/// The cached entry at `(x, y)`.
pub open spec fn spec_cached(ar: ActiveRules, x: int, y: int) -> Option<TerrainRule> {
    ar.active_rules@[y]@[x]
}

/// What the cache must hold for cell `(x, y)` of grid `g`: nothing for a
/// blank cell, the cell's current sample otherwise.
pub open spec fn spec_cache_entry(g: TerrainGrid, x: int, y: int) -> Option<TerrainRule> {
    if spec_cell(g, x, y) == TerrainType::Blank {
        None
    } else {
        Some(spec_sample(g, x, y))
    }
}

impl ActiveRules {
    /// The cache rows match the given dimensions.
    pub open spec fn wf_dims(&self, width: usize, height: usize) -> bool {
        &&& self.active_rules@.len() == height
        &&& forall|y: int| 0 <= y < height ==> self.active_rules@[y]@.len() == width
    }

    /// A cache of the given dimensions with no entry anywhere.
    pub fn new(width: usize, height: usize) -> (ar: ActiveRules)
        ensures
            ar.wf_dims(width, height),
            forall|x: int, y: int|
                0 <= x < width && 0 <= y < height ==> spec_cached(ar, x, y) is None,
    {
        let mut rows: Vec<Vec<Option<TerrainRule>>> = Vec::new();
        let mut y: usize = 0;
        while y < height
            invariant
                y <= height,
                rows@.len() == y,
                forall|b: int| 0 <= b < y ==> rows@[b]@.len() == width,
                forall|a: int, b: int| 0 <= a < width && 0 <= b < y ==> rows@[b]@[a] is None,
            decreases height - y,
        {
            let mut row: Vec<Option<TerrainRule>> = Vec::new();
            let mut x: usize = 0;
            while x < width
                invariant
                    x <= width,
                    row@.len() == x,
                    forall|a: int| 0 <= a < x ==> row@[a] is None,
                decreases width - x,
            {
                row.push(None);
                x = x + 1;
            }
            rows.push(row);
            y = y + 1;
        }
        ActiveRules { active_rules: rows }
    }

    /// Removes every entry, ahead of a bulk recomputation pass.
    pub fn clear(&mut self)
        ensures
            final(self).active_rules@.len() == 0,
    {
        self.active_rules.clear();
    }
}

/// The autotiling engine: the grid, the cache kept consistent with it, and
/// the rule tables.
#[derive(Clone, Debug)]
pub struct AutoTiler {
    pub grid: TerrainGrid,
    pub active_rules: ActiveRules,
    pub rules: Rules,
}

/// The variant the cell at `(x, y)` displays: its terrain's table resolved
/// against its sampled mask for that terrain, `None` for a blank cell or
/// an unmatched mask.
pub open spec fn spec_get_variant(g: TerrainGrid, x: int, y: int) -> Option<TileVariant> {
    match spec_cell(g, x, y) {
        TerrainType::Blank => None,
        TerrainType::Grass => spec_resolve_terrain(TerrainType::Grass, spec_sample(g, x, y).grass),
        TerrainType::Dirt => spec_resolve_terrain(TerrainType::Dirt, spec_sample(g, x, y).dirt),
        TerrainType::Water => spec_resolve_terrain(TerrainType::Water, spec_sample(g, x, y).water),
    }
}

/// Two grids of the same dimensions that agree everywhere but at
/// `(cx, cy)` give every cell outside the 3x3 block around `(cx, cy)` the
/// same sample and the same cache obligation.
proof fn lemma_sample_local(g1: TerrainGrid, g2: TerrainGrid, x: int, y: int, cx: int, cy: int)
    requires
        g1.wf(),
        g2.wf(),
        g1.width == g2.width,
        g1.height == g2.height,
        forall|a: int, b: int|
            0 <= a < g1.width && 0 <= b < g1.height && !(a == cx && b == cy) ==> spec_cell(g2, a, b)
                == spec_cell(g1, a, b),
        0 <= x < g1.width,
        0 <= y < g1.height,
        x + 1 < cx || cx + 1 < x || y + 1 < cy || cy + 1 < y,
    ensures
        spec_sample(g2, x, y) == spec_sample(g1, x, y),
        spec_cache_entry(g2, x, y) == spec_cache_entry(g1, x, y),
{
    assert forall|a: int, b: int|
        x - 1 <= a <= x + 1 && y - 1 <= b <= y + 1 implies spec_terrain_at(g2, a, b)
        == spec_terrain_at(g1, a, b) by {
        if 0 <= a < g1.width && 0 <= b < g1.height {
            assert(!(a == cx && b == cy));
            assert(spec_cell(g2, a, b) == spec_cell(g1, a, b));
        }
    }
    assert(spec_neighborhood(g2, x, y) == spec_neighborhood(g1, x, y));
}

impl AutoTiler {
    /// The grid is well formed, the tables are the standard ones, and the
    /// cache holds exactly what the grid demands: nothing for blank cells,
    /// the current sample for every other cell.
    pub open spec fn wf(&self) -> bool {
        &&& self.grid.wf()
        &&& self.rules.wf()
        &&& self.active_rules.wf_dims(self.grid.width, self.grid.height)
        &&& forall|x: int, y: int|
            0 <= x < self.grid.width && 0 <= y < self.grid.height ==> spec_cached(
                self.active_rules,
                x,
                y,
            ) == spec_cache_entry(self.grid, x, y)
    }

    /// An engine over an all-blank grid of the given dimensions.
    pub fn new(width: usize, height: usize) -> (t: AutoTiler)
        ensures
            t.wf(),
            t.grid.width == width,
            t.grid.height == height,
            forall|x: int, y: int|
                0 <= x < width && 0 <= y < height ==> spec_cell(t.grid, x, y)
                    == TerrainType::Blank,
    {
        let grid = TerrainGrid::new(width, height);
        let active_rules = ActiveRules::new(width, height);
        AutoTiler { grid, active_rules, rules: Rules::standard() }
    }

    /// Recomputes the cache entry of the in-bounds cell `(x, y)` from the
    /// current grid, leaving every other entry and the grid itself alone.
    fn refresh_cell(&mut self, x: usize, y: usize)
        requires
            old(self).grid.wf(),
            old(self).active_rules.wf_dims(old(self).grid.width, old(self).grid.height),
            x < old(self).grid.width,
            y < old(self).grid.height,
        ensures
            final(self).grid == old(self).grid,
            final(self).rules == old(self).rules,
            final(self).active_rules.wf_dims(old(self).grid.width, old(self).grid.height),
            forall|a: int, b: int|
                0 <= a < old(self).grid.width && 0 <= b < old(self).grid.height ==> spec_cached(
                    final(self).active_rules,
                    a,
                    b,
                ) == (if a == x && b == y {
                    spec_cache_entry(old(self).grid, a, b)
                } else {
                    spec_cached(old(self).active_rules, a, b)
                }),
    {
        let entry = if matches!(self.grid.cell(x, y), TerrainType::Blank) {
            None
        } else {
            Some(self.grid.sample(x, y))
        };
        self.active_rules.active_rules[y][x] = entry;
    }

    /// Assigns terrain `t` to the in-bounds cell `(x, y)` — `Blank` clears
    /// it — and recomputes the cached masks of that cell and of all eight
    /// of its neighbors, whose samples the changed cell belongs to. Every
    /// cell outside that 3x3 block keeps both its terrain and its cached
    /// mask, and the cache is again consistent with the whole grid when
    /// the call returns.
    pub fn place_terrain(&mut self, x: usize, y: usize, t: TerrainType)
        requires
            old(self).wf(),
            x < old(self).grid.width,
            y < old(self).grid.height,
        ensures
            final(self).wf(),
            final(self).grid.width == old(self).grid.width,
            final(self).grid.height == old(self).grid.height,
            spec_cell(final(self).grid, x as int, y as int) == t,
            forall|a: int, b: int|
                0 <= a < old(self).grid.width && 0 <= b < old(self).grid.height && !(a == x && b
                    == y) ==> spec_cell(final(self).grid, a, b) == spec_cell(old(self).grid, a, b),
    {
        let ghost g1 = self.grid;
        let w = self.grid.width;
        let h = self.grid.height;
        self.grid.set(x, y, t);
        let ghost g2 = self.grid;
        self.refresh_cell(x, y);
        if x > 0 {
            self.refresh_cell(x - 1, y);
        }
        if x + 1 < w {
            self.refresh_cell(x + 1, y);
        }
        if y > 0 {
            self.refresh_cell(x, y - 1);
            if x > 0 {
                self.refresh_cell(x - 1, y - 1);
            }
            if x + 1 < w {
                self.refresh_cell(x + 1, y - 1);
            }
        }
        if y + 1 < h {
            self.refresh_cell(x, y + 1);
            if x > 0 {
                self.refresh_cell(x - 1, y + 1);
            }
            if x + 1 < w {
                self.refresh_cell(x + 1, y + 1);
            }
        }
        proof {
            assert forall|a: int, b: int|
                0 <= a < w && 0 <= b < h implies spec_cached(self.active_rules, a, b)
                == spec_cache_entry(self.grid, a, b) by {
                if a < x - 1 || a > x + 1 || b < y - 1 || b > y + 1 {
                    lemma_sample_local(g1, g2, a, b, x as int, y as int);
                }
            }
        }
    }

    /// The cached sample of the in-bounds cell `(x, y)`: `None` for a
    /// blank cell, the sample of its current neighborhood otherwise.
    pub fn cached_rule(&self, x: usize, y: usize) -> (r: Option<TerrainRule>)
        requires
            self.wf(),
            x < self.grid.width,
            y < self.grid.height,
        ensures
            r == spec_cache_entry(self.grid, x as int, y as int),
    {
        self.active_rules.active_rules[y][x]
    }

    /// The variant the cell at `(x, y)` displays, resolved from its cached
    /// mask: `None` for a blank cell or for a mask outside its terrain's
    /// table. Grass and dirt cells always resolve, their table being
    /// complete; a `None` for them cannot occur.
    pub fn get_variant(&self, x: usize, y: usize) -> (r: Option<TileVariant>)
        requires
            self.wf(),
            x < self.grid.width,
            y < self.grid.height,
        ensures
            r == spec_get_variant(self.grid, x as int, y as int),
            spec_cell(self.grid, x as int, y as int) == TerrainType::Grass ==> r is Some,
            spec_cell(self.grid, x as int, y as int) == TerrainType::Dirt ==> r is Some,
    {
        let t = self.grid.cell(x, y);
        let cached = self.active_rules.active_rules[y][x];
        proof {
            assert(spec_cached(self.active_rules, x as int, y as int) == spec_cache_entry(
                self.grid,
                x as int,
                y as int,
            ));
            if t == TerrainType::Grass {
                lemma_blob_resolve_complete(
                    GRASS_TEXTURE_OFFSET,
                    spec_sample(self.grid, x as int, y as int).grass,
                );
            }
            if t == TerrainType::Dirt {
                lemma_blob_resolve_complete(
                    DIRT_TEXTURE_OFFSET,
                    spec_sample(self.grid, x as int, y as int).dirt,
                );
            }
        }
        match cached {
            None => None,
            Some(tr) => {
                match t {
                    TerrainType::Blank => None,
                    TerrainType::Grass => self.rules.resolve(TerrainType::Grass, tr.grass),
                    TerrainType::Dirt => self.rules.resolve(TerrainType::Dirt, tr.dirt),
                    TerrainType::Water => self.rules.resolve(TerrainType::Water, tr.water),
                }
            },
        }
    }

    /// Rebuilds the whole cache from the grid in one bulk pass, as after a
    /// grid reload: every cell's entry is recomputed before the engine is
    /// read again.
    pub fn recompute_all(&mut self)
        requires
            old(self).grid.wf(),
            old(self).rules.wf(),
            old(self).active_rules.wf_dims(old(self).grid.width, old(self).grid.height),
        ensures
            final(self).wf(),
            final(self).grid == old(self).grid,
    {
        let w = self.grid.width;
        let h = self.grid.height;
        let mut y: usize = 0;
        while y < h
            invariant
                y <= h,
                w == self.grid.width,
                h == self.grid.height,
                self.grid.wf(),
                self.rules.wf(),
                self.grid == old(self).grid,
                self.rules == old(self).rules,
                self.active_rules.wf_dims(w, h),
                forall|a: int, b: int|
                    0 <= a < w && 0 <= b < y ==> spec_cached(self.active_rules, a, b)
                        == spec_cache_entry(self.grid, a, b),
            decreases h - y,
        {
            let mut x: usize = 0;
            while x < w
                invariant
                    x <= w,
                    y < h,
                    w == self.grid.width,
                    h == self.grid.height,
                    self.grid.wf(),
                    self.rules.wf(),
                    self.grid == old(self).grid,
                    self.rules == old(self).rules,
                    self.active_rules.wf_dims(w, h),
                    forall|a: int, b: int|
                        0 <= a < w && 0 <= b < y ==> spec_cached(self.active_rules, a, b)
                            == spec_cache_entry(self.grid, a, b),
                    forall|a: int|
                        0 <= a < x ==> spec_cached(self.active_rules, a, y as int)
                            == spec_cache_entry(self.grid, a, y as int),
                decreases w - x,
            {
                self.refresh_cell(x, y);
                x = x + 1;
            }
            y = y + 1;
        }
    }
}

} // verus!
