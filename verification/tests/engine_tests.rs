use autotile::engine::ActiveRules;
use autotile::engine::AutoTiler;
use autotile::engine::Rules;
use autotile::engine::TerrainGrid;
use autotile::ruleflag::RuleFlags;
use autotile::rules::TileVariant;
use autotile::terrain_rules::Neighborhood;
use autotile::terrain_rules::TerrainRule;
use autotile::terrain_rules::TerrainType;

fn flags(bits: u32) -> RuleFlags {
    RuleFlags::from_bits(bits).expect("bits within the nine flags")
}

#[test]
fn corner_sampling_sets_only_in_bounds_neighbor_flags() {
    let mut grid = TerrainGrid::new(4, 4);
    grid.set(0, 0, TerrainType::Grass);
    grid.set(1, 0, TerrainType::Grass);
    grid.set(0, 1, TerrainType::Grass);
    grid.set(1, 1, TerrainType::Grass);
    let sample = grid.sample(0, 0);
    // At the (0,0) corner the north and west sides are off the grid, so
    // only the east, south and south-east flags (and the center) can be
    // set; no off-grid flag ever is.
    assert_eq!(sample.grass, flags(0b_000_011_011));
    assert!(sample.dirt.is_empty());
    assert!(sample.water.is_empty());
}

#[test]
fn off_grid_lookup_is_absent_not_a_fault() {
    let grid = TerrainGrid::new(3, 3);
    assert_eq!(grid.terrain_at(1, 1), Some(TerrainType::Blank));
    assert_eq!(grid.terrain_at(3, 1), None);
    assert_eq!(grid.terrain_at(1, 3), None);
    assert_eq!(grid.terrain_at(100, 100), None);
}

#[test]
fn from_neighbors_reads_each_direction_once() {
    let nb = Neighborhood {
        c: TerrainType::Grass,
        nw: None,
        n: Some(TerrainType::Dirt),
        ne: Some(TerrainType::Grass),
        w: Some(TerrainType::Water),
        e: Some(TerrainType::Grass),
        sw: Some(TerrainType::Blank),
        s: Some(TerrainType::Grass),
        se: None,
    };
    let tr = TerrainRule::from_neighbors(&nb);
    assert_eq!(tr.grass, flags(0b_001_011_010));
    assert_eq!(tr.dirt, flags(0b_010_000_000));
    assert_eq!(tr.water, flags(0b_000_100_000));
}

#[test]
fn into_tile_texture_picks_the_center_terrain_table() {
    let nb = Neighborhood {
        c: TerrainType::Dirt,
        nw: None,
        n: None,
        ne: None,
        w: None,
        e: None,
        sw: None,
        s: Some(TerrainType::Dirt),
        se: None,
    };
    let tr = TerrainRule::from_neighbors(&nb);
    // A dirt cell with one dirt neighbor to the south: pattern C|S at the
    // dirt offset.
    assert_eq!(tr.tile_texture(), Some(TileVariant(48)));
    assert_eq!(tr.into_tile_texture(0, 48, 96), Some(TileVariant(48)));
    assert_eq!(tr.into_tile_texture(100, 200, 300), Some(TileVariant(200)));
}

#[test]
fn into_tile_texture_of_a_blank_cell_is_none() {
    let nb = Neighborhood {
        c: TerrainType::Blank,
        nw: None,
        n: Some(TerrainType::Grass),
        ne: None,
        w: None,
        e: None,
        sw: None,
        s: None,
        se: None,
    };
    let tr = TerrainRule::from_neighbors(&nb);
    assert_eq!(tr.tile_texture(), None);
}

#[test]
fn placing_grass_with_one_south_neighbor_resolves_end_to_end() {
    let mut tiler = AutoTiler::new(64, 64);
    tiler.place_terrain(5, 5, TerrainType::Grass);
    tiler.place_terrain(5, 6, TerrainType::Grass);
    // Cell (5,5): south neighbor grass, all seven others empty, center
    // filled — the minimal north-open, south-filled pattern, variant 0.
    assert_eq!(tiler.get_variant(5, 5), Some(TileVariant(0)));
    // Cell (5,6): north neighbor grass, center filled — variant 24.
    assert_eq!(tiler.get_variant(5, 6), Some(TileVariant(24)));
}

#[test]
fn blank_cells_have_no_variant_and_no_cache_entry() {
    let mut tiler = AutoTiler::new(8, 8);
    assert_eq!(tiler.get_variant(3, 3), None);
    assert_eq!(tiler.cached_rule(3, 3), None);
    tiler.place_terrain(3, 3, TerrainType::Grass);
    assert!(tiler.cached_rule(3, 3).is_some());
    tiler.place_terrain(3, 3, TerrainType::Blank);
    assert_eq!(tiler.get_variant(3, 3), None);
    assert_eq!(tiler.cached_rule(3, 3), None);
}

#[test]
fn an_isolated_grass_cell_uses_the_lone_pattern() {
    let mut tiler = AutoTiler::new(1, 1);
    tiler.place_terrain(0, 0, TerrainType::Grass);
    // Every neighbor is off the grid: the mask is the bare center flag.
    assert_eq!(tiler.get_variant(0, 0), Some(TileVariant(36)));
}

#[test]
fn placing_one_tile_recomputes_all_nine_masks() {
    let mut tiler = AutoTiler::new(8, 8);
    for y in 2..5 {
        for x in 2..5 {
            tiler.place_terrain(x, y, TerrainType::Grass);
        }
    }
    let before: Vec<Option<TerrainRule>> = neighborhood_cache(&tiler, 3, 3);
    tiler.place_terrain(3, 3, TerrainType::Dirt);
    let after: Vec<Option<TerrainRule>> = neighborhood_cache(&tiler, 3, 3);
    // All nine cached samples changed, not only the placed cell's: each
    // neighbor's mask depends on the changed center.
    assert_eq!(before.len(), 9);
    for (b, a) in before.iter().zip(after.iter()) {
        assert_ne!(b, a);
    }
    // Each neighbor now sees dirt, not grass, in the direction of (3,3).
    let nw = after[0].unwrap();
    assert!(!nw.grass.se && nw.dirt.se);
    let n = after[1].unwrap();
    assert!(!n.grass.s && n.dirt.s);
    let e = after[5].unwrap();
    assert!(!e.grass.w && e.dirt.w);
    let center = after[4].unwrap();
    assert!(center.dirt.c && !center.grass.c);
}

/// The cached samples of the 3x3 block around `(x, y)`, row by row.
fn neighborhood_cache(tiler: &AutoTiler, x: usize, y: usize) -> Vec<Option<TerrainRule>> {
    let mut out = Vec::new();
    for b in [y - 1, y, y + 1] {
        for a in [x - 1, x, x + 1] {
            out.push(tiler.cached_rule(a, b));
        }
    }
    out
}

#[test]
fn cells_outside_the_block_keep_their_cache() {
    let mut tiler = AutoTiler::new(8, 8);
    tiler.place_terrain(0, 0, TerrainType::Water);
    let far_before = tiler.cached_rule(0, 0);
    tiler.place_terrain(5, 5, TerrainType::Grass);
    assert_eq!(tiler.cached_rule(0, 0), far_before);
}

#[test]
fn isolated_water_has_no_variant_and_never_panics() {
    let mut tiler = AutoTiler::new(5, 5);
    tiler.place_terrain(2, 2, TerrainType::Water);
    // No cardinal neighbor is water: the mask is outside water's four
    // entries, and the answer is a plain None.
    assert_eq!(tiler.get_variant(2, 2), None);
}

#[test]
fn water_with_a_north_water_neighbor_resolves() {
    let mut tiler = AutoTiler::new(5, 5);
    tiler.place_terrain(2, 1, TerrainType::Water);
    tiler.place_terrain(2, 2, TerrainType::Water);
    assert_eq!(tiler.get_variant(2, 2), Some(TileVariant(96)));
    assert_eq!(tiler.get_variant(2, 1), Some(TileVariant(97)));
}

#[test]
fn grass_dirt_and_water_tiles_do_not_see_each_other() {
    let mut tiler = AutoTiler::new(5, 5);
    tiler.place_terrain(2, 2, TerrainType::Grass);
    tiler.place_terrain(2, 3, TerrainType::Dirt);
    tiler.place_terrain(3, 2, TerrainType::Water);
    // The grass cell has no grass neighbor: the lone pattern, though its
    // south and east neighbors hold other terrains.
    assert_eq!(tiler.get_variant(2, 2), Some(TileVariant(36)));
    // The dirt cell likewise: lone dirt, at the dirt offset.
    assert_eq!(tiler.get_variant(2, 3), Some(TileVariant(48 + 36)));
}

#[test]
fn recompute_all_rebuilds_the_cache_from_a_reloaded_grid() {
    let mut tiler = AutoTiler::new(4, 4);
    // Load terrain directly into the grid, as a bulk reload would, then
    // recompute every entry in one pass before reading anything.
    tiler.grid.set(1, 1, TerrainType::Grass);
    tiler.grid.set(1, 2, TerrainType::Grass);
    tiler.recompute_all();
    assert_eq!(tiler.get_variant(1, 1), Some(TileVariant(0)));
    assert_eq!(tiler.get_variant(1, 2), Some(TileVariant(24)));
}

#[test]
fn active_rules_clear_empties_the_cache() {
    let mut cache = ActiveRules::new(3, 3);
    assert_eq!(cache.active_rules.len(), 3);
    cache.clear();
    assert_eq!(cache.active_rules.len(), 0);
}

#[test]
fn standard_rules_resolve_per_terrain() {
    let rules = Rules::standard();
    let m = flags(0b_000_010_010);
    assert_eq!(rules.resolve(TerrainType::Grass, m), Some(TileVariant(0)));
    assert_eq!(rules.resolve(TerrainType::Dirt, m), Some(TileVariant(48)));
    assert_eq!(rules.resolve(TerrainType::Water, m), Some(TileVariant(97)));
    assert_eq!(rules.resolve(TerrainType::Blank, m), None);
}
