//! Terrain types and per-cell neighborhood masks.
//!
//! A `TerrainRule` is what sampling one cell produces: one mask per terrain
//! of interest, where a direction flag is set exactly when the neighbor in
//! that direction exists and holds that terrain. The center flag is an
//! explicit part of every mask here: it is set when the cell itself holds
//! the terrain being sampled for. This makes "this cell is of terrain T"
//! expressible through the same pattern machinery as neighbor presence.

use vstd::prelude::*;

use crate::dirt_rules::DIRT_TEXTURE_OFFSET;
use crate::grass_rules::GRASS_TEXTURE_OFFSET;
use crate::blob::blob_rule_table;
use crate::blob::lemma_blob_resolve_complete;
use crate::blob::spec_blob_table;
use crate::ruleflag::RuleFlags;
use crate::rules::TileVariant;
use crate::rules::spec_resolve;
use crate::water_rules::WATER_TEXTURE_OFFSET;
use crate::water_rules::spec_water_table;
use crate::water_rules::water_rule_table;

verus! {

/// The terrain a cell can hold. `Blank` stands for a cell with no terrain
/// assigned.
#[derive(Clone, Copy, Debug, PartialEq, Eq, Hash, Structural)]
pub enum TerrainType {
    Blank,
    Grass,
    Dirt,
    Water,
}

/// The terrains seen around one cell: the cell's own terrain and, for each
/// of the eight compass directions, the neighbor's terrain, or `None` where
/// that neighbor lies off the grid. Off-grid neighbors never set a flag.
#[derive(Clone, Copy, Debug, PartialEq, Eq, Structural)]
pub struct Neighborhood {
    pub c: TerrainType,
    pub nw: Option<TerrainType>,
    pub n: Option<TerrainType>,
    pub ne: Option<TerrainType>,
    pub w: Option<TerrainType>,
    pub e: Option<TerrainType>,
    pub sw: Option<TerrainType>,
    pub s: Option<TerrainType>,
    pub se: Option<TerrainType>,
}

/// The mask of terrain `t` over a neighborhood: a direction flag is set
/// exactly when that neighbor exists and holds `t`, and the center flag
/// exactly when the cell itself holds `t`.
pub open spec fn spec_mask_for(nb: Neighborhood, t: TerrainType) -> RuleFlags {
    RuleFlags {
        nw: nb.nw == Some(t),
        n: nb.n == Some(t),
        ne: nb.ne == Some(t),
        w: nb.w == Some(t),
        c: nb.c == t,
        e: nb.e == Some(t),
        sw: nb.sw == Some(t),
        s: nb.s == Some(t),
        se: nb.se == Some(t),
    }
}

/// True iff the neighbor exists and holds terrain `t`.
fn neighbor_is(x: &Option<TerrainType>, t: TerrainType) -> (r: bool)
    ensures
        r == (*x == Some(t)),
{
    match x {
        Some(v) => *v == t,
        None => false,
    }
}

/// Computes the mask of terrain `t` over a neighborhood.
pub fn mask_for(nb: &Neighborhood, t: TerrainType) -> (m: RuleFlags)
    ensures
        m == spec_mask_for(*nb, t),
{
    RuleFlags {
        nw: neighbor_is(&nb.nw, t),
        n: neighbor_is(&nb.n, t),
        ne: neighbor_is(&nb.ne, t),
        w: neighbor_is(&nb.w, t),
        c: nb.c == t,
        e: neighbor_is(&nb.e, t),
        sw: neighbor_is(&nb.sw, t),
        s: neighbor_is(&nb.s, t),
        se: neighbor_is(&nb.se, t),
    }
}

/// The sampled masks of one cell, one per terrain of interest.
#[derive(Clone, Copy, Debug, PartialEq, Eq, Structural)]
pub struct TerrainRule {
    /// Which positions of the neighborhood are grass.
    pub grass: RuleFlags,
    /// Which positions of the neighborhood are dirt.
    pub dirt: RuleFlags,
    /// Which positions of the neighborhood are water.
    pub water: RuleFlags,
}

/// The variant a sampled cell maps to. The cell's own terrain is read off
/// the center flags: exactly one of them is set for a cell with a terrain
/// assigned, and that terrain's mask is resolved against its table. A
/// sample with no center flag set (a blank cell), or with several (not
/// producible by sampling), maps to `None`.
pub open spec fn spec_into_tile_texture(
    tr: TerrainRule,
    grass_offset: u32,
    dirt_offset: u32,
    water_offset: u32,
) -> Option<TileVariant> {
    if tr.grass.c && !tr.dirt.c && !tr.water.c {
        spec_resolve(spec_blob_table(grass_offset), tr.grass)
    } else if tr.dirt.c && !tr.grass.c && !tr.water.c {
        spec_resolve(spec_blob_table(dirt_offset), tr.dirt)
    } else if tr.water.c && !tr.grass.c && !tr.dirt.c {
        spec_resolve(spec_water_table(water_offset), tr.water)
    } else {
        None
    }
}

impl TerrainRule {
    /// Samples all three terrain masks from one neighborhood.
    pub fn from_neighbors(neighbors: &Neighborhood) -> (r: TerrainRule)
        ensures
            r.grass == spec_mask_for(*neighbors, TerrainType::Grass),
            r.dirt == spec_mask_for(*neighbors, TerrainType::Dirt),
            r.water == spec_mask_for(*neighbors, TerrainType::Water),
    {
        TerrainRule {
            grass: mask_for(neighbors, TerrainType::Grass),
            dirt: mask_for(neighbors, TerrainType::Dirt),
            water: mask_for(neighbors, TerrainType::Water),
        }
    }

    /// Resolves the sample to a tile variant, with each terrain's variants
    /// starting at its offset. Grass and dirt cells always resolve (their
    /// table is complete); a water cell resolves only within water's four
    /// entries; a blank cell maps to `None`.
    pub fn into_tile_texture(
        &self,
        grass_offset: u32,
        dirt_offset: u32,
        water_offset: u32,
    ) -> (r: Option<TileVariant>)
        requires
            grass_offset + 48 <= u32::MAX,
            dirt_offset + 48 <= u32::MAX,
            water_offset + 4 <= u32::MAX,
        ensures
            r == spec_into_tile_texture(*self, grass_offset, dirt_offset, water_offset),
            self.grass.c && !self.dirt.c && !self.water.c ==> r is Some,
            self.dirt.c && !self.grass.c && !self.water.c ==> r is Some,
    {
        if self.grass.c && !self.dirt.c && !self.water.c {
            proof {
                lemma_blob_resolve_complete(grass_offset, self.grass);
            }
            blob_rule_table(grass_offset).resolve(self.grass)
        } else if self.dirt.c && !self.grass.c && !self.water.c {
            proof {
                lemma_blob_resolve_complete(dirt_offset, self.dirt);
            }
            blob_rule_table(dirt_offset).resolve(self.dirt)
        } else if self.water.c && !self.grass.c && !self.dirt.c {
            water_rule_table(water_offset).resolve(self.water)
        } else {
            None
        }
    }

    /// As `into_tile_texture`, with every terrain at its standard offset in
    /// the sprite sheet.
    pub fn tile_texture(&self) -> (r: Option<TileVariant>)
        ensures
            r == spec_into_tile_texture(
                *self,
                GRASS_TEXTURE_OFFSET,
                DIRT_TEXTURE_OFFSET,
                WATER_TEXTURE_OFFSET,
            ),
            self.grass.c && !self.dirt.c && !self.water.c ==> r is Some,
            self.dirt.c && !self.grass.c && !self.water.c ==> r is Some,
    {
        self.into_tile_texture(GRASS_TEXTURE_OFFSET, DIRT_TEXTURE_OFFSET, WATER_TEXTURE_OFFSET)
    }
}

} // verus!
