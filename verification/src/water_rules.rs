//! The water rule set.
//!
//! Water is deliberately incomplete: only four direction-only rules are
//! defined, one per cardinal neighbor, checked in the order north, south,
//! east, west, with no diagonal or center constraints. A water mask outside
//! these four entries resolves to `None`; that is the expected outcome for
//! an incomplete-by-design table, and the caller falls back to a default
//! variant without any diagnostic.

use vstd::prelude::*;

use crate::ruleflag::RuleFlags;
use crate::rules::Rule;
use crate::rules::RuleTable;
use crate::rules::TileVariant;
use crate::rules::lemma_resolve_first_match;
use crate::rules::lemma_resolve_none;
use crate::rules::spec_resolve;

verus! {

/// Where the water variants start in the sprite sheet.
pub const WATER_TEXTURE_OFFSET: u32 = 96;

/// How many rules the water table holds.
pub const WATER_RULE_COUNT: u32 = 4;

/// The single cardinal flag that water rule `i` requires, in the fixed
/// order north, south, east, west.
pub open spec fn spec_water_required(i: int) -> RuleFlags {
    if i == 0 {
        RuleFlags { n: true, ..RuleFlags::spec_empty() }
    } else if i == 1 {
        RuleFlags { s: true, ..RuleFlags::spec_empty() }
    } else if i == 2 {
        RuleFlags { e: true, ..RuleFlags::spec_empty() }
    } else {
        RuleFlags { w: true, ..RuleFlags::spec_empty() }
    }
}

/// Water rule `i` with variants starting at `offset`: one required
/// cardinal flag, nothing forbidden, every other position a wildcard.
pub open spec fn spec_water_rule(i: int, offset: u32) -> Rule {
    Rule {
        required: spec_water_required(i),
        forbidden: RuleFlags::spec_empty(),
        variant: TileVariant((offset + i) as u32),
    }
}

/// The whole water table with variants starting at `offset`.
pub open spec fn spec_water_table(offset: u32) -> Seq<Rule> {
    Seq::new(WATER_RULE_COUNT as nat, |i: int| spec_water_rule(i, offset))
}

/// Builds the water rule table with variants starting at `offset`.
pub fn water_rule_table(offset: u32) -> (t: RuleTable)
    requires
        offset + 4 <= u32::MAX,
    ensures
        t.rules@ == spec_water_table(offset),
{
    let mut t = RuleTable::new();
    let empty = RuleFlags::empty();
    t.push(Rule {
        required: RuleFlags::from_direction(crate::ruleflag::Direction::North),
        forbidden: empty,
        variant: TileVariant(offset),
    });
    t.push(Rule {
        required: RuleFlags::from_direction(crate::ruleflag::Direction::South),
        forbidden: empty,
        variant: TileVariant(offset + 1),
    });
    t.push(Rule {
        required: RuleFlags::from_direction(crate::ruleflag::Direction::East),
        forbidden: empty,
        variant: TileVariant(offset + 2),
    });
    t.push(Rule {
        required: RuleFlags::from_direction(crate::ruleflag::Direction::West),
        forbidden: empty,
        variant: TileVariant(offset + 3),
    });
    proof {
        assert(t.rules@ =~= spec_water_table(offset));
    }
    t
}

/// What the water table returns for every mask: the first cardinal flag
/// present, in the order north, south, east, west, picks the variant, and a
/// mask with no cardinal flag resolves to `None` — never to a fault.
pub proof fn lemma_water_resolve(offset: u32, m: RuleFlags)
    requires
        offset + 4 <= u32::MAX,
    ensures
        m.n ==> spec_resolve(spec_water_table(offset), m) == Some(TileVariant(offset)),
        !m.n && m.s ==> spec_resolve(spec_water_table(offset), m) == Some(
            TileVariant((offset + 1) as u32),
        ),
        !m.n && !m.s && m.e ==> spec_resolve(spec_water_table(offset), m) == Some(
            TileVariant((offset + 2) as u32),
        ),
        !m.n && !m.s && !m.e && m.w ==> spec_resolve(spec_water_table(offset), m) == Some(
            TileVariant((offset + 3) as u32),
        ),
        !m.n && !m.s && !m.e && !m.w ==> spec_resolve(spec_water_table(offset), m) is None,
{
    let table = spec_water_table(offset);
    if m.n {
        lemma_resolve_first_match(table, m, 0);
    } else if m.s {
        lemma_resolve_first_match(table, m, 1);
    } else if m.e {
        lemma_resolve_first_match(table, m, 2);
    } else if m.w {
        lemma_resolve_first_match(table, m, 3);
    } else {
        lemma_resolve_none(table, m);
    }
}

/// The sampled water mask of one cell, wrapped for resolution against the
/// water table.
#[derive(Clone, Copy, Debug, Hash, PartialEq, Eq, Structural)]
pub struct WaterRule {
    /// Which neighbors of the cell are water.
    pub rule_flag: RuleFlags,
}

impl WaterRule {
    /// The tile variant for this mask, or `None` where the mask is outside
    /// the four defined entries.
    pub fn tile_texture(&self) -> (r: Option<TileVariant>)
        ensures
            r == spec_resolve(spec_water_table(WATER_TEXTURE_OFFSET), self.rule_flag),
    {
        let t = water_rule_table(WATER_TEXTURE_OFFSET);
        t.resolve(self.rule_flag)
    }
}

} // verus!
