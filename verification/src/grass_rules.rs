//! The grass rule set: the full 48-pattern blob table at the start of the
//! sprite sheet.

use vstd::prelude::*;

use crate::blob::blob_rule_table;
use crate::blob::lemma_blob_resolve_complete;
use crate::blob::spec_blob_table;
use crate::ruleflag::RuleFlags;
use crate::rules::RuleTable;
use crate::rules::TileVariant;
use crate::rules::spec_resolve;

verus! {

/// Where the grass variants start in the sprite sheet.
pub const GRASS_TEXTURE_OFFSET: u32 = 0;

/// The grass table: the blob table with variants starting at the grass
/// offset.
pub open spec fn spec_grass_table() -> Seq<crate::rules::Rule> {
    spec_blob_table(GRASS_TEXTURE_OFFSET)
}

/// Builds the grass rule table.
pub fn grass_rule_table() -> (t: RuleTable)
    ensures
        t.rules@ == spec_grass_table(),
{
    blob_rule_table(GRASS_TEXTURE_OFFSET)
}

/// The sampled grass mask of one cell, wrapped for resolution against the
/// grass table.
#[derive(Clone, Copy, Debug, Hash, PartialEq, Eq, Structural)]
pub struct GrassRule {
    /// Which neighbors of the cell are grass, and whether the cell itself
    /// is.
    pub rule_flag: RuleFlags,
}

impl GrassRule {
    /// The tile variant for this mask. The grass table is complete: a mask
    /// whose center flag is set — every mask sampled at a grass cell —
    /// always resolves, so `None` here signals a mask that was not sampled
    /// at a grass cell.
    pub fn tile_texture(&self) -> (r: Option<TileVariant>)
        ensures
            r == spec_resolve(spec_grass_table(), self.rule_flag),
            self.rule_flag.c ==> r is Some,
    {
        proof {
            if self.rule_flag.c {
                lemma_blob_resolve_complete(GRASS_TEXTURE_OFFSET, self.rule_flag);
            }
        }
        let t = grass_rule_table();
        t.resolve(self.rule_flag)
    }
}

} // verus!
