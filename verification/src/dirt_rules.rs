//! The dirt rule set: structurally the same 48-pattern blob table as
//! grass, shifted to dirt's disjoint variant-id range. Keeping one shared
//! canonical table plus a per-terrain offset keeps the two from drifting
//! apart.

use vstd::prelude::*;

use crate::blob::blob_rule_table;
use crate::blob::lemma_blob_resolve_complete;
use crate::blob::spec_blob_table;
use crate::ruleflag::RuleFlags;
use crate::rules::RuleTable;
use crate::rules::TileVariant;
use crate::rules::spec_resolve;

verus! {

/// Where the dirt variants start in the sprite sheet.
pub const DIRT_TEXTURE_OFFSET: u32 = 48;

/// The dirt table: the blob table with variants starting at the dirt
/// offset.
pub open spec fn spec_dirt_table() -> Seq<crate::rules::Rule> {
    spec_blob_table(DIRT_TEXTURE_OFFSET)
}

/// Builds the dirt rule table.
pub fn dirt_rule_table() -> (t: RuleTable)
    ensures
        t.rules@ == spec_dirt_table(),
{
    blob_rule_table(DIRT_TEXTURE_OFFSET)
}

/// The sampled dirt mask of one cell, wrapped for resolution against the
/// dirt table.
#[derive(Clone, Copy, Debug, Hash, PartialEq, Eq, Structural)]
pub struct DirtRule {
    /// Which neighbors of the cell are dirt, and whether the cell itself
    /// is.
    pub rule_flag: RuleFlags,
}

impl DirtRule {
    /// The tile variant for this mask. The dirt table is complete: a mask
    /// whose center flag is set — every mask sampled at a dirt cell —
    /// always resolves, so `None` here signals a mask that was not sampled
    /// at a dirt cell.
    pub fn tile_texture(&self) -> (r: Option<TileVariant>)
        ensures
            r == spec_resolve(spec_dirt_table(), self.rule_flag),
            self.rule_flag.c ==> r is Some,
    {
        proof {
            if self.rule_flag.c {
                lemma_blob_resolve_complete(DIRT_TEXTURE_OFFSET, self.rule_flag);
            }
        }
        let t = dirt_rule_table();
        t.resolve(self.rule_flag)
    }
}

} // verus!
