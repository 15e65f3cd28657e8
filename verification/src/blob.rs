//! The 48-pattern blob table shared by the full-neighborhood terrains.
//!
//! The table is a fixed asset in the style of a 3x3 minimal autotile
//! template: 47 patterns with the center flag set — one per distinct
//! combination of the four edge neighbors and of the corner neighbors whose
//! both adjacent edges are present — plus the all-empty pattern. A pattern's
//! numeric form is read as three octal-style triples `NW N NE / W C E /
//! SW S SE`. The pattern-to-variant assignment encodes a specific tileset
//! layout; it is data, not a formula, and is reproduced value for value.
//!
//! Each pattern compiles to a canonical rule: its set flags are required,
//! its clear edge and center flags are forbidden, and a clear corner flag is
//! forbidden only when both adjacent edges are set — otherwise the corner is
//! a wildcard. Under this reading the 48 rules are pairwise disjoint, so a
//! mask matches at most one of them, and every mask with the center flag set
//! matches exactly one: the table is complete for cells known to hold the
//! terrain being resolved. The center flag is an explicit part of every
//! pattern here; resolving a cell of terrain T therefore expects the mask
//! sampled for T at that cell, whose center flag is set by construction.

use vstd::prelude::*;

use crate::ruleflag::RuleFlags;
use crate::ruleflag::spec_contains;
use crate::ruleflag::spec_disjoint;
use crate::ruleflag::spec_from_bits;
use crate::rules::Rule;
use crate::rules::RuleTable;
use crate::rules::TileVariant;
use crate::rules::lemma_resolve_unique_match;
use crate::rules::spec_resolve;
use crate::rules::spec_rule_matches;

verus! {

/// How many patterns the blob table holds.
pub const BLOB_RULE_COUNT: u32 = 48;

/// The packed form of blob pattern `i`, in the order that fixes the
/// variant identifiers: pattern `i` maps to variant `offset + i`.
pub open spec fn blob_bits(i: int) -> u32 {
    if i == 0 {
        0b_000_010_010
    } else if i == 1 {
        0b_000_011_010
    } else if i == 2 {
        0b_000_111_010
    } else if i == 3 {
        0b_000_110_010
    } else if i == 4 {
        0b_110_111_010
    } else if i == 5 {
        0b_000_111_011
    } else if i == 6 {
        0b_000_111_110
    } else if i == 7 {
        0b_011_111_010
    } else if i == 8 {
        0b_000_011_011
    } else if i == 9 {
        0b_010_111_111
    } else if i == 10 {
        0b_000_111_111
    } else if i == 11 {
        0b_000_110_110
    } else if i == 12 {
        0b_010_010_010
    } else if i == 13 {
        0b_010_011_010
    } else if i == 14 {
        0b_010_111_010
    } else if i == 15 {
        0b_010_110_010
    } else if i == 16 {
        0b_010_011_011
    } else if i == 17 {
        0b_011_111_111
    } else if i == 18 {
        0b_110_111_111
    } else if i == 19 {
        0b_010_110_110
    } else if i == 20 {
        0b_011_011_011
    } else if i == 21 {
        0b_011_111_110
    } else if i == 22 {
        0b_000_000_000
    } else if i == 23 {
        0b_110_111_110
    } else if i == 24 {
        0b_010_010_000
    } else if i == 25 {
        0b_010_011_000
    } else if i == 26 {
        0b_010_111_000
    } else if i == 27 {
        0b_010_110_000
    } else if i == 28 {
        0b_011_011_010
    } else if i == 29 {
        0b_111_111_011
    } else if i == 30 {
        0b_111_111_110
    } else if i == 31 {
        0b_110_110_010
    } else if i == 32 {
        0b_011_111_011
    } else if i == 33 {
        0b_111_111_111
    } else if i == 34 {
        0b_110_111_011
    } else if i == 35 {
        0b_110_110_110
    } else if i == 36 {
        0b_000_010_000
    } else if i == 37 {
        0b_000_011_000
    } else if i == 38 {
        0b_000_111_000
    } else if i == 39 {
        0b_000_110_000
    } else if i == 40 {
        0b_010_111_110
    } else if i == 41 {
        0b_011_111_000
    } else if i == 42 {
        0b_110_111_000
    } else if i == 43 {
        0b_010_111_011
    } else if i == 44 {
        0b_011_011_000
    } else if i == 45 {
        0b_111_111_000
    } else if i == 46 {
        0b_111_111_010
    } else {
        0b_110_110_000
    }
}

/// Blob pattern `i` as a mask.
pub open spec fn blob_pattern(i: int) -> RuleFlags {
    spec_from_bits(blob_bits(i))
}

/// A mask is canonical when each corner flag it sets comes with both
/// adjacent edge flags.
pub open spec fn spec_is_canonical(m: RuleFlags) -> bool {
    &&& m.nw ==> m.n && m.w
    &&& m.ne ==> m.n && m.e
    &&& m.sw ==> m.s && m.w
    &&& m.se ==> m.s && m.e
}

/// The canonical form of a mask: corner flags lacking either adjacent edge
/// are cleared, since no rule in the table reads them.
pub open spec fn spec_canon(m: RuleFlags) -> RuleFlags {
    RuleFlags {
        nw: m.nw && m.n && m.w,
        n: m.n,
        ne: m.ne && m.n && m.e,
        w: m.w,
        c: m.c,
        e: m.e,
        sw: m.sw && m.s && m.w,
        s: m.s,
        se: m.se && m.s && m.e,
    }
}

/// The forbidden mask derived from a canonical pattern: clear edges and a
/// clear center must stay absent, and a clear corner must stay absent only
/// where both its adjacent edges are set — otherwise it is a wildcard.
pub open spec fn spec_blob_forbidden(p: RuleFlags) -> RuleFlags {
    RuleFlags {
        nw: p.n && p.w && !p.nw,
        n: !p.n,
        ne: p.n && p.e && !p.ne,
        w: !p.w,
        c: !p.c,
        e: !p.e,
        sw: p.s && p.w && !p.sw,
        s: !p.s,
        se: p.s && p.e && !p.se,
    }
}

/// Rule `i` of a blob table whose variants start at `offset`.
pub open spec fn spec_blob_rule(i: int, offset: u32) -> Rule {
    Rule {
        required: blob_pattern(i),
        forbidden: spec_blob_forbidden(blob_pattern(i)),
        variant: TileVariant((offset + i) as u32),
    }
}

/// The whole blob table with variants starting at `offset`.
pub open spec fn spec_blob_table(offset: u32) -> Seq<Rule> {
    Seq::new(BLOB_RULE_COUNT as nat, |i: int| spec_blob_rule(i, offset))
}

/// The table position of a canonical mask, by the four edges, the corners
/// whose both adjacent edges are set, and the center. On a mask with a clear
/// center only the all-empty pattern can be meant.
pub open spec fn blob_table_index(m: RuleFlags) -> int {
    if !m.c {
        22
    } else if !m.n && !m.e && !m.s && !m.w {
        36
    } else if !m.n && m.e && !m.s && !m.w {
        37
    } else if !m.n && !m.e && !m.s && m.w {
        39
    } else if m.n && !m.e && !m.s && !m.w {
        24
    } else if !m.n && !m.e && m.s && !m.w {
        0
    } else if !m.n && m.e && !m.s && m.w {
        38
    } else if m.n && !m.e && m.s && !m.w {
        12
    } else if m.n && m.e && !m.s && !m.w {
        if m.ne {
            44
        } else {
            25
        }
    } else if !m.n && m.e && m.s && !m.w {
        if m.se {
            8
        } else {
            1
        }
    } else if !m.n && !m.e && m.s && m.w {
        if m.sw {
            11
        } else {
            3
        }
    } else if m.n && !m.e && !m.s && m.w {
        if m.nw {
            47
        } else {
            27
        }
    } else if m.n && m.e && m.s && !m.w {
        if m.ne {
            if m.se {
                20
            } else {
                28
            }
        } else {
            if m.se {
                16
            } else {
                13
            }
        }
    } else if !m.n && m.e && m.s && m.w {
        if m.sw {
            if m.se {
                10
            } else {
                6
            }
        } else {
            if m.se {
                5
            } else {
                2
            }
        }
    } else if m.n && !m.e && m.s && m.w {
        if m.nw {
            if m.sw {
                35
            } else {
                31
            }
        } else {
            if m.sw {
                19
            } else {
                15
            }
        }
    } else if m.n && m.e && !m.s && m.w {
        if m.nw {
            if m.ne {
                45
            } else {
                42
            }
        } else {
            if m.ne {
                41
            } else {
                26
            }
        }
    } else {
        if m.nw {
            if m.ne {
                if m.sw {
                    if m.se {
                        33
                    } else {
                        30
                    }
                } else {
                    if m.se {
                        29
                    } else {
                        46
                    }
                }
            } else {
                if m.sw {
                    if m.se {
                        18
                    } else {
                        23
                    }
                } else {
                    if m.se {
                        34
                    } else {
                        4
                    }
                }
            }
        } else {
            if m.ne {
                if m.sw {
                    if m.se {
                        17
                    } else {
                        21
                    }
                } else {
                    if m.se {
                        32
                    } else {
                        7
                    }
                }
            } else {
                if m.sw {
                    if m.se {
                        9
                    } else {
                        40
                    }
                } else {
                    if m.se {
                        43
                    } else {
                        14
                    }
                }
            }
        }
    }
}

/// Every blob pattern is canonical, fits in the nine flags, and sits at its
/// own table position.
#[verifier::rlimit(60)]
pub proof fn lemma_blob_pattern_well_formed(i: int)
    requires
        0 <= i < 48,
    ensures
        blob_bits(i) < 512,
        spec_is_canonical(blob_pattern(i)),
        blob_table_index(blob_pattern(i)) == i,
{
}

/// Two distinct table positions hold distinct patterns.
pub proof fn lemma_blob_patterns_distinct(i: int, j: int)
    requires
        0 <= i < 48,
        0 <= j < 48,
        i != j,
    ensures
        blob_pattern(i) != blob_pattern(j),
{
    lemma_blob_pattern_well_formed(i);
    lemma_blob_pattern_well_formed(j);
}

/// A canonical pattern's rule matches exactly the masks whose canonical
/// form is the pattern itself.
pub proof fn lemma_blob_rule_matches_canon(p: RuleFlags, m: RuleFlags)
    requires
        spec_is_canonical(p),
    ensures
        (spec_contains(m, p) && spec_disjoint(m, spec_blob_forbidden(p))) <==> spec_canon(m) == p,
{
}

/// Where blob rule `i` matches a mask, the whole table resolves that mask
/// to variant `offset + i`: no other rule can also match. This holds for the
/// pattern's exact mask and for every mask that differs from it only in
/// wildcard positions.
pub proof fn lemma_blob_resolve_match(offset: u32, m: RuleFlags, i: int)
    requires
        0 <= i < 48,
        offset + 48 <= u32::MAX,
        spec_rule_matches(spec_blob_rule(i, offset), m),
    ensures
        spec_resolve(spec_blob_table(offset), m) == Some(TileVariant((offset + i) as u32)),
{
    let table = spec_blob_table(offset);
    lemma_blob_pattern_well_formed(i);
    lemma_blob_rule_matches_canon(blob_pattern(i), m);
    assert forall|j: int| 0 <= j < 48 && j != i implies !spec_rule_matches(table[j], m) by {
        lemma_blob_pattern_well_formed(j);
        lemma_blob_patterns_distinct(i, j);
        lemma_blob_rule_matches_canon(blob_pattern(j), m);
    }
    lemma_resolve_unique_match(table, m, i);
}

/// Resolving blob pattern `i` itself returns variant `offset + i`.
pub proof fn lemma_blob_resolve_exact(offset: u32, i: int)
    requires
        0 <= i < 48,
        offset + 48 <= u32::MAX,
    ensures
        spec_resolve(spec_blob_table(offset), blob_pattern(i)) == Some(
            TileVariant((offset + i) as u32),
        ),
{
    lemma_blob_pattern_well_formed(i);
    lemma_blob_rule_matches_canon(blob_pattern(i), blob_pattern(i));
    lemma_blob_resolve_match(offset, blob_pattern(i), i);
}

/// The table is complete for masks with the center flag set: such a mask
/// always resolves, namely to the pattern at its canonical form's position.
pub proof fn lemma_blob_resolve_complete(offset: u32, m: RuleFlags)
    requires
        m.c,
        offset + 48 <= u32::MAX,
    ensures
        ({
            let i = blob_table_index(spec_canon(m));
            0 <= i < 48 && spec_resolve(spec_blob_table(offset), m) == Some(
                TileVariant((offset + i) as u32),
            )
        }),
{
    let cm = spec_canon(m);
    let i = blob_table_index(cm);
    assert(0 <= i < 48 && blob_pattern(i) == cm);
    lemma_blob_pattern_well_formed(i);
    lemma_blob_rule_matches_canon(blob_pattern(i), m);
    lemma_blob_resolve_match(offset, m, i);
}

/// The packed form of blob pattern `k`.
fn blob_bits_at(k: usize) -> (b: u32)
    requires
        k < 48,
    ensures
        b == blob_bits(k as int),
        b < 512,
{
    let table: [u32; 48] = [
        0b_000_010_010,
        0b_000_011_010,
        0b_000_111_010,
        0b_000_110_010,
        0b_110_111_010,
        0b_000_111_011,
        0b_000_111_110,
        0b_011_111_010,
        0b_000_011_011,
        0b_010_111_111,
        0b_000_111_111,
        0b_000_110_110,
        0b_010_010_010,
        0b_010_011_010,
        0b_010_111_010,
        0b_010_110_010,
        0b_010_011_011,
        0b_011_111_111,
        0b_110_111_111,
        0b_010_110_110,
        0b_011_011_011,
        0b_011_111_110,
        0b_000_000_000,
        0b_110_111_110,
        0b_010_010_000,
        0b_010_011_000,
        0b_010_111_000,
        0b_010_110_000,
        0b_011_011_010,
        0b_111_111_011,
        0b_111_111_110,
        0b_110_110_010,
        0b_011_111_011,
        0b_111_111_111,
        0b_110_111_011,
        0b_110_110_110,
        0b_000_010_000,
        0b_000_011_000,
        0b_000_111_000,
        0b_000_110_000,
        0b_010_111_110,
        0b_011_111_000,
        0b_110_111_000,
        0b_010_111_011,
        0b_011_011_000,
        0b_111_111_000,
        0b_111_111_010,
        0b_110_110_000,
    ];
    table[k]
}

/// Decodes a packed word already known to fit the nine flags.
fn decode_bits(bits: u32) -> (m: RuleFlags)
    requires
        bits < 512,
    ensures
        m == spec_from_bits(bits),
{
    match RuleFlags::from_bits(bits) {
        Some(m) => m,
        None => RuleFlags::empty(),
    }
}

/// The forbidden mask derived from a canonical pattern.
fn blob_forbidden(p: RuleFlags) -> (r: RuleFlags)
    ensures
        r == spec_blob_forbidden(p),
{
    RuleFlags {
        nw: p.n && p.w && !p.nw,
        n: !p.n,
        ne: p.n && p.e && !p.ne,
        w: !p.w,
        c: !p.c,
        e: !p.e,
        sw: p.s && p.w && !p.sw,
        s: !p.s,
        se: p.s && p.e && !p.se,
    }
}

/// Builds the blob rule table with variants starting at `offset`.
pub fn blob_rule_table(offset: u32) -> (t: RuleTable)
    requires
        offset + 48 <= u32::MAX,
    ensures
        t.rules@ == spec_blob_table(offset),
{
    let mut rules: Vec<Rule> = Vec::new();
    let mut k: usize = 0;
    while k < 48
        invariant
            k <= 48,
            rules@.len() == k,
            offset + 48 <= u32::MAX,
            forall|i: int| 0 <= i < k ==> rules@[i] == spec_blob_rule(i, offset),
        decreases 48 - k,
    {
        let bits = blob_bits_at(k);
        let p = decode_bits(bits);
        let rule = Rule {
            required: p,
            forbidden: blob_forbidden(p),
            variant: TileVariant(offset + (k as u32)),
        };
        rules.push(rule);
        k = k + 1;
    }
    let t = RuleTable { rules };
    proof {
        assert(t.rules@ =~= spec_blob_table(offset));
    }
    t
}

/// A blob index in the style of a 3x3 minimal autotile template: the
/// position, in the fixed table order, of one of the 48 patterns.
#[derive(Copy, Clone, Debug, Default, PartialOrd, PartialEq, Ord, Eq, Hash, Structural)]
pub struct BlobIndex(pub u8);

impl BlobIndex {
    /// The tile variant this index stands for in a sheet whose blob block
    /// starts at position zero.
    pub fn tile_variant(&self) -> (v: TileVariant)
        ensures
            v == TileVariant(self.0 as u32),
    {
        TileVariant(self.0 as u32)
    }
}

/// The table position of a mask that is exactly one of the 48 blob
/// patterns, or `None` for every other mask. This is the raw exact-equality
/// view of the table: no wildcard reading is applied here.
pub fn blob_index_of(m: RuleFlags) -> (r: Option<BlobIndex>)
    ensures
        match r {
            Some(b) => b.0 < 48 && blob_pattern(b.0 as int) == m,
            None => forall|i: int| 0 <= i < 48 ==> blob_pattern(i) != m,
        },
{
    let mut k: usize = 0;
    while k < 48
        invariant
            k <= 48,
            forall|i: int| 0 <= i < k ==> blob_pattern(i) != m,
        decreases 48 - k,
    {
        let p = decode_bits(blob_bits_at(k));
        if p == m {
            return Some(BlobIndex(k as u8));
        }
        k = k + 1;
    }
    None
}

} // verus!
