//! The slot view of rule patterns.
//!
//! A pattern can be authored as nine per-position constraints — `Empty`,
//! `Filled`, or the wildcard `Any` — instead of a pair of masks. Both
//! encodings appear in hand-written rule sets, so they must agree: a slot
//! pattern compiles to a required mask (its `Filled` positions) and a
//! forbidden mask (its `Empty` positions), and matching the slots one by
//! one gives the same answer as `contains` on the required mask together
//! with `does_not_contain` on the forbidden mask, for every mask. The
//! canonical form is the mask pair; the slot view is a builder over it.

use vstd::prelude::*;

use crate::blob::spec_blob_forbidden;
use crate::blob::spec_is_canonical;
use crate::ruleflag::RuleFlags;
use crate::ruleflag::spec_contains;
use crate::ruleflag::spec_disjoint;
use crate::rules::Rule;
use crate::rules::TileVariant;
use crate::terrain_rules::TerrainType;

verus! {

/// One per-position constraint of a rule pattern. `Filled` names the
/// terrain the pattern is authored for; matching a slot against that
/// terrain's mask only asks whether the flag is present.
#[derive(Clone, Copy, Debug, PartialEq, Eq, Structural)]
pub enum Slot {
    /// The position must not hold the terrain in question.
    Empty,
    /// The position must hold exactly this terrain.
    Filled { terrain_type: TerrainType },
    /// No constraint: the position is a wildcard.
    Any,
}

/// A rule pattern as nine slots, one per position of the 3x3 neighborhood.
#[derive(Clone, Copy, Debug, PartialEq, Eq, Structural)]
pub struct SlotPattern {
    pub nw: Slot,
    pub n: Slot,
    pub ne: Slot,
    pub w: Slot,
    pub c: Slot,
    pub e: Slot,
    pub sw: Slot,
    pub s: Slot,
    pub se: Slot,
}

/// Whether one slot accepts the flag sampled at its position.
pub open spec fn spec_slot_admits(s: Slot, flag: bool) -> bool {
    match s {
        Slot::Any => true,
        Slot::Empty => !flag,
        Slot::Filled { terrain_type: _ } => flag,
    }
}

/// Whether a slot pattern matches a sampled mask: every position's slot
/// accepts that position's flag.
pub open spec fn spec_slot_matches(p: SlotPattern, m: RuleFlags) -> bool {
    &&& spec_slot_admits(p.nw, m.nw)
    &&& spec_slot_admits(p.n, m.n)
    &&& spec_slot_admits(p.ne, m.ne)
    &&& spec_slot_admits(p.w, m.w)
    &&& spec_slot_admits(p.c, m.c)
    &&& spec_slot_admits(p.e, m.e)
    &&& spec_slot_admits(p.sw, m.sw)
    &&& spec_slot_admits(p.s, m.s)
    &&& spec_slot_admits(p.se, m.se)
}

/// The required mask a slot pattern compiles to: its `Filled` positions.
pub open spec fn spec_required_of(p: SlotPattern) -> RuleFlags {
    RuleFlags {
        nw: p.nw is Filled,
        n: p.n is Filled,
        ne: p.ne is Filled,
        w: p.w is Filled,
        c: p.c is Filled,
        e: p.e is Filled,
        sw: p.sw is Filled,
        s: p.s is Filled,
        se: p.se is Filled,
    }
}

/// The forbidden mask a slot pattern compiles to: its `Empty` positions.
pub open spec fn spec_forbidden_of(p: SlotPattern) -> RuleFlags {
    RuleFlags {
        nw: p.nw is Empty,
        n: p.n is Empty,
        ne: p.ne is Empty,
        w: p.w is Empty,
        c: p.c is Empty,
        e: p.e is Empty,
        sw: p.sw is Empty,
        s: p.s is Empty,
        se: p.se is Empty,
    }
}

/// True iff the slot is a `Filled` constraint.
fn slot_is_filled(s: &Slot) -> (r: bool)
    ensures
        r == (*s is Filled),
{
    match s {
        Slot::Filled { terrain_type: _ } => true,
        _ => false,
    }
}

/// True iff the slot is an `Empty` constraint.
fn slot_is_empty(s: &Slot) -> (r: bool)
    ensures
        r == (*s is Empty),
{
    match s {
        Slot::Empty => true,
        _ => false,
    }
}

/// Whether one slot accepts the flag sampled at its position.
pub fn slot_admits(s: &Slot, flag: bool) -> (r: bool)
    ensures
        r == spec_slot_admits(*s, flag),
{
    match s {
        Slot::Any => true,
        Slot::Empty => !flag,
        Slot::Filled { terrain_type: _ } => flag,
    }
}

impl SlotPattern {
    /// A pattern with every position a wildcard.
    pub fn any() -> (p: SlotPattern)
        ensures
            p == (SlotPattern {
                nw: Slot::Any,
                n: Slot::Any,
                ne: Slot::Any,
                w: Slot::Any,
                c: Slot::Any,
                e: Slot::Any,
                sw: Slot::Any,
                s: Slot::Any,
                se: Slot::Any,
            }),
    {
        SlotPattern {
            nw: Slot::Any,
            n: Slot::Any,
            ne: Slot::Any,
            w: Slot::Any,
            c: Slot::Any,
            e: Slot::Any,
            sw: Slot::Any,
            s: Slot::Any,
            se: Slot::Any,
        }
    }

    /// Whether this pattern matches a sampled mask, slot by slot.
    pub fn matches(&self, m: RuleFlags) -> (r: bool)
        ensures
            r == spec_slot_matches(*self, m),
    {
        slot_admits(&self.nw, m.nw) && slot_admits(&self.n, m.n) && slot_admits(&self.ne, m.ne)
            && slot_admits(&self.w, m.w) && slot_admits(&self.c, m.c) && slot_admits(&self.e, m.e)
            && slot_admits(&self.sw, m.sw) && slot_admits(&self.s, m.s) && slot_admits(
            &self.se,
            m.se,
        )
    }

    /// Compiles the pattern down to the canonical mask-pair form, paired
    /// with the variant the rule is to yield.
    pub fn to_rule(&self, variant: TileVariant) -> (r: Rule)
        ensures
            r.required == spec_required_of(*self),
            r.forbidden == spec_forbidden_of(*self),
            r.variant == variant,
    {
        let required = RuleFlags {
            nw: slot_is_filled(&self.nw),
            n: slot_is_filled(&self.n),
            ne: slot_is_filled(&self.ne),
            w: slot_is_filled(&self.w),
            c: slot_is_filled(&self.c),
            e: slot_is_filled(&self.e),
            sw: slot_is_filled(&self.sw),
            s: slot_is_filled(&self.s),
            se: slot_is_filled(&self.se),
        };
        let forbidden = RuleFlags {
            nw: slot_is_empty(&self.nw),
            n: slot_is_empty(&self.n),
            ne: slot_is_empty(&self.ne),
            w: slot_is_empty(&self.w),
            c: slot_is_empty(&self.c),
            e: slot_is_empty(&self.e),
            sw: slot_is_empty(&self.sw),
            s: slot_is_empty(&self.s),
            se: slot_is_empty(&self.se),
        };
        Rule { required, forbidden, variant }
    }
}

/// The two pattern encodings agree on every mask: matching the slots one
/// by one is the same test as `contains` on the compiled required mask
/// together with `does_not_contain` on the compiled forbidden mask.
pub proof fn lemma_slot_bitmask_agree(p: SlotPattern, m: RuleFlags)
    ensures
        spec_slot_matches(p, m) <==> (spec_contains(m, spec_required_of(p)) && spec_disjoint(
            m,
            spec_forbidden_of(p),
        )),
{
}

/// One position of the slot view of a blob pattern: a set flag is
/// `Filled`, a clear edge or center flag is `Empty`, and a clear corner
/// flag is `Empty` only under both adjacent edges — otherwise `Any`.
pub open spec fn spec_blob_corner_slot(flag: bool, e1: bool, e2: bool, t: TerrainType) -> Slot {
    if flag {
        Slot::Filled { terrain_type: t }
    } else if e1 && e2 {
        Slot::Empty
    } else {
        Slot::Any
    }
}

/// An edge or center position of the slot view of a blob pattern.
pub open spec fn spec_blob_edge_slot(flag: bool, t: TerrainType) -> Slot {
    if flag {
        Slot::Filled { terrain_type: t }
    } else {
        Slot::Empty
    }
}

/// The slot view of a canonical blob pattern, authored for terrain `t`.
pub open spec fn spec_blob_slots(p: RuleFlags, t: TerrainType) -> SlotPattern {
    SlotPattern {
        nw: spec_blob_corner_slot(p.nw, p.n, p.w, t),
        n: spec_blob_edge_slot(p.n, t),
        ne: spec_blob_corner_slot(p.ne, p.n, p.e, t),
        w: spec_blob_edge_slot(p.w, t),
        c: spec_blob_edge_slot(p.c, t),
        e: spec_blob_edge_slot(p.e, t),
        sw: spec_blob_corner_slot(p.sw, p.s, p.w, t),
        s: spec_blob_edge_slot(p.s, t),
        se: spec_blob_corner_slot(p.se, p.s, p.e, t),
    }
}

/// The slot view of a canonical blob pattern compiles back to exactly the
/// pattern's canonical rule masks: the two hand-authored encodings of the
/// blob table state the same constraints.
pub proof fn lemma_blob_slots_compile(p: RuleFlags, t: TerrainType)
    requires
        spec_is_canonical(p),
    ensures
        spec_required_of(spec_blob_slots(p, t)) == p,
        spec_forbidden_of(spec_blob_slots(p, t)) == spec_blob_forbidden(p),
{
}

} // verus!
