//! Direction flags over a 3x3 neighborhood.
//!
//! A `RuleFlags` value is a set of nine flags: one per compass direction
//! around a cell, plus one for the center cell itself. A flag says that the
//! cell in that position satisfies some terrain predicate. Masks compose via
//! set union and are compared with `contains` (full coverage) and
//! `does_not_contain` (zero overlap); a mask with a partial overlap satisfies
//! neither, and rule definitions rely on that three-way split.

use vstd::prelude::*;

verus! {

/// One of the eight compass directions around a cell.
#[derive(Clone, Copy, Debug, PartialEq, Eq, Structural)]
pub enum Direction {
    North,
    NorthEast,
    East,
    SouthEast,
    South,
    SouthWest,
    West,
    NorthWest,
}

/// A set of nine flags over the 3x3 neighborhood of a cell.
///
/// The flags mirror the classic packed layout `NW N NE / W C E / SW S SE`,
/// where the numeric encoding assigns bit 8 to `nw` down to bit 0 for `se`,
/// with the center cell at bit 4. `from_bits` and `bits` convert between the
/// two forms; the flags themselves are the model that every contract in this
/// crate speaks of.
#[derive(Clone, Copy, Debug, PartialEq, Eq, Hash, Structural)]
pub struct RuleFlags {
    pub nw: bool,
    pub n: bool,
    pub ne: bool,
    pub w: bool,
    pub c: bool,
    pub e: bool,
    pub sw: bool,
    pub s: bool,
    pub se: bool,
}

/// The mask decoded from the nine low bits of a packed word.
pub open spec fn spec_from_bits(bits: u32) -> RuleFlags {
    RuleFlags {
        nw: (bits / 256) % 2 == 1,
        n: (bits / 128) % 2 == 1,
        ne: (bits / 64) % 2 == 1,
        w: (bits / 32) % 2 == 1,
        c: (bits / 16) % 2 == 1,
        e: (bits / 8) % 2 == 1,
        sw: (bits / 4) % 2 == 1,
        s: (bits / 2) % 2 == 1,
        se: bits % 2 == 1,
    }
}

/// The packed word for a mask.
pub open spec fn spec_bits(m: RuleFlags) -> u32 {
    ((if m.nw { 256int } else { 0int }) + (if m.n { 128int } else { 0int })
        + (if m.ne { 64int } else { 0int }) + (if m.w { 32int } else { 0int })
        + (if m.c { 16int } else { 0int }) + (if m.e { 8int } else { 0int })
        + (if m.sw { 4int } else { 0int }) + (if m.s { 2int } else { 0int })
        + (if m.se { 1int } else { 0int })) as u32
}

/// Every flag set in `other` is also set in `m` (`m` is a superset of `other`).
pub open spec fn spec_contains(m: RuleFlags, other: RuleFlags) -> bool {
    &&& other.nw ==> m.nw
    &&& other.n ==> m.n
    &&& other.ne ==> m.ne
    &&& other.w ==> m.w
    &&& other.c ==> m.c
    &&& other.e ==> m.e
    &&& other.sw ==> m.sw
    &&& other.s ==> m.s
    &&& other.se ==> m.se
}

/// No flag is set in both `m` and `other` (the two masks are disjoint).
pub open spec fn spec_disjoint(m: RuleFlags, other: RuleFlags) -> bool {
    &&& !(m.nw && other.nw)
    &&& !(m.n && other.n)
    &&& !(m.ne && other.ne)
    &&& !(m.w && other.w)
    &&& !(m.c && other.c)
    &&& !(m.e && other.e)
    &&& !(m.sw && other.sw)
    &&& !(m.s && other.s)
    &&& !(m.se && other.se)
}

/// The union of two masks.
pub open spec fn spec_union(a: RuleFlags, b: RuleFlags) -> RuleFlags {
    RuleFlags {
        nw: a.nw || b.nw,
        n: a.n || b.n,
        ne: a.ne || b.ne,
        w: a.w || b.w,
        c: a.c || b.c,
        e: a.e || b.e,
        sw: a.sw || b.sw,
        s: a.s || b.s,
        se: a.se || b.se,
    }
}

/// No flag at all is set.
pub open spec fn spec_is_empty(m: RuleFlags) -> bool {
    m == RuleFlags::spec_empty()
}

/// The mask holding exactly the flag of one compass direction.
pub open spec fn spec_direction_flag(d: Direction) -> RuleFlags {
    match d {
        Direction::North => RuleFlags { n: true, ..RuleFlags::spec_empty() },
        Direction::NorthEast => RuleFlags { ne: true, ..RuleFlags::spec_empty() },
        Direction::East => RuleFlags { e: true, ..RuleFlags::spec_empty() },
        Direction::SouthEast => RuleFlags { se: true, ..RuleFlags::spec_empty() },
        Direction::South => RuleFlags { s: true, ..RuleFlags::spec_empty() },
        Direction::SouthWest => RuleFlags { sw: true, ..RuleFlags::spec_empty() },
        Direction::West => RuleFlags { w: true, ..RuleFlags::spec_empty() },
        Direction::NorthWest => RuleFlags { nw: true, ..RuleFlags::spec_empty() },
    }
}

impl RuleFlags {
    /// The zero mask in spec form.
    pub open spec fn spec_empty() -> RuleFlags {
        RuleFlags {
            nw: false,
            n: false,
            ne: false,
            w: false,
            c: false,
            e: false,
            sw: false,
            s: false,
            se: false,
        }
    }

    /// Returns the zero mask.
    pub fn empty() -> (r: RuleFlags)
        ensures
            r == RuleFlags::spec_empty(),
    {
        RuleFlags {
            nw: false,
            n: false,
            ne: false,
            w: false,
            c: false,
            e: false,
            sw: false,
            s: false,
            se: false,
        }
    }

    /// Decodes a packed word; rejects words with bits outside the nine flags.
    pub fn from_bits(bits: u32) -> (r: Option<RuleFlags>)
        ensures
            bits < 512 ==> r == Some(spec_from_bits(bits)),
            bits >= 512 ==> r is None,
    {
        if bits < 512 {
            Some(RuleFlags {
                nw: (bits / 256) % 2 == 1,
                n: (bits / 128) % 2 == 1,
                ne: (bits / 64) % 2 == 1,
                w: (bits / 32) % 2 == 1,
                c: (bits / 16) % 2 == 1,
                e: (bits / 8) % 2 == 1,
                sw: (bits / 4) % 2 == 1,
                s: (bits / 2) % 2 == 1,
                se: bits % 2 == 1,
            })
        } else {
            None
        }
    }

    /// Packs the mask into its numeric form.
    #[verifier::rlimit(60)]
    pub fn bits(&self) -> (b: u32)
        ensures
            b == spec_bits(*self),
            b < 512,
    {
        let mut b: u32 = 0;
        if self.nw {
            b = b + 256;
        }
        if self.n {
            b = b + 128;
        }
        if self.ne {
            b = b + 64;
        }
        if self.w {
            b = b + 32;
        }
        if self.c {
            b = b + 16;
        }
        if self.e {
            b = b + 8;
        }
        if self.sw {
            b = b + 4;
        }
        if self.s {
            b = b + 2;
        }
        if self.se {
            b = b + 1;
        }
        b
    }

    /// Returns the mask with the flag of `direction` also set (pure; the
    /// receiver is left as it was).
    pub fn insert(&self, direction: Direction) -> (r: RuleFlags)
        ensures
            r == spec_union(*self, spec_direction_flag(direction)),
    {
        let mut r = *self;
        match direction {
            Direction::North => r.n = true,
            Direction::NorthEast => r.ne = true,
            Direction::East => r.e = true,
            Direction::SouthEast => r.se = true,
            Direction::South => r.s = true,
            Direction::SouthWest => r.sw = true,
            Direction::West => r.w = true,
            Direction::NorthWest => r.nw = true,
        }
        r
    }

    /// Returns the set union of the two masks.
    pub fn union(&self, other: RuleFlags) -> (r: RuleFlags)
        ensures
            r == spec_union(*self, other),
    {
        RuleFlags {
            nw: self.nw || other.nw,
            n: self.n || other.n,
            ne: self.ne || other.ne,
            w: self.w || other.w,
            c: self.c || other.c,
            e: self.e || other.e,
            sw: self.sw || other.sw,
            s: self.s || other.s,
            se: self.se || other.se,
        }
    }

    /// The mask holding exactly the flag of one compass direction.
    pub fn from_direction(direction: Direction) -> (r: RuleFlags)
        ensures
            r == spec_direction_flag(direction),
    {
        RuleFlags::empty().insert(direction)
    }

    /// True iff no flag is set.
    pub fn is_empty(&self) -> (r: bool)
        ensures
            r == spec_is_empty(*self),
    {
        !(self.nw || self.n || self.ne || self.w || self.c || self.e || self.sw || self.s
            || self.se)
    }

    /// True iff every flag set in `other` is also set in `self`.
    pub fn contains(&self, other: RuleFlags) -> (r: bool)
        ensures
            r == spec_contains(*self, other),
    {
        (!other.nw || self.nw) && (!other.n || self.n) && (!other.ne || self.ne) && (!other.w
            || self.w) && (!other.c || self.c) && (!other.e || self.e) && (!other.sw || self.sw)
            && (!other.s || self.s) && (!other.se || self.se)
    }

    /// True iff no flag is set in both `self` and `cannot_contain`.
    pub fn does_not_contain(&self, cannot_contain: RuleFlags) -> (r: bool)
        ensures
            r == spec_disjoint(*self, cannot_contain),
    {
        !(self.nw && cannot_contain.nw) && !(self.n && cannot_contain.n) && !(self.ne
            && cannot_contain.ne) && !(self.w && cannot_contain.w) && !(self.c && cannot_contain.c)
            && !(self.e && cannot_contain.e) && !(self.sw && cannot_contain.sw) && !(self.s
            && cannot_contain.s) && !(self.se && cannot_contain.se)
    }
}

/// Packing and unpacking are inverse on the nine-flag range: a mask survives
/// the round trip through its numeric form, and a packed word below 512
/// survives the round trip through the mask it decodes to.
#[verifier::rlimit(60)]
pub proof fn lemma_bits_round_trip(m: RuleFlags, bits: u32)
    requires
        bits < 512,
    ensures
        spec_from_bits(spec_bits(m)) == m,
        spec_bits(spec_from_bits(bits)) == bits,
{
    let x8: u32 = if m.nw { 1 } else { 0 };
    let x7: u32 = if m.n { 1 } else { 0 };
    let x6: u32 = if m.ne { 1 } else { 0 };
    let x5: u32 = if m.w { 1 } else { 0 };
    let x4: u32 = if m.c { 1 } else { 0 };
    let x3: u32 = if m.e { 1 } else { 0 };
    let x2: u32 = if m.sw { 1 } else { 0 };
    let x1: u32 = if m.s { 1 } else { 0 };
    let x0: u32 = if m.se { 1 } else { 0 };
    let s: u32 = spec_bits(m);
    assert(s == 256 * x8 + 128 * x7 + 64 * x6 + 32 * x5 + 16 * x4 + 8 * x3 + 4 * x2 + 2 * x1
        + x0);
    assert((x8 <= 1 && x7 <= 1 && x6 <= 1 && x5 <= 1 && x4 <= 1 && x3 <= 1 && x2 <= 1 && x1 <= 1
        && x0 <= 1 && s == 256 * x8 + 128 * x7 + 64 * x6 + 32 * x5 + 16 * x4 + 8 * x3 + 4 * x2 + 2
        * x1 + x0) ==> ((s / 256) % 2 == x8 && (s / 128) % 2 == x7 && (s / 64) % 2 == x6 && (s
        / 32) % 2 == x5 && (s / 16) % 2 == x4 && (s / 8) % 2 == x3 && (s / 4) % 2 == x2 && (s / 2)
        % 2 == x1 && s % 2 == x0)) by (bit_vector);
    assert(bits < 512 ==> 256 * ((bits / 256) % 2) + 128 * ((bits / 128) % 2) + 64 * ((bits / 64)
        % 2) + 32 * ((bits / 32) % 2) + 16 * ((bits / 16) % 2) + 8 * ((bits / 8) % 2) + 4 * ((bits
        / 4) % 2) + 2 * ((bits / 2) % 2) + bits % 2 == bits) by (bit_vector);
}

/// `contains` and `does_not_contain` are not complements: a mask that
/// overlaps `x` (witnessed by `both`, a nonempty mask set in both) without
/// covering all of `x` (witnessed by `missing`, a nonempty part of `x` absent
/// from `m`) satisfies neither predicate.
pub proof fn lemma_partial_overlap_satisfies_neither(
    m: RuleFlags,
    x: RuleFlags,
    both: RuleFlags,
    missing: RuleFlags,
)
    requires
        !spec_is_empty(both),
        spec_contains(m, both),
        spec_contains(x, both),
        !spec_is_empty(missing),
        spec_contains(x, missing),
        spec_disjoint(m, missing),
    ensures
        !spec_contains(m, x),
        !spec_disjoint(m, x),
{
}

} // verus!
