use autotile::ruleflag::Direction;
use autotile::ruleflag::RuleFlags;

fn flags(bits: u32) -> RuleFlags {
    RuleFlags::from_bits(bits).expect("bits within the nine flags")
}

#[test]
fn from_bits_decodes_the_packed_layout() {
    let m = flags(0b_000_010_010);
    assert!(m.c);
    assert!(m.s);
    assert!(!m.nw && !m.n && !m.ne && !m.w && !m.e && !m.sw && !m.se);

    let m = flags(0b_110_111_010);
    assert!(m.nw && m.n && !m.ne);
    assert!(m.w && m.c && m.e);
    assert!(!m.sw && m.s && !m.se);
}

#[test]
fn from_bits_rejects_bits_outside_the_nine_flags() {
    assert_eq!(RuleFlags::from_bits(512), None);
    assert_eq!(RuleFlags::from_bits(0xFFFF_FFFF), None);
    assert!(RuleFlags::from_bits(511).is_some());
}

#[test]
fn bits_round_trips_every_mask() {
    let mut bits: u32 = 0;
    while bits < 512 {
        let m = flags(bits);
        assert_eq!(m.bits(), bits);
        bits += 1;
    }
}

#[test]
fn empty_has_no_flag_set() {
    let m = RuleFlags::empty();
    assert!(m.is_empty());
    assert_eq!(m.bits(), 0);
}

#[test]
fn insert_sets_one_direction_and_is_pure() {
    let m = RuleFlags::empty();
    let with_n = m.insert(Direction::North);
    assert!(with_n.n);
    assert!(!with_n.c);
    assert!(m.is_empty());
    let with_ns = with_n.insert(Direction::South);
    assert_eq!(with_ns.bits(), 0b_010_000_010);
}

#[test]
fn from_direction_matches_the_packed_constants() {
    assert_eq!(RuleFlags::from_direction(Direction::NorthWest).bits(), 256);
    assert_eq!(RuleFlags::from_direction(Direction::North).bits(), 128);
    assert_eq!(RuleFlags::from_direction(Direction::NorthEast).bits(), 64);
    assert_eq!(RuleFlags::from_direction(Direction::West).bits(), 32);
    assert_eq!(RuleFlags::from_direction(Direction::East).bits(), 8);
    assert_eq!(RuleFlags::from_direction(Direction::SouthWest).bits(), 4);
    assert_eq!(RuleFlags::from_direction(Direction::South).bits(), 2);
    assert_eq!(RuleFlags::from_direction(Direction::SouthEast).bits(), 1);
}

#[test]
fn union_is_bitwise_or() {
    let a = flags(0b_000_011_000);
    let b = flags(0b_010_010_000);
    assert_eq!(a.union(b).bits(), 0b_010_011_000);
}

#[test]
fn contains_requires_full_coverage() {
    let m = flags(0b_000_011_010);
    assert!(m.contains(flags(0b_000_010_010)));
    assert!(m.contains(flags(0b_000_011_010)));
    assert!(!m.contains(flags(0b_000_011_011)));
    assert!(m.contains(RuleFlags::empty()));
}

#[test]
fn does_not_contain_requires_zero_overlap() {
    let m = flags(0b_000_011_010);
    assert!(m.does_not_contain(flags(0b_110_000_100)));
    assert!(!m.does_not_contain(flags(0b_000_001_000)));
    assert!(m.does_not_contain(RuleFlags::empty()));
}

#[test]
fn partial_overlap_satisfies_neither_predicate() {
    // m holds C and S; x holds S and E: they overlap in S, and E is
    // missing from m, so neither predicate holds.
    let m = flags(0b_000_010_010);
    let x = flags(0b_000_001_010);
    assert!(!m.contains(x));
    assert!(!m.does_not_contain(x));
}

#[test]
fn three_way_split_over_all_masks() {
    // Against a fixed x, every mask lands in exactly one of: covers x,
    // disjoint from x, or partial overlap satisfying neither predicate.
    let x = flags(0b_010_010_010);
    let mut bits: u32 = 0;
    let mut covering: u32 = 0;
    let mut disjoint: u32 = 0;
    let mut neither: u32 = 0;
    while bits < 512 {
        let m = flags(bits);
        let c = m.contains(x);
        let d = m.does_not_contain(x);
        assert!(!(c && d));
        if c {
            covering += 1;
        } else if d {
            disjoint += 1;
        } else {
            neither += 1;
        }
        bits += 1;
    }
    // x has three flags: 2^6 supersets, 2^6 disjoint masks, the rest mixed.
    assert_eq!(covering, 64);
    assert_eq!(disjoint, 64);
    assert_eq!(neither, 384);
}
