use autotile::blob::BlobIndex;
use autotile::blob::blob_index_of;
use autotile::blob::blob_rule_table;
use autotile::dirt_rules::DirtRule;
use autotile::grass_rules::GrassRule;
use autotile::ruleflag::RuleFlags;
use autotile::rules::Rule;
use autotile::rules::RuleTable;
use autotile::rules::TileVariant;
use autotile::slots::Slot;
use autotile::slots::SlotPattern;
use autotile::terrain_rules::TerrainType;
use autotile::water_rules::WaterRule;
use autotile::water_rules::water_rule_table;

fn flags(bits: u32) -> RuleFlags {
    RuleFlags::from_bits(bits).expect("bits within the nine flags")
}

/// The packed forms of the 48 blob patterns, in table order.
const BLOB_BITS: [u32; 48] = [
    0b_000_010_010,
    0b_000_011_010,
    0b_000_111_010,
    0b_000_110_010,
    0b_110_111_010,
    0b_000_111_011,
    0b_000_111_110,
    0b_011_111_010,
    0b_000_011_011,
    0b_010_111_111,
    0b_000_111_111,
    0b_000_110_110,
    0b_010_010_010,
    0b_010_011_010,
    0b_010_111_010,
    0b_010_110_010,
    0b_010_011_011,
    0b_011_111_111,
    0b_110_111_111,
    0b_010_110_110,
    0b_011_011_011,
    0b_011_111_110,
    0b_000_000_000,
    0b_110_111_110,
    0b_010_010_000,
    0b_010_011_000,
    0b_010_111_000,
    0b_010_110_000,
    0b_011_011_010,
    0b_111_111_011,
    0b_111_111_110,
    0b_110_110_010,
    0b_011_111_011,
    0b_111_111_111,
    0b_110_111_011,
    0b_110_110_110,
    0b_000_010_000,
    0b_000_011_000,
    0b_000_111_000,
    0b_000_110_000,
    0b_010_111_110,
    0b_011_111_000,
    0b_110_111_000,
    0b_010_111_011,
    0b_011_011_000,
    0b_111_111_000,
    0b_111_111_010,
    0b_110_110_000,
];

#[test]
fn grass_table_resolves_every_exact_pattern_to_its_variant() {
    let table = blob_rule_table(0);
    for (i, &bits) in BLOB_BITS.iter().enumerate() {
        let got = table.resolve(flags(bits));
        assert_eq!(got, Some(TileVariant(i as u32)), "pattern {bits:#011b}");
    }
}

#[test]
fn dirt_table_is_the_grass_table_shifted_by_its_offset() {
    let table = blob_rule_table(48);
    for (i, &bits) in BLOB_BITS.iter().enumerate() {
        assert_eq!(table.resolve(flags(bits)), Some(TileVariant(48 + i as u32)));
    }
}

#[test]
fn wildcard_corners_do_not_change_the_resolved_variant() {
    let table = blob_rule_table(0);
    // Pattern 0 constrains only the edges and the center (C and S set);
    // its corners away from the south edge are wildcards, and the south
    // corners are wildcards too since the west and east edges are clear.
    assert_eq!(table.resolve(flags(0b_000_010_010)), Some(TileVariant(0)));
    assert_eq!(table.resolve(flags(0b_100_010_010)), Some(TileVariant(0)));
    assert_eq!(table.resolve(flags(0b_001_010_111)), Some(TileVariant(0)));
    assert_eq!(table.resolve(flags(0b_101_010_111)), Some(TileVariant(0)));
}

#[test]
fn every_center_set_mask_resolves_somewhere_in_the_blob_table() {
    let table = blob_rule_table(0);
    let mut bits: u32 = 0;
    while bits < 512 {
        let m = flags(bits);
        let got = table.resolve(m);
        if m.c {
            assert!(got.is_some(), "mask {bits:#011b} found no rule");
        }
        bits += 1;
    }
}

#[test]
fn grass_and_dirt_rule_wrappers_use_their_offsets() {
    let g = GrassRule { rule_flag: flags(0b_000_010_010) };
    assert_eq!(g.tile_texture(), Some(TileVariant(0)));
    let d = DirtRule { rule_flag: flags(0b_000_010_010) };
    assert_eq!(d.tile_texture(), Some(TileVariant(48)));
    let g = GrassRule { rule_flag: flags(0b_111_111_111) };
    assert_eq!(g.tile_texture(), Some(TileVariant(33)));
}

#[test]
fn water_resolves_by_first_cardinal_flag() {
    let w = |bits: u32| WaterRule { rule_flag: flags(bits) }.tile_texture();
    assert_eq!(w(0b_010_000_000), Some(TileVariant(96)));
    assert_eq!(w(0b_000_000_010), Some(TileVariant(97)));
    assert_eq!(w(0b_000_001_000), Some(TileVariant(98)));
    assert_eq!(w(0b_000_100_000), Some(TileVariant(99)));
    // North is declared first and wins over the others.
    assert_eq!(w(0b_010_101_010), Some(TileVariant(96)));
    assert_eq!(w(0b_000_101_010), Some(TileVariant(97)));
}

#[test]
fn water_outside_its_four_entries_returns_none() {
    // Any mask without a cardinal flag is outside the table: corners and
    // the center alone never match, and nothing panics.
    let w = |bits: u32| WaterRule { rule_flag: flags(bits) }.tile_texture();
    assert_eq!(w(0b_000_000_000), None);
    assert_eq!(w(0b_000_010_000), None);
    assert_eq!(w(0b_101_010_101), None);
}

#[test]
fn first_match_wins_on_deliberately_overlapping_rules() {
    // Two rules that both match the mask S|E: the earlier-declared one
    // yields its variant, whatever the order of specificity.
    let broad = Rule {
        required: flags(0b_000_000_010),
        forbidden: RuleFlags::empty(),
        variant: TileVariant(7),
    };
    let narrow = Rule {
        required: flags(0b_000_001_010),
        forbidden: RuleFlags::empty(),
        variant: TileVariant(9),
    };
    let m = flags(0b_000_001_010);

    let mut broad_first = RuleTable::new();
    broad_first.push(broad);
    broad_first.push(narrow);
    assert_eq!(broad_first.resolve(m), Some(TileVariant(7)));

    let mut narrow_first = RuleTable::new();
    narrow_first.push(narrow);
    narrow_first.push(broad);
    assert_eq!(narrow_first.resolve(m), Some(TileVariant(9)));
}

#[test]
fn empty_table_matches_nothing() {
    let table = RuleTable::new();
    assert_eq!(table.resolve(flags(0b_111_111_111)), None);
    assert_eq!(table.resolve(RuleFlags::empty()), None);
}

fn slot_of(required: bool, forbidden: bool, t: TerrainType) -> Slot {
    if required {
        Slot::Filled { terrain_type: t }
    } else if forbidden {
        Slot::Empty
    } else {
        Slot::Any
    }
}

/// The slot view of a rule's canonical mask pair.
fn slots_of_rule(rule: &Rule, t: TerrainType) -> SlotPattern {
    let r = rule.required;
    let f = rule.forbidden;
    SlotPattern {
        nw: slot_of(r.nw, f.nw, t),
        n: slot_of(r.n, f.n, t),
        ne: slot_of(r.ne, f.ne, t),
        w: slot_of(r.w, f.w, t),
        c: slot_of(r.c, f.c, t),
        e: slot_of(r.e, f.e, t),
        sw: slot_of(r.sw, f.sw, t),
        s: slot_of(r.s, f.s, t),
        se: slot_of(r.se, f.se, t),
    }
}

#[test]
fn slot_and_bitmask_encodings_agree_on_every_defined_rule_and_mask() {
    let mut rules: Vec<(Rule, TerrainType)> = Vec::new();
    for rule in blob_rule_table(0).rules.iter() {
        rules.push((*rule, TerrainType::Grass));
    }
    for rule in blob_rule_table(48).rules.iter() {
        rules.push((*rule, TerrainType::Dirt));
    }
    for rule in water_rule_table(96).rules.iter() {
        rules.push((*rule, TerrainType::Water));
    }
    assert_eq!(rules.len(), 100);
    for (rule, terrain) in rules.iter() {
        let slots = slots_of_rule(rule, *terrain);
        let mut bits: u32 = 0;
        while bits < 512 {
            let m = flags(bits);
            let raw = m.contains(rule.required) && m.does_not_contain(rule.forbidden);
            assert_eq!(slots.matches(m), raw, "mask {bits:#011b}");
            bits += 1;
        }
    }
}

#[test]
fn compiling_a_slot_pattern_recovers_the_mask_pair() {
    let table = blob_rule_table(0);
    for rule in table.rules.iter() {
        let slots = slots_of_rule(rule, TerrainType::Grass);
        let back = slots.to_rule(rule.variant);
        assert_eq!(back, *rule);
    }
}

#[test]
fn slot_pattern_of_wildcards_matches_everything() {
    let p = SlotPattern::any();
    let mut bits: u32 = 0;
    while bits < 512 {
        assert!(p.matches(flags(bits)));
        bits += 1;
    }
}

#[test]
fn blob_index_finds_exact_patterns_only() {
    for (i, &bits) in BLOB_BITS.iter().enumerate() {
        let got = blob_index_of(flags(bits));
        assert_eq!(got, Some(BlobIndex(i as u8)));
        assert_eq!(got.unwrap().tile_variant(), TileVariant(i as u32));
    }
    // A mask that is not letter-for-letter one of the 48 patterns has no
    // index, even where the wildcard reading would resolve it.
    assert_eq!(blob_index_of(flags(0b_100_010_010)), None);
    assert_eq!(blob_index_of(flags(0b_000_001_000)), None);
}
