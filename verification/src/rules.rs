//! Ordered rule tables and the first-match-wins resolver.
//!
//! A rule pairs a neighborhood pattern with a tile variant. The canonical
//! pattern form is a pair of masks: `required` flags that must all be present
//! and `forbidden` flags none of which may be present; every other flag is a
//! wildcard. Rules are kept in declaration order, and `resolve` returns the
//! variant of the first rule whose pattern matches — overlapping patterns are
//! disambiguated by order, never by specificity. A mask no rule matches
//! resolves to `None`; the caller substitutes its own default.

use vstd::prelude::*;

use crate::ruleflag::RuleFlags;
use crate::ruleflag::spec_contains;
use crate::ruleflag::spec_disjoint;

verus! {

/// The sprite-sheet position of the blank fallback tile, displayed where a
/// cell has no terrain assigned or its mask found no rule.
pub const TILE_TEXTURE_BLANK: u32 = 102;

/// An opaque tile-variant identifier, such as an index into a sprite sheet.
/// The core never interprets its value.
#[derive(Clone, Copy, Debug, PartialEq, Eq, Hash, Structural)]
pub struct TileVariant(pub u32);

/// One autotiling rule: a neighborhood pattern in its canonical form,
/// paired with the tile variant to use where the pattern matches.
#[derive(Clone, Copy, Debug, PartialEq, Eq, Structural)]
pub struct Rule {
    /// Flags that a mask must contain for the rule to match.
    pub required: RuleFlags,
    /// Flags that a mask must not overlap for the rule to match.
    pub forbidden: RuleFlags,
    /// The variant returned when the rule matches.
    pub variant: TileVariant,
}

/// Whether the pattern of `rule` matches the sampled mask `m`: `m` covers
/// every required flag and overlaps no forbidden one.
pub open spec fn spec_rule_matches(rule: Rule, m: RuleFlags) -> bool {
    spec_contains(m, rule.required) && spec_disjoint(m, rule.forbidden)
}

/// The variant of the first rule in `rules` that matches `m`, or `None`
/// when no rule does.
pub open spec fn spec_resolve(rules: Seq<Rule>, m: RuleFlags) -> Option<TileVariant>
    decreases rules.len(),
{
    if rules.len() == 0 {
        None
    } else if spec_rule_matches(rules[0], m) {
        Some(rules[0].variant)
    } else {
        spec_resolve(rules.subrange(1, rules.len() as int), m)
    }
}

/// An ordered list of rules for one terrain. Declaration order is
/// significant: the resolver scans front to back.
#[derive(Clone, Debug)]
pub struct RuleTable {
    /// The rules, in declaration order.
    pub rules: Vec<Rule>,
}

impl Rule {
    /// Whether this rule's pattern matches the sampled mask `m`.
    pub fn matches(&self, m: RuleFlags) -> (r: bool)
        ensures
            r == spec_rule_matches(*self, m),
    {
        m.contains(self.required) && m.does_not_contain(self.forbidden)
    }
}

impl RuleTable {
    /// The empty table, which matches nothing.
    pub fn new() -> (t: RuleTable)
        ensures
            t.rules@ =~= Seq::<Rule>::empty(),
    {
        RuleTable { rules: Vec::new() }
    }

    /// Appends a rule after all rules already declared.
    pub fn push(&mut self, rule: Rule)
        ensures
            final(self).rules@ == old(self).rules@.push(rule),
    {
        self.rules.push(rule);
    }

    /// Resolves a sampled mask against the table: the variant of the first
    /// matching rule, or `None` when no rule matches.
    pub fn resolve(&self, m: RuleFlags) -> (r: Option<TileVariant>)
        ensures
            r == spec_resolve(self.rules@, m),
    {
        let n = self.rules.len();
        let mut i: usize = 0;
        proof {
            assert(self.rules@.subrange(0, n as int) =~= self.rules@);
        }
        while i < n
            invariant
                0 <= i <= n,
                n == self.rules@.len(),
                forall|j: int| 0 <= j < i ==> !spec_rule_matches(self.rules@[j], m),
                spec_resolve(self.rules@, m) == spec_resolve(
                    self.rules@.subrange(i as int, n as int),
                    m,
                ),
            decreases n - i,
        {
            let rule = self.rules[i];
            if rule.matches(m) {
                assert(self.rules@.subrange(i as int, n as int)[0] == self.rules@[i as int]);
                return Some(rule.variant);
            }
            proof {
                let tail = self.rules@.subrange(i as int, n as int);
                assert(tail[0] == self.rules@[i as int]);
                assert(tail.subrange(1, tail.len() as int) =~= self.rules@.subrange(
                    i + 1,
                    n as int,
                ));
            }
            i = i + 1;
        }
        proof {
            assert(self.rules@.subrange(n as int, n as int) =~= Seq::<Rule>::empty());
        }
        None
    }
}

/// First-match-wins: where rule `i` matches `m` and no earlier rule does,
/// resolution returns exactly rule `i`'s variant, whatever the later rules
/// say.
pub proof fn lemma_resolve_first_match(rules: Seq<Rule>, m: RuleFlags, i: int)
    requires
        0 <= i < rules.len(),
        spec_rule_matches(rules[i], m),
        forall|j: int| 0 <= j < i ==> !spec_rule_matches(rules[j], m),
    ensures
        spec_resolve(rules, m) == Some(rules[i].variant),
    decreases i,
{
    if i == 0 {
    } else {
        let tail = rules.subrange(1, rules.len() as int);
        assert(tail[i - 1] == rules[i]);
        assert(forall|j: int| 0 <= j < i - 1 ==> tail[j] == rules[j + 1]);
        lemma_resolve_first_match(tail, m, i - 1);
    }
}

/// Resolution returns `None` exactly where no rule in the table matches.
pub proof fn lemma_resolve_none(rules: Seq<Rule>, m: RuleFlags)
    ensures
        (spec_resolve(rules, m) is None) <==> (forall|j: int|
            0 <= j < rules.len() ==> !spec_rule_matches(rules[j], m)),
    decreases rules.len(),
{
    if rules.len() == 0 {
    } else {
        let tail = rules.subrange(1, rules.len() as int);
        lemma_resolve_none(tail, m);
        assert(forall|j: int| 0 <= j < tail.len() ==> tail[j] == rules[j + 1]);
        if spec_resolve(rules, m) is None {
            assert forall|j: int| 0 <= j < rules.len() implies !spec_rule_matches(
                rules[j],
                m,
            ) by {
                if j > 0 {
                    assert(rules[j] == tail[j - 1]);
                }
            }
        }
    }
}

/// Where rule `i` is the only matching rule in the table, resolution
/// returns its variant.
pub proof fn lemma_resolve_unique_match(rules: Seq<Rule>, m: RuleFlags, i: int)
    requires
        0 <= i < rules.len(),
        spec_rule_matches(rules[i], m),
        forall|j: int| 0 <= j < rules.len() && j != i ==> !spec_rule_matches(rules[j], m),
    ensures
        spec_resolve(rules, m) == Some(rules[i].variant),
{
    lemma_resolve_first_match(rules, m, i);
}

} // verus!
