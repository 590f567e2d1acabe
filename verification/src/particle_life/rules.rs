//! The interaction rule table: for each ordered pair of particle kinds the
//! force between them and the distances within which it acts.

use super::layout::push_u32;
use super::layout::u32_le_bytes;
use super::layout::NUM_RULES;
use super::layout::PARTICLE_KIND_MAX;
use super::particle::ParticleKind;
use vstd::prelude::*;

verus! {

/// How particles of one kind act on particles of another. The three values
/// are the bit patterns of single-precision numbers.
#[derive(Clone, Copy, Debug, PartialEq, Eq, Structural)]
pub struct Rule {
    pub force: u32,
    pub min_distance: u32,
    pub max_distance: u32,
}

/// The bytes of a rule: force, minimal distance, maximal distance.
pub open spec fn rule_bytes(rule: Rule) -> Seq<u8> {
    u32_le_bytes(rule.force) + u32_le_bytes(rule.min_distance) + u32_le_bytes(rule.max_distance)
}

/// The bytes of a sequence of rules, one rule after the other.
pub open spec fn rules_bytes(rules: Seq<Rule>) -> Seq<u8>
    decreases rules.len(),
{
    if rules.len() == 0 {
        Seq::empty()
    } else {
        rules_bytes(rules.drop_last()) + rule_bytes(rules.last())
    }
}

/// Each rule takes twelve bytes.
pub proof fn lemma_rules_bytes_len(rules: Seq<Rule>)
    ensures
        rules_bytes(rules).len() == 12 * rules.len(),
    decreases rules.len(),
{
    if rules.len() > 0 {
        lemma_rules_bytes_len(rules.drop_last());
    }
}

/// Rule `i` occupies the bytes from `12 * i` on.
pub proof fn lemma_rules_bytes_at(rules: Seq<Rule>, i: int)
    requires
        0 <= i < rules.len(),
    ensures
        rules_bytes(rules).len() == 12 * rules.len(),
        rules_bytes(rules).subrange(12 * i, 12 * i + 12) == rule_bytes(rules[i]),
    decreases rules.len(),
{
    lemma_rules_bytes_len(rules);
    lemma_rules_bytes_len(rules.drop_last());
    if i == rules.len() - 1 {
        assert(rules_bytes(rules).subrange(12 * i, 12 * i + 12) =~= rule_bytes(rules[i]));
    } else {
        lemma_rules_bytes_at(rules.drop_last(), i);
        assert(rules_bytes(rules).subrange(12 * i, 12 * i + 12) =~= rules_bytes(
            rules.drop_last(),
        ).subrange(12 * i, 12 * i + 12));
    }
}

/// The rule table. It always holds a rule for every ordered pair of kinds and
/// is replaced as a whole, never entry by entry.
#[derive(Clone, Copy)]
pub struct Rules {
    rules: [Rule; NUM_RULES],
}

impl View for Rules {
    type V = Seq<Rule>;

    closed spec fn view(&self) -> Seq<Rule> {
        self.rules@
    }
}

impl Rules {
    /// The table that holds `rules`, row by row: the rule for the pair
    /// `(a, b)` stands at `a * PARTICLE_KIND_MAX + b`.
    pub fn new(rules: [Rule; NUM_RULES]) -> (table: Rules)
        ensures
            table@ == rules@,
            table@.len() == NUM_RULES,
    {
        Rules { rules }
    }

    /// The table always has `NUM_RULES` entries.
    pub proof fn lemma_len(&self)
        ensures
            self@.len() == NUM_RULES,
    {
    }

    /// The rule by which kind `a` acts on kind `b`.
    pub fn get_rule(&self, a: ParticleKind, b: ParticleKind) -> (rule: &Rule)
        ensures
            a@ < PARTICLE_KIND_MAX,
            b@ < PARTICLE_KIND_MAX,
            *rule == self@[a@ * PARTICLE_KIND_MAX + b@],
    {
        let row: u32 = a.value();
        let column: u32 = b.value();
        let index: usize = (row * PARTICLE_KIND_MAX + column) as usize;
        &self.rules[index]
    }

    /// Appends the table's bytes.
    pub fn encode(&self, bytes: &mut Vec<u8>)
        ensures
            final(bytes)@ == old(bytes)@ + rules_bytes(self@),
    {
        let mut i: usize = 0;
        assert(rules_bytes(self@.take(0)) =~= Seq::<u8>::empty());
        assert(bytes@ =~= old(bytes)@ + rules_bytes(self@.take(0)));
        while i < NUM_RULES
            invariant
                i <= NUM_RULES,
                self@.len() == NUM_RULES,
                bytes@ == old(bytes)@ + rules_bytes(self@.take(i as int)),
            decreases NUM_RULES - i,
        {
            let rule: Rule = self.rules[i];
            push_u32(bytes, rule.force);
            push_u32(bytes, rule.min_distance);
            push_u32(bytes, rule.max_distance);
            proof {
                let next = self@.take(i + 1);
                assert(next.drop_last() =~= self@.take(i as int));
                assert(next.last() == rule);
                assert(bytes@ =~= old(bytes)@ + rules_bytes(next));
            }
            i = i + 1;
        }
        assert(self@.take(NUM_RULES as int) =~= self@);
    }
}

} // verus!
