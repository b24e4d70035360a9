//! Rules and rule sets: named, described vulnerability checks kept in an
//! ordered collection that is de-duplicated by id.

use vstd::prelude::*;
use crate::matcher::Matcher;

verus! {

/// An error raised while a rule set is being configured. Construction fails
/// fast, before any scan runs; a scan itself never fails.
#[derive(Clone, Copy, Debug, PartialEq, Eq, Structural)]
pub enum ConfigError {
    /// A keyword-set matcher was given zero keywords.
    EmptyKeywordSet,
    /// A rule with the same id is already present in the rule set.
    DuplicateRuleId,
}

/// An immutable descriptor of one vulnerability check: an id (unique within
/// a rule set), a human-readable message, and the matcher that decides it.
#[derive(Debug)]
pub struct Rule {
    pub id: String,
    pub message: String,
    pub matcher: Matcher,
}

/// An ordered collection of rules. Insertion order is evaluation order and
/// output order; rule ids are unique.
#[derive(Debug)]
pub struct RuleSet {
    items: Vec<Rule>,
}

impl View for RuleSet {
    type V = Seq<Rule>;

    closed spec fn view(&self) -> Seq<Rule> {
        self.items@
    }
}

impl RuleSet {
    /// Rule ids are pairwise distinct.
    pub open spec fn wf(&self) -> bool {
        forall|i: int, j: int| 0 <= i < j < self@.len() ==> self@[i].id@ != self@[j].id@
    }

    /// Some rule of the set already carries this id.
    pub open spec fn spec_has_id(&self, id: Seq<char>) -> bool {
        exists|i: int| 0 <= i < self@.len() && #[trigger] self@[i].id@ == id
    }

    /// The empty rule set.
    pub fn new() -> (rs: RuleSet)
        ensures
            rs@ == Seq::<Rule>::empty(),
            rs.wf(),
    {
        RuleSet { items: Vec::new() }
    }

    /// Read-only view of the rules; iteration order is insertion order.
    pub fn rules(&self) -> (r: &Vec<Rule>)
        ensures
            r@ == self@,
    {
        &self.items
    }

    /// Appends a rule, preserving order; reports `DuplicateRuleId` and
    /// leaves the set unchanged if a rule with the same id is already
    /// present.
    pub fn add(&mut self, rule: Rule) -> (r: Result<(), ConfigError>)
        requires
            old(self).wf(),
        ensures
            final(self).wf(),
            old(self).spec_has_id(rule.id@) ==> r == Err::<(), ConfigError>(
                ConfigError::DuplicateRuleId,
            ) && final(self)@ == old(self)@,
            !old(self).spec_has_id(rule.id@) ==> r == Ok::<(), ConfigError>(()) && final(self)@
                == old(self)@.push(rule),
    {
        let n = self.items.len();
        let mut i: usize = 0;
        while i < n
            invariant
                self@ == old(self)@,
                self.wf(),
                n == self@.len(),
                i <= n,
                forall|k: int| 0 <= k < i ==> self@[k].id@ != rule.id@,
            decreases n - i,
        {
            if self.items[i].id == rule.id {
                proof {
                    assert(old(self)@[i as int].id@ == rule.id@);
                }
                return Err(ConfigError::DuplicateRuleId);
            }
            i += 1;
        }
        proof {
            assert(!old(self).spec_has_id(rule.id@));
        }
        self.items.push(rule);
        proof {
            assert forall|a: int, b: int| 0 <= a < b < self@.len() implies self@[a].id@
                != self@[b].id@ by {
                if b < self@.len() - 1 {
                    assert(old(self)@[a].id@ != old(self)@[b].id@);
                } else {
                    assert(self@[b] == rule);
                    assert(old(self)@[a].id@ != rule.id@);
                }
            }
        }
        Ok(())
    }
}

} // verus!
