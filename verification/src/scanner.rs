//! The scanner: evaluates a rule set against one source text and collects
//! the triggered rules as findings, in rule order.

use vstd::prelude::*;
use crate::rules::{Rule, RuleSet};

verus! {

/// One triggered rule: its id and message. A value type with no identity
/// beyond its fields.
#[derive(Debug, PartialEq, Eq)]
pub struct Finding {
    pub id: String,
    pub message: String,
}

impl View for Finding {
    type V = (Seq<char>, Seq<char>);

    open spec fn view(&self) -> (Seq<char>, Seq<char>) {
        (self.id@, self.message@)
    }
}

/// The (id, message) pairs of a sequence of findings.
pub open spec fn finding_views(findings: Seq<Finding>) -> Seq<(Seq<char>, Seq<char>)> {
    findings.map_values(|f: Finding| f@)
}

/// The findings that scanning `rules` over `s` yields: one (id, message)
/// pair per matching rule, in rule order.
pub open spec fn scan_views(rules: Seq<Rule>, s: Seq<char>) -> Seq<(Seq<char>, Seq<char>)>
    decreases rules.len(),
{
    if rules.len() == 0 {
        Seq::empty()
    } else {
        let prefix = scan_views(rules.drop_last(), s);
        if rules.last().matcher.spec_matches(s) {
            prefix.push((rules.last().id@, rules.last().message@))
        } else {
            prefix
        }
    }
}

/// Evaluates every rule of `rule_set` against `source`, in order, with no
/// early exit, and returns one finding per rule that matched, preserving
/// rule order. Deterministic and total: the result is a function of the
/// rule set and the source text alone, and no input makes it fail.
#[verifier::loop_isolation(false)]
pub fn scan(rule_set: &RuleSet, source: &str) -> (findings: Vec<Finding>)
    ensures
        finding_views(findings@) == scan_views(rule_set@, source@),
{
    let rules = rule_set.rules();
    let mut findings: Vec<Finding> = Vec::new();
    let mut i: usize = 0;
    while i < rules.len()
        invariant
            i <= rules@.len(),
            finding_views(findings@) == scan_views(rule_set@.subrange(0, i as int), source@),
        decreases rules@.len() - i,
    {
        let rule = &rules[i];
        if rule.matcher.evaluate(source) {
            findings.push(Finding { id: rule.id.clone(), message: rule.message.clone() });
        }
        proof {
            let prefix = rule_set@.subrange(0, i as int);
            let extended = rule_set@.subrange(0, i + 1);
            assert(extended.drop_last() =~= prefix);
            assert(extended.last() == rule_set@[i as int]);
            assert(finding_views(findings@) =~= scan_views(extended, source@));
        }
        i += 1;
    }
    proof {
        assert(rule_set@.subrange(0, rule_set@.len() as int) =~= rule_set@);
    }
    findings
}

} // verus!
