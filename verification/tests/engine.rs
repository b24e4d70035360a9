use codescan::builtin::default_rule_set;
use codescan::matcher::Matcher;
use codescan::rules::{ConfigError, Rule, RuleSet};
use codescan::scanner::scan;

fn rule(id: &str, message: &str, needle: &str) -> Rule {
    Rule {
        id: String::from(id),
        message: String::from(message),
        matcher: Matcher::Contains(String::from(needle)),
    }
}

#[test]
fn contains_matcher_basic() {
    let m = Matcher::Contains(String::from("needle"));
    assert!(m.evaluate("a needle in a haystack"));
    assert!(!m.evaluate("just hay"));
}

#[test]
fn contains_matcher_empty_needle_matches_everything() {
    let m = Matcher::Contains(String::new());
    assert!(m.evaluate(""));
    assert!(m.evaluate("anything"));
}

#[test]
fn keyword_matcher_case_insensitive() {
    // Case-insensitive keywords are supplied in their folded (uppercase) form.
    let m = Matcher::keyword_set(vec![String::from("SELECT"), String::from("DROP")], true)
        .unwrap();
    assert!(m.evaluate("SeLeCt 1"));
    assert!(m.evaluate("will drop it"));
    assert!(!m.evaluate("insert into"));
}

#[test]
fn keyword_matcher_folds_unicode() {
    let m = Matcher::keyword_set(vec![String::from("SELECT")], true).unwrap();
    assert!(m.evaluate("ſelect 1"));
}

#[test]
fn keyword_matcher_case_sensitive() {
    let m = Matcher::keyword_set(vec![String::from("eval")], false).unwrap();
    assert!(m.evaluate("eval(x)"));
    assert!(!m.evaluate("EVAL(x)"));
}

#[test]
fn keyword_matcher_rejects_empty_set() {
    let r = Matcher::keyword_set(Vec::new(), true);
    assert!(matches!(r, Err(ConfigError::EmptyKeywordSet)));
}

#[test]
fn contains_but_not_matcher() {
    let m = Matcher::ContainsButNot(
        String::from("innerHTML"),
        String::from("DOMPurify.sanitize"),
    );
    assert!(m.evaluate("x.innerHTML = y"));
    assert!(!m.evaluate("x.innerHTML = DOMPurify.sanitize(y)"));
    assert!(!m.evaluate("x.textContent = y"));
}

#[test]
fn rule_set_keeps_insertion_order() {
    let mut rs = RuleSet::new();
    rs.add(rule("a", "first", "aa")).unwrap();
    rs.add(rule("b", "second", "bb")).unwrap();
    let rules = rs.rules();
    assert_eq!(rules.len(), 2);
    assert_eq!(rules[0].id, "a");
    assert_eq!(rules[1].id, "b");
}

#[test]
fn rule_set_rejects_duplicate_id() {
    let mut rs = RuleSet::new();
    rs.add(rule("a", "first", "aa")).unwrap();
    let r = rs.add(rule("a", "again", "cc"));
    assert!(matches!(r, Err(ConfigError::DuplicateRuleId)));
    assert_eq!(rs.rules().len(), 1);
    assert_eq!(rs.rules()[0].message, "first");
}

#[test]
fn scan_collects_findings_in_rule_order() {
    let mut rs = RuleSet::new();
    rs.add(rule("a", "first", "aa")).unwrap();
    rs.add(rule("b", "second", "bb")).unwrap();
    let findings = scan(&rs, "bb then aa");
    assert_eq!(findings.len(), 2);
    assert_eq!(findings[0].id, "a");
    assert_eq!(findings[0].message, "first");
    assert_eq!(findings[1].id, "b");
    assert_eq!(findings[1].message, "second");
}

#[test]
fn scan_skips_rules_that_do_not_match() {
    let mut rs = RuleSet::new();
    rs.add(rule("a", "first", "aa")).unwrap();
    rs.add(rule("b", "second", "bb")).unwrap();
    let findings = scan(&rs, "only bb");
    assert_eq!(findings.len(), 1);
    assert_eq!(findings[0].id, "b");
}

#[test]
fn scan_with_empty_rule_set_finds_nothing() {
    let rs = RuleSet::new();
    assert!(scan(&rs, "anything at all").is_empty());
}

#[test]
fn default_rule_set_holds_the_three_rules_in_order() {
    let rs = default_rule_set();
    let rules = rs.rules();
    assert_eq!(rules.len(), 3);
    assert_eq!(rules[0].id, "xss");
    assert_eq!(rules[1].id, "sql_injection");
    assert_eq!(rules[2].id, "command_injection");
}

#[test]
fn scanning_default_rules_matches_scan_code() {
    let rs = default_rule_set();
    let source = "el.innerHTML = eval(\"SELECT\")";
    let direct = scan(&rs, source);
    let built_in = codescan::scan_code(source);
    assert_eq!(direct, built_in);
}
