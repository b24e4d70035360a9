//! The built-in rule set — cross-site scripting, SQL injection, command
//! injection — together with the boolean probes and `scan_code`, which
//! scans one source text with these rules.

use vstd::prelude::*;
use vstd::pervasive::unreached;
use crate::matcher::{keyword_hit, Matcher};
use crate::rules::{Rule, RuleSet};
use crate::scanner::{finding_views, scan, scan_views, Finding};
use crate::text::{chars_of, contains_chars, contains_seq, to_upper_string, upper_of};

verus! {

/// Id and message of the cross-site-scripting rule.
pub open spec fn xss_finding() -> (Seq<char>, Seq<char>) {
    ("xss"@, "Potential XSS vulnerability detected"@)
}

/// Id and message of the SQL-injection rule.
pub open spec fn sql_finding() -> (Seq<char>, Seq<char>) {
    ("sql_injection"@, "Potential SQL injection vulnerability detected"@)
}

/// Id and message of the command-injection rule.
pub open spec fn cmd_finding() -> (Seq<char>, Seq<char>) {
    ("command_injection"@, "Potential command injection vulnerability detected"@)
}

/// A source text triggers the cross-site-scripting rule: it contains an
/// "innerHTML" assignment pattern and no "DOMPurify.sanitize" call.
pub open spec fn xss_triggered(s: Seq<char>) -> bool {
    contains_seq(s, "innerHTML"@) && !contains_seq(s, "DOMPurify.sanitize"@)
}

/// A source text triggers the SQL-injection rule: its Unicode uppercase
/// fold contains one of the (uppercase) SQL keywords.
pub open spec fn sql_triggered(s: Seq<char>) -> bool {
    ||| keyword_hit(s, "SELECT"@, true)
    ||| keyword_hit(s, "INSERT"@, true)
    ||| keyword_hit(s, "UPDATE"@, true)
    ||| keyword_hit(s, "DELETE"@, true)
    ||| keyword_hit(s, "DROP"@, true)
    ||| keyword_hit(s, "UNION"@, true)
}

/// A source text triggers the command-injection rule: it contains one of
/// the dangerous function names verbatim (case-sensitive).
pub open spec fn cmd_triggered(s: Seq<char>) -> bool {
    ||| keyword_hit(s, "eval"@, false)
    ||| keyword_hit(s, "exec"@, false)
    ||| keyword_hit(s, "system"@, false)
    ||| keyword_hit(s, "spawn"@, false)
    ||| keyword_hit(s, "execSync"@, false)
}

/// Boolean probe for the cross-site-scripting pattern.
pub fn check_xss(code: &str) -> (b: bool)
    ensures
        b == xss_triggered(code@),
{
    let cv = chars_of(code);
    let inner = chars_of("innerHTML");
    let sanitize = chars_of("DOMPurify.sanitize");
    contains_chars(&cv, &inner) && !contains_chars(&cv, &sanitize)
}

/// Boolean probe for the SQL-injection pattern. Every keyword is tested;
/// the match folds the source text with the Unicode uppercase fold.
pub fn check_sql_injection(code: &str) -> (b: bool)
    ensures
        b == sql_triggered(code@),
{
    let folded = to_upper_string(code);
    let cu = chars_of(folded.as_str());
    let h0 = contains_chars(&cu, &chars_of("SELECT"));
    let h1 = contains_chars(&cu, &chars_of("INSERT"));
    let h2 = contains_chars(&cu, &chars_of("UPDATE"));
    let h3 = contains_chars(&cu, &chars_of("DELETE"));
    let h4 = contains_chars(&cu, &chars_of("DROP"));
    let h5 = contains_chars(&cu, &chars_of("UNION"));
    h0 || h1 || h2 || h3 || h4 || h5
}

/// Boolean probe for the command-injection pattern. Every function name is
/// tested; the match is case-sensitive.
pub fn check_command_injection(code: &str) -> (b: bool)
    ensures
        b == cmd_triggered(code@),
{
    let cv = chars_of(code);
    let h0 = contains_chars(&cv, &chars_of("eval"));
    let h1 = contains_chars(&cv, &chars_of("exec"));
    let h2 = contains_chars(&cv, &chars_of("system"));
    let h3 = contains_chars(&cv, &chars_of("spawn"));
    let h4 = contains_chars(&cv, &chars_of("execSync"));
    h0 || h1 || h2 || h3 || h4
}

/// Builds the built-in rule set: the xss, sql_injection and
/// command_injection rules, in that order.
pub fn default_rule_set() -> (rs: RuleSet)
    ensures
        rs.wf(),
        rs@.len() == 3,
        rs@[0].id@ == xss_finding().0,
        rs@[0].message@ == xss_finding().1,
        forall|s: Seq<char>| #[trigger] rs@[0].matcher.spec_matches(s) == xss_triggered(s),
        rs@[1].id@ == sql_finding().0,
        rs@[1].message@ == sql_finding().1,
        forall|s: Seq<char>| #[trigger] rs@[1].matcher.spec_matches(s) == sql_triggered(s),
        rs@[2].id@ == cmd_finding().0,
        rs@[2].message@ == cmd_finding().1,
        forall|s: Seq<char>| #[trigger] rs@[2].matcher.spec_matches(s) == cmd_triggered(s),
{
    let mut rs = RuleSet::new();

    let xss_matcher = Matcher::ContainsButNot(
        String::from_str("innerHTML"),
        String::from_str("DOMPurify.sanitize"),
    );
    proof {
        assert forall|s: Seq<char>| #[trigger] xss_matcher.spec_matches(s) == xss_triggered(s) by {}
    }
    let xss_rule = Rule {
        id: String::from_str("xss"),
        message: String::from_str("Potential XSS vulnerability detected"),
        matcher: xss_matcher,
    };
    let ghost xss_rule_val = xss_rule;
    match rs.add(xss_rule) {
        Ok(()) => {},
        Err(_) => {
            proof {
                assert(false);
            }
        },
    }

    let mut sql_words: Vec<String> = Vec::new();
    sql_words.push(String::from_str("SELECT"));
    sql_words.push(String::from_str("INSERT"));
    sql_words.push(String::from_str("UPDATE"));
    sql_words.push(String::from_str("DELETE"));
    sql_words.push(String::from_str("DROP"));
    sql_words.push(String::from_str("UNION"));
    let sql_matcher = match Matcher::keyword_set(sql_words, true) {
        Ok(m) => m,
        Err(_) => unreached(),
    };
    proof {
        assert forall|s: Seq<char>| #[trigger] sql_matcher.spec_matches(s) == sql_triggered(s) by {
            if sql_matcher.spec_matches(s) {
                let i = choose|i: int|
                    0 <= i < sql_matcher->keywords@.len() && #[trigger] keyword_hit(
                        s,
                        sql_matcher->keywords@[i]@,
                        sql_matcher->case_insensitive,
                    );
                assert(sql_triggered(s));
            }
            if sql_triggered(s) {
                if keyword_hit(s, "SELECT"@, true) {
                    assert(keyword_hit(s, sql_matcher->keywords@[0]@, sql_matcher->case_insensitive));
                } else if keyword_hit(s, "INSERT"@, true) {
                    assert(keyword_hit(s, sql_matcher->keywords@[1]@, sql_matcher->case_insensitive));
                } else if keyword_hit(s, "UPDATE"@, true) {
                    assert(keyword_hit(s, sql_matcher->keywords@[2]@, sql_matcher->case_insensitive));
                } else if keyword_hit(s, "DELETE"@, true) {
                    assert(keyword_hit(s, sql_matcher->keywords@[3]@, sql_matcher->case_insensitive));
                } else if keyword_hit(s, "DROP"@, true) {
                    assert(keyword_hit(s, sql_matcher->keywords@[4]@, sql_matcher->case_insensitive));
                } else {
                    assert(keyword_hit(s, sql_matcher->keywords@[5]@, sql_matcher->case_insensitive));
                }
                assert(sql_matcher.spec_matches(s));
            }
        }
    }
    let sql_rule = Rule {
        id: String::from_str("sql_injection"),
        message: String::from_str("Potential SQL injection vulnerability detected"),
        matcher: sql_matcher,
    };
    let ghost sql_rule_val = sql_rule;
    match rs.add(sql_rule) {
        Ok(()) => {},
        Err(_) => {
            proof {
                reveal_strlit("xss");
                reveal_strlit("sql_injection");
                assert("xss"@.len() == 3);
                assert("sql_injection"@.len() == 13);
                assert(false);
            }
        },
    }

    let mut cmd_words: Vec<String> = Vec::new();
    cmd_words.push(String::from_str("eval"));
    cmd_words.push(String::from_str("exec"));
    cmd_words.push(String::from_str("system"));
    cmd_words.push(String::from_str("spawn"));
    cmd_words.push(String::from_str("execSync"));
    let cmd_matcher = match Matcher::keyword_set(cmd_words, false) {
        Ok(m) => m,
        Err(_) => unreached(),
    };
    proof {
        assert forall|s: Seq<char>| #[trigger] cmd_matcher.spec_matches(s) == cmd_triggered(s) by {
            if cmd_matcher.spec_matches(s) {
                let i = choose|i: int|
                    0 <= i < cmd_matcher->keywords@.len() && #[trigger] keyword_hit(
                        s,
                        cmd_matcher->keywords@[i]@,
                        cmd_matcher->case_insensitive,
                    );
                assert(cmd_triggered(s));
            }
            if cmd_triggered(s) {
                if keyword_hit(s, "eval"@, false) {
                    assert(keyword_hit(s, cmd_matcher->keywords@[0]@, cmd_matcher->case_insensitive));
                } else if keyword_hit(s, "exec"@, false) {
                    assert(keyword_hit(s, cmd_matcher->keywords@[1]@, cmd_matcher->case_insensitive));
                } else if keyword_hit(s, "system"@, false) {
                    assert(keyword_hit(s, cmd_matcher->keywords@[2]@, cmd_matcher->case_insensitive));
                } else if keyword_hit(s, "spawn"@, false) {
                    assert(keyword_hit(s, cmd_matcher->keywords@[3]@, cmd_matcher->case_insensitive));
                } else {
                    assert(keyword_hit(s, cmd_matcher->keywords@[4]@, cmd_matcher->case_insensitive));
                }
                assert(cmd_matcher.spec_matches(s));
            }
        }
    }
    let cmd_rule = Rule {
        id: String::from_str("command_injection"),
        message: String::from_str("Potential command injection vulnerability detected"),
        matcher: cmd_matcher,
    };
    let ghost cmd_rule_val = cmd_rule;
    match rs.add(cmd_rule) {
        Ok(()) => {},
        Err(_) => {
            proof {
                reveal_strlit("xss");
                reveal_strlit("sql_injection");
                reveal_strlit("command_injection");
                assert("xss"@.len() == 3);
                assert("sql_injection"@.len() == 13);
                assert("command_injection"@.len() == 17);
                assert(false);
            }
        },
    }

    proof {
        assert(rs@ =~= seq![xss_rule_val, sql_rule_val, cmd_rule_val]);
    }
    rs
}

/// What scanning a source text with the built-in rules yields: the
/// triggered rules' (id, message) pairs, in the fixed order xss,
/// sql_injection, command_injection.
pub open spec fn scan_code_views(s: Seq<char>) -> Seq<(Seq<char>, Seq<char>)> {
    (if xss_triggered(s) {
        seq![xss_finding()]
    } else {
        Seq::<(Seq<char>, Seq<char>)>::empty()
    }) + (if sql_triggered(s) {
        seq![sql_finding()]
    } else {
        Seq::<(Seq<char>, Seq<char>)>::empty()
    }) + (if cmd_triggered(s) {
        seq![cmd_finding()]
    } else {
        Seq::<(Seq<char>, Seq<char>)>::empty()
    })
}

/// Scans one source text with the built-in rule set and returns the
/// findings in rule order.
pub fn scan_code(code: &str) -> (findings: Vec<Finding>)
    ensures
        finding_views(findings@) == scan_code_views(code@),
{
    let rs = default_rule_set();
    let findings = scan(&rs, code);
    proof {
        let s = code@;
        let rules = rs@;
        let r2 = rules.drop_last();
        let r1 = r2.drop_last();
        let r0 = r1.drop_last();
        assert(r1.last() == rules[0]);
        assert(r2.last() == rules[1]);
        assert(rules.last() == rules[2]);
        assert(r0.len() == 0);
        assert(scan_views(r0, s) == Seq::<(Seq<char>, Seq<char>)>::empty());
        assert(scan_views(r1, s) == (if xss_triggered(s) {
            scan_views(r0, s).push(xss_finding())
        } else {
            scan_views(r0, s)
        }));
        assert(scan_views(r2, s) == (if sql_triggered(s) {
            scan_views(r1, s).push(sql_finding())
        } else {
            scan_views(r1, s)
        }));
        assert(scan_views(rules, s) == (if cmd_triggered(s) {
            scan_views(r2, s).push(cmd_finding())
        } else {
            scan_views(r2, s)
        }));
        assert(scan_views(rules, s) =~= scan_code_views(s));
    }
    findings
}

/// A source text without "innerHTML" never triggers the
/// cross-site-scripting rule.
pub proof fn lemma_xss_needs_inner_html(s: Seq<char>)
    requires
        !contains_seq(s, "innerHTML"@),
    ensures
        !xss_triggered(s),
{
}

/// A source text that contains "innerHTML" but also "DOMPurify.sanitize"
/// never triggers the cross-site-scripting rule.
pub proof fn lemma_xss_sanitized(s: Seq<char>)
    requires
        contains_seq(s, "innerHTML"@),
        contains_seq(s, "DOMPurify.sanitize"@),
    ensures
        !xss_triggered(s),
{
}

/// A source text that contains "innerHTML" and lacks "DOMPurify.sanitize"
/// always triggers the cross-site-scripting rule.
pub proof fn lemma_xss_unsanitized(s: Seq<char>)
    requires
        contains_seq(s, "innerHTML"@),
        !contains_seq(s, "DOMPurify.sanitize"@),
    ensures
        xss_triggered(s),
{
}

/// The SQL-injection rule triggers exactly when the Unicode uppercase fold
/// of the source text contains one of the uppercase SQL keywords.
pub proof fn lemma_sql_fold_characterization(s: Seq<char>)
    ensures
        sql_triggered(s) <==> (contains_seq(upper_of(s), "SELECT"@) || contains_seq(
            upper_of(s),
            "INSERT"@,
        ) || contains_seq(upper_of(s), "UPDATE"@) || contains_seq(upper_of(s), "DELETE"@)
            || contains_seq(upper_of(s), "DROP"@) || contains_seq(upper_of(s), "UNION"@)),
{
}

/// The command-injection rule triggers exactly when the source text
/// contains one of the dangerous function names, case-sensitively.
pub proof fn lemma_cmd_exact_characterization(s: Seq<char>)
    ensures
        cmd_triggered(s) <==> (contains_seq(s, "eval"@) || contains_seq(s, "exec"@) || contains_seq(
            s,
            "system"@,
        ) || contains_seq(s, "spawn"@) || contains_seq(s, "execSync"@)),
{
}

/// Scanning is a pure function of the source text: two scans of the same
/// text yield the same findings.
pub proof fn lemma_scan_code_deterministic(
    s: Seq<char>,
    r1: Seq<(Seq<char>, Seq<char>)>,
    r2: Seq<(Seq<char>, Seq<char>)>,
)
    requires
        r1 == scan_code_views(s),
        r2 == scan_code_views(s),
    ensures
        r1 == r2,
{
}

} // verus!
