//! Matchers: pure predicate variants deciding whether a source text
//! triggers a rule.

use vstd::prelude::*;
use crate::rules::ConfigError;
use crate::text::{chars_of, contains_chars, contains_seq, to_upper_string, upper_of};

verus! {

/// `kw` hits `s`: the keyword occurs in the text, the text first folded
/// with the Unicode uppercase fold when the match is case-insensitive.
/// The keyword itself is matched as given, so a case-insensitive keyword
/// is supplied in its folded (uppercase) form.
pub open spec fn keyword_hit(s: Seq<char>, kw: Seq<char>, case_insensitive: bool) -> bool {
    if case_insensitive {
        contains_seq(upper_of(s), kw)
    } else {
        contains_seq(s, kw)
    }
}

/// A pure predicate over a source text. Every variant is total: it decides
/// every string, including the empty one, without failing.
#[derive(Debug)]
pub enum Matcher {
    /// The text contains the needle (case-sensitive); an empty needle
    /// matches every text.
    Contains(String),
    /// The text contains at least one of the keywords; when
    /// `case_insensitive` is set the text is case folded (Unicode
    /// uppercase) before matching, and the keywords are expected in their
    /// folded form.
    ContainsAnyKeyword { keywords: Vec<String>, case_insensitive: bool },
    /// The text contains the first string and does not contain the second.
    ContainsButNot(String, String),
}

impl Matcher {
    /// What the matcher means: the predicate it decides on a source text.
    pub open spec fn spec_matches(&self, s: Seq<char>) -> bool {
        match self {
            Matcher::Contains(needle) => contains_seq(s, needle@),
            Matcher::ContainsAnyKeyword { keywords, case_insensitive } => exists|i: int|
                0 <= i < keywords@.len() && #[trigger] keyword_hit(
                    s,
                    keywords@[i]@,
                    *case_insensitive,
                ),
            Matcher::ContainsButNot(required, excluded) => contains_seq(s, required@)
                && !contains_seq(s, excluded@),
        }
    }

    /// A keyword-set matcher carries at least one keyword.
    pub open spec fn wf(&self) -> bool {
        match self {
            Matcher::ContainsAnyKeyword { keywords, .. } => keywords@.len() > 0,
            _ => true,
        }
    }

    /// Builds a keyword-set matcher, rejecting an empty keyword set.
    pub fn keyword_set(keywords: Vec<String>, case_insensitive: bool) -> (r: Result<
        Matcher,
        ConfigError,
    >)
        ensures
            keywords@.len() == 0 ==> r == Err::<Matcher, ConfigError>(
                ConfigError::EmptyKeywordSet,
            ),
            keywords@.len() > 0 ==> r == Ok::<Matcher, ConfigError>(
                (Matcher::ContainsAnyKeyword { keywords, case_insensitive }),
            ),
            r matches Ok(m) ==> m.wf(),
    {
        if keywords.len() == 0 {
            Err(ConfigError::EmptyKeywordSet)
        } else {
            Ok(Matcher::ContainsAnyKeyword { keywords, case_insensitive })
        }
    }

    /// Decides the matcher against one source text.
    #[verifier::loop_isolation(false)]
    pub fn evaluate(&self, source: &str) -> (b: bool)
        ensures
            b == self.spec_matches(source@),
    {
        match self {
            Matcher::Contains(needle) => {
                let sv = chars_of(source);
                let nv = chars_of(needle.as_str());
                contains_chars(&sv, &nv)
            },
            Matcher::ContainsAnyKeyword { keywords, case_insensitive } => {
                let ci = *case_insensitive;
                let sv = if ci {
                    let folded = to_upper_string(source);
                    chars_of(folded.as_str())
                } else {
                    chars_of(source)
                };
                let n = keywords.len();
                let mut i: usize = 0;
                while i < n
                    invariant
                        n == keywords@.len(),
                        i <= n,
                        ci == *case_insensitive,
                        sv@ == (if ci {
                            upper_of(source@)
                        } else {
                            source@
                        }),
                        forall|k: int|
                            0 <= k < i ==> !(#[trigger] keyword_hit(
                                source@,
                                keywords@[k]@,
                                *case_insensitive,
                            )),
                    decreases n - i,
                {
                    let kv = chars_of(keywords[i].as_str());
                    if contains_chars(&sv, &kv) {
                        proof {
                            assert(keyword_hit(
                                source@,
                                self->keywords@[i as int]@,
                                self->case_insensitive,
                            ));
                        }
                        return true;
                    }
                    i += 1;
                }
                false
            },
            Matcher::ContainsButNot(required, excluded) => {
                let sv = chars_of(source);
                let rv = chars_of(required.as_str());
                let ev = chars_of(excluded.as_str());
                contains_chars(&sv, &rv) && !contains_chars(&sv, &ev)
            },
        }
    }
}

} // verus!
