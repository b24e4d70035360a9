//! Substring containment and case folding over character sequences: the
//! primitives every matcher is built from. Case-insensitive matching folds
//! with the Unicode uppercase fold of `str::to_uppercase`, named `upper_of`
//! here; `upper_seq` is its ASCII fragment, stated directly.

use vstd::prelude::*;

verus! {

/// `text` contains `pat` as a contiguous substring. The empty pattern is
/// contained in every text.
pub open spec fn contains_seq(text: Seq<char>, pat: Seq<char>) -> bool {
    exists|i: int|
        0 <= i && i + pat.len() <= text.len() && #[trigger] text.subrange(i, i + pat.len() as int)
            == pat
}

/// Every character of `s` is ASCII.
pub open spec fn seq_is_ascii(s: Seq<char>) -> bool {
    forall|i: int| 0 <= i < s.len() ==> ((#[trigger] s[i]) as u32) < 128
}

/// The Unicode uppercase fold of a character sequence, as
/// `str::to_uppercase` computes it: a function of the characters alone.
pub uninterp spec fn upper_of(s: Seq<char>) -> Seq<char>;

/// The ASCII fragment of the uppercase fold: lowercase letters `a`-`z` map
/// to their uppercase form, every other character is left alone.
pub open spec fn upper_char(c: char) -> char {
    if c == 'a' {
        'A'
    } else if c == 'b' {
        'B'
    } else if c == 'c' {
        'C'
    } else if c == 'd' {
        'D'
    } else if c == 'e' {
        'E'
    } else if c == 'f' {
        'F'
    } else if c == 'g' {
        'G'
    } else if c == 'h' {
        'H'
    } else if c == 'i' {
        'I'
    } else if c == 'j' {
        'J'
    } else if c == 'k' {
        'K'
    } else if c == 'l' {
        'L'
    } else if c == 'm' {
        'M'
    } else if c == 'n' {
        'N'
    } else if c == 'o' {
        'O'
    } else if c == 'p' {
        'P'
    } else if c == 'q' {
        'Q'
    } else if c == 'r' {
        'R'
    } else if c == 's' {
        'S'
    } else if c == 't' {
        'T'
    } else if c == 'u' {
        'U'
    } else if c == 'v' {
        'V'
    } else if c == 'w' {
        'W'
    } else if c == 'x' {
        'X'
    } else if c == 'y' {
        'Y'
    } else if c == 'z' {
        'Z'
    } else {
        c
    }
}

/// The ASCII case fold of a whole sequence, character by character.
pub open spec fn upper_seq(s: Seq<char>) -> Seq<char> {
    s.map_values(|c: char| upper_char(c))
}

/// Relies on str::to_uppercase: the Unicode uppercase of a string, a
/// function of its characters alone (no locale). On ASCII input it agrees
/// with the ASCII fold `upper_seq`.
#[verifier::external_body]
pub(crate) fn to_upper_string(s: &str) -> (r: String)
    ensures
        r@ == upper_of(s@),
        seq_is_ascii(s@) ==> r@ == upper_seq(s@),
{
    s.to_uppercase()
}

/// The characters of `s`, in order, as a vector.
pub fn chars_of(s: &str) -> (v: Vec<char>)
    ensures
        v@ == s@,
{
    let n = s.unicode_len();
    let mut v: Vec<char> = Vec::new();
    let mut i: usize = 0;
    while i < n
        invariant
            n == s@.len(),
            i <= n,
            v@.len() == i,
            forall|k: int| 0 <= k < i ==> v@[k] == s@[k],
        decreases n - i,
    {
        v.push(s.get_char(i));
        i += 1;
    }
    proof {
        assert(v@ =~= s@);
    }
    v
}

/// `pat` occurs in `text` starting exactly at position `i`.
fn matches_at(text: &Vec<char>, pat: &Vec<char>, i: usize) -> (b: bool)
    requires
        i + pat@.len() <= text@.len(),
    ensures
        b == (text@.subrange(i as int, i + pat@.len() as int) == pat@),
{
    let tlen = text.len();
    let mut j: usize = 0;
    while j < pat.len()
        invariant
            tlen == text@.len(),
            i + pat@.len() <= text@.len(),
            j <= pat@.len(),
            forall|k: int| 0 <= k < j ==> text@[i + k] == pat@[k],
        decreases pat@.len() - j,
    {
        if text[i + j] != pat[j] {
            proof {
                assert(text@.subrange(i as int, i + pat@.len() as int)[j as int] != pat@[j as int]);
            }
            return false;
        }
        j += 1;
    }
    proof {
        assert(text@.subrange(i as int, i + pat@.len() as int) =~= pat@);
    }
    true
}

/// Whether `text` contains `pat` as a contiguous substring.
pub fn contains_chars(text: &Vec<char>, pat: &Vec<char>) -> (b: bool)
    ensures
        b == contains_seq(text@, pat@),
{
    if pat.len() > text.len() {
        return false;
    }
    if pat.len() == 0 {
        proof {
            assert(text@.subrange(0, 0 + pat@.len() as int) =~= pat@);
        }
        return true;
    }
    let tlen = text.len();
    let end = text.len() - pat.len();
    let mut i: usize = 0;
    while i <= end
        invariant
            tlen == text@.len(),
            1 <= pat@.len() <= text@.len(),
            end == text@.len() - pat@.len(),
            i <= end + 1,
            forall|k: int|
                0 <= k < i ==> #[trigger] text@.subrange(k, k + pat@.len() as int) != pat@,
        decreases end + 1 - i,
    {
        if matches_at(text, pat, i) {
            return true;
        }
        i += 1;
    }
    false
}

} // verus!
