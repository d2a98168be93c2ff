//! Case-insensitive substring matching for the note search filter.
//!
//! Matching works character by character, folding the ASCII letters `A`–`Z`
//! onto their lower-case forms and leaving every other character untouched,
//! so a pattern matches wherever it occurs in the text regardless of ASCII
//! letter case.

use vstd::prelude::*;

verus! {

/// The character's code point, with ASCII upper-case letters folded to
/// lower case.
pub open spec fn lower_code(c: char) -> u32 {
    if 65 <= c as u32 && c as u32 <= 90 {
        (c as u32 + 32) as u32
    } else {
        c as u32
    }
}

/// Whether two characters are equal up to ASCII case.
pub open spec fn chars_ci_eq(a: char, b: char) -> bool {
    lower_code(a) == lower_code(b)
}

/// Whether the pattern occurs in the text at offset `k`, up to ASCII case.
pub open spec fn ci_matches_at(text: Seq<char>, pat: Seq<char>, k: int) -> bool {
    &&& 0 <= k
    &&& k + pat.len() <= text.len()
    &&& forall|j: int| 0 <= j < pat.len() ==> chars_ci_eq(text[k + j], pat[j])
}

/// Whether the pattern occurs anywhere in the text, up to ASCII case.
pub open spec fn spec_contains_ci(text: Seq<char>, pat: Seq<char>) -> bool {
    exists|k: int| ci_matches_at(text, pat, k)
}

/// Compare two characters up to ASCII case.
fn char_ci_eq(a: char, b: char) -> (r: bool)
    ensures
        r == chars_ci_eq(a, b),
{
    let x = a as u32;
    let y = b as u32;
    let xl: u32 = if 65 <= x && x <= 90 {
        x + 32
    } else {
        x
    };
    let yl: u32 = if 65 <= y && y <= 90 {
        y + 32
    } else {
        y
    };
    xl == yl
}

/// Decide whether `pat` occurs in `text`, up to ASCII case.
pub fn str_contains_ci(text: &str, pat: &str) -> (r: bool)
    ensures
        r == spec_contains_ci(text@, pat@),
{
    let n = text.unicode_len();
    let m = pat.unicode_len();
    if m > n {
        proof {
            assert(forall|k: int| !ci_matches_at(text@, pat@, k));
        }
        return false;
    }
    let mut k: usize = 0;
    while k <= n - m
        invariant
            n == text@.len(),
            m == pat@.len(),
            m <= n,
            k <= n - m + 1,
            forall|k2: int| 0 <= k2 < k ==> !ci_matches_at(text@, pat@, k2),
        decreases n + 1 - m - k,
    {
        let mut j: usize = 0;
        let mut ok = true;
        while j < m && ok
            invariant
                n == text@.len(),
                m == pat@.len(),
                m <= n,
                k <= n - m,
                j <= m,
                ok ==> forall|j2: int| 0 <= j2 < j ==> chars_ci_eq(text@[k + j2], pat@[j2]),
                !ok ==> !ci_matches_at(text@, pat@, k as int),
            decreases (if ok {
                1int
            } else {
                0int
            }), m - j,
        {
            if char_ci_eq(text.get_char(k + j), pat.get_char(j)) {
                j = j + 1;
            } else {
                proof {
                    assert(!chars_ci_eq(text@[k + j], pat@[j as int]));
                }
                ok = false;
            }
        }
        if ok {
            proof {
                assert(ci_matches_at(text@, pat@, k as int));
            }
            return true;
        }
        k = k + 1;
    }
    proof {
        assert forall|k2: int| !ci_matches_at(text@, pat@, k2) by {
            if 0 <= k2 && k2 + pat@.len() <= text@.len() {
                assert(k2 < k);
            }
        }
    }
    false
}

} // verus!
