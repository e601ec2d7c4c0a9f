//! Small verified helpers on strings: exact equality and
//! case-insensitive matching against lowercase keywords.

use vstd::prelude::*;
use vstd::string::StrSliceExecFns;

verus! {

/// Whether `sc` equals the keyword character `kc` directly, or is its
/// uppercase basic-latin form (so lowercase keywords match their
/// case-folded spellings).
pub open spec fn char_lower_matches(sc: char, kc: char) -> bool {
    sc == kc || (65 <= sc as u32 <= 90 && sc as u32 + 32 == kc as u32)
}

/// Whether `s` spells the lowercase keyword `k`, ignoring basic-latin
/// case.
pub open spec fn matches_keyword(s: Seq<char>, k: Seq<char>) -> bool {
    s.len() == k.len() && forall|i: int| 0 <= i < s.len() ==> char_lower_matches(s[i], k[i])
}

/// Character-for-character string equality.
pub fn str_eq(a: &str, b: &str) -> (r: bool)
    ensures
        r == (a@ == b@),
{
    let n = a.unicode_len();
    let m = b.unicode_len();
    if n != m {
        return false;
    }
    let mut i: usize = 0;
    while i < n
        invariant
            i <= n,
            n == a@.len(),
            n == b@.len(),
            forall|j: int| 0 <= j < i ==> a@[j] == b@[j],
        decreases n - i,
    {
        if a.get_char(i) != b.get_char(i) {
            return false;
        }
        i = i + 1;
    }
    proof {
        assert(a@ =~= b@);
    }
    true
}

/// Whether `s` spells the lowercase keyword `k`, ignoring basic-latin
/// case. Only the letters A–Z are folded: a character whose lowercase
/// form lies outside that range (such as the Kelvin sign) is compared
/// verbatim and so matches no lowercase keyword.
pub fn eq_ignore_case(s: &str, k: &str) -> (r: bool)
    ensures
        r == matches_keyword(s@, k@),
{
    let n = s.unicode_len();
    let m = k.unicode_len();
    if n != m {
        return false;
    }
    let mut i: usize = 0;
    while i < n
        invariant
            i <= n,
            n == s@.len(),
            n == k@.len(),
            forall|j: int| 0 <= j < i ==> char_lower_matches(s@[j], k@[j]),
        decreases n - i,
    {
        let sc = s.get_char(i) as u32;
        let kc = k.get_char(i) as u32;
        let matches_here = sc == kc || (65 <= sc && sc <= 90 && sc + 32 == kc);
        if !matches_here {
            return false;
        }
        i = i + 1;
    }
    true
}

} // verus!
