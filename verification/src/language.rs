//! The per-guild language preference.

use vstd::prelude::*;
use crate::strutil::str_to_chars;

verus! {

/// Language a guild prefers for announcements and canned audio.
#[derive(Clone, Copy, Debug, PartialEq, Eq, Structural)]
pub enum Language {
    English,
    Japanese,
}

/// `a` reads as the lowercase letter `b` under ASCII case folding.
pub open spec fn matches_lower(a: char, b: char) -> bool {
    a == b || (0x41 <= a as u32 && a as u32 <= 0x5A && a as u32 + 0x20 == b as u32)
}

/// `s` equals the (lowercase) word `lower` up to ASCII case.
pub open spec fn eq_ignore_ascii_case(s: Seq<char>, lower: Seq<char>) -> bool {
    s.len() == lower.len() && (forall|i: int|
        0 <= i < s.len() ==> matches_lower(s[i], lower[i]))
}

/// Which language a stored or user-supplied code denotes: `japanese`, `ja`
/// and `jp` (ASCII case-insensitive) select Japanese, anything else defaults
/// to English.
pub open spec fn spec_language_of(s: Seq<char>) -> Language {
    if eq_ignore_ascii_case(s, "japanese"@) || eq_ignore_ascii_case(s, "ja"@)
        || eq_ignore_ascii_case(s, "jp"@) {
        Language::Japanese
    } else {
        Language::English
    }
}

/// The code under which a language preference is persisted.
pub open spec fn spec_language_code(l: Language) -> Seq<char> {
    match l {
        Language::English => "english"@,
        Language::Japanese => "japanese"@,
    }
}

fn eq_ignore_case(s: &Vec<char>, lower: &str) -> (b: bool)
    ensures
        b == eq_ignore_ascii_case(s@, lower@),
{
    let n = lower.unicode_len();
    if s.len() != n {
        return false;
    }
    let mut i: usize = 0;
    while i < n
        invariant
            i <= n,
            n == lower@.len(),
            s@.len() == n,
            forall|k: int| 0 <= k < i ==> matches_lower(s@[k], lower@[k]),
        decreases n - i,
    {
        let a = s[i];
        let c = lower.get_char(i);
        let au = a as u32;
        let cu = c as u32;
        if !(a == c || (0x41 <= au && au <= 0x5A && au + 0x20 == cu)) {
            proof {
                assert(!matches_lower(s@[i as int], lower@[i as int]));
            }
            return false;
        }
        i += 1;
    }
    true
}

impl Language {
    /// Parses a language code: `japanese`, `ja` and `jp` (ASCII
    /// case-insensitive) give Japanese; anything else defaults to English.
    pub fn from_code(code: &str) -> (l: Language)
        ensures
            l == spec_language_of(code@),
    {
        let chars = str_to_chars(code);
        if eq_ignore_case(&chars, "japanese") || eq_ignore_case(&chars, "ja") || eq_ignore_case(
            &chars,
            "jp",
        ) {
            Language::Japanese
        } else {
            Language::English
        }
    }

    /// The code under which this preference is persisted.
    pub fn code(&self) -> (c: String)
        ensures
            c@ == spec_language_code(*self),
    {
        match self {
            Language::English => String::from_str("english"),
            Language::Japanese => String::from_str("japanese"),
        }
    }
}

impl Default for Language {
    /// English is the default wherever no preference is stored.
    fn default() -> (l: Language)
        ensures
            l == Language::English,
    {
        Language::English
    }
}

} // verus!
