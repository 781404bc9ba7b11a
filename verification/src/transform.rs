//! Message-text preparation for speech synthesis: user mentions are replaced
//! by display names and URLs are collapsed to a short placeholder, so the
//! synthesized utterance stays short and never reads a raw link.
//!
//! Mentions look like `<@123>` or `<@!123>`. A mention whose number names a
//! known member is replaced by that member's display name; any other mention
//! is kept as written. A URL is `http://` or `https://` followed by at least
//! one non-whitespace character, and extends to the next whitespace.
//! Mentions are replaced first, URLs collapsed second, over the whole result.

use vstd::prelude::*;
use crate::strutil::{append_range, append_str_chars, chars_to_string, str_to_chars};

verus! {

/// Whitespace, as it delimits URLs.
pub open spec fn is_space(c: char) -> bool {
    let u = c as u32;
    ||| u == 0x20
    ||| (0x9 <= u && u <= 0xD)
    ||| u == 0x85
    ||| u == 0xA0
    ||| u == 0x1680
    ||| (0x2000 <= u && u <= 0x200A)
    ||| u == 0x2028
    ||| u == 0x2029
    ||| u == 0x202F
    ||| u == 0x205F
    ||| u == 0x3000
}

/// A decimal digit.
pub open spec fn is_digit(c: char) -> bool {
    0x30 <= c as u32 && c as u32 <= 0x39
}

/// The numeric value of one digit character.
pub open spec fn digit_val(c: char) -> int {
    c as u32 - 0x30
}

/// The first index at or after `i` holding a non-digit (or the end).
pub open spec fn digit_run_end(s: Seq<char>, i: int) -> int
    decreases s.len() - i,
    when 0 <= i <= s.len()
{
    if i == s.len() || !is_digit(s[i]) {
        i
    } else {
        digit_run_end(s, i + 1)
    }
}

/// The first index at or after `i` holding whitespace (or the end).
pub open spec fn nonspace_end(s: Seq<char>, i: int) -> int
    decreases s.len() - i,
    when 0 <= i <= s.len()
{
    if i == s.len() || is_space(s[i]) {
        i
    } else {
        nonspace_end(s, i + 1)
    }
}

/// The value of a run of digit characters, most significant first.
pub open spec fn digits_value(ds: Seq<char>) -> nat
    decreases ds.len(),
{
    if ds.len() == 0 {
        0
    } else {
        (digits_value(ds.drop_last()) * 10 + digit_val(ds.last())) as nat
    }
}

/// Index of the first digit of a mention starting at `i`: after `<@` or
/// `<@!`.
pub open spec fn mention_digit_start(s: Seq<char>, i: int) -> int {
    if i + 2 < s.len() && s[i + 2] == '!' {
        i + 3
    } else {
        i + 2
    }
}

/// A mention `<@123>` or `<@!123>` (at least one digit) starts at `i`.
pub open spec fn mention_at(s: Seq<char>, i: int) -> bool {
    &&& 0 <= i
    &&& i + 1 < s.len()
    &&& s[i] == '<'
    &&& s[i + 1] == '@'
    &&& {
        let d0 = mention_digit_start(s, i);
        let de = digit_run_end(s, d0);
        &&& de > d0
        &&& de < s.len()
        &&& s[de] == '>'
    }
}

/// One past the closing `>` of the mention starting at `i`.
pub open spec fn mention_end(s: Seq<char>, i: int) -> int {
    digit_run_end(s, mention_digit_start(s, i)) + 1
}

/// Display names by member identifier; the first entry for an identifier
/// wins.
pub open spec fn name_lookup(names: Seq<(u64, Seq<char>)>, id: u64, i: int) -> Option<Seq<char>>
    decreases names.len() - i,
    when 0 <= i <= names.len()
{
    if i >= names.len() {
        None
    } else if names[i].0 == id {
        Some(names[i].1)
    } else {
        name_lookup(names, id, i + 1)
    }
}

/// What the mention starting at `i` becomes: the display name when the
/// number fits a 64-bit identifier of a known member, else the mention text
/// as written.
pub open spec fn mention_sub(s: Seq<char>, i: int, names: Seq<(u64, Seq<char>)>) -> Seq<char> {
    let d0 = mention_digit_start(s, i);
    let de = digit_run_end(s, d0);
    let v = digits_value(s.subrange(d0, de));
    if v <= u64::MAX {
        match name_lookup(names, v as u64, 0) {
            Some(name) => name,
            None => s.subrange(i, de + 1),
        }
    } else {
        s.subrange(i, de + 1)
    }
}

/// `s` with every mention at or after `i` substituted.
pub open spec fn replace_mentions_from(
    s: Seq<char>,
    names: Seq<(u64, Seq<char>)>,
    i: int,
) -> Seq<char>
    decreases s.len() - i,
    when 0 <= i <= s.len()
    via replace_mentions_from_dec
{
    if i >= s.len() {
        Seq::empty()
    } else if mention_at(s, i) {
        mention_sub(s, i, names) + replace_mentions_from(s, names, mention_end(s, i))
    } else {
        seq![s[i]] + replace_mentions_from(s, names, i + 1)
    }
}

/// `s` with every mention substituted.
pub open spec fn spec_replace_mentions(s: Seq<char>, names: Seq<(u64, Seq<char>)>) -> Seq<char> {
    replace_mentions_from(s, names, 0)
}

/// A URL starts at `i`: `http://` or `https://` followed by at least one
/// non-whitespace character.
pub open spec fn url_at(s: Seq<char>, i: int) -> bool {
    &&& 0 <= i
    &&& i + 4 < s.len()
    &&& s[i] == 'h'
    &&& s[i + 1] == 't'
    &&& s[i + 2] == 't'
    &&& s[i + 3] == 'p'
    &&& {
        let j = if s[i + 4] == 's' {
            i + 5
        } else {
            i + 4
        };
        &&& j + 3 < s.len()
        &&& s[j] == ':'
        &&& s[j + 1] == '/'
        &&& s[j + 2] == '/'
        &&& !is_space(s[j + 3])
    }
}

/// The placeholder a URL collapses to.
pub open spec fn link_placeholder() -> Seq<char> {
    seq!['リ', 'ン', 'ク', '省', '略']
}

/// `s` with every URL at or after `i` collapsed. A URL extends to the next
/// whitespace.
pub open spec fn collapse_urls_from(s: Seq<char>, i: int) -> Seq<char>
    decreases s.len() - i,
    when 0 <= i <= s.len()
    via collapse_urls_from_dec
{
    if i >= s.len() {
        Seq::empty()
    } else if url_at(s, i) {
        link_placeholder() + collapse_urls_from(s, nonspace_end(s, i))
    } else {
        seq![s[i]] + collapse_urls_from(s, i + 1)
    }
}

/// `s` with every URL collapsed.
pub open spec fn spec_collapse_urls(s: Seq<char>) -> Seq<char> {
    collapse_urls_from(s, 0)
}

/// The whole transformation: mentions first, then URLs over the result.
pub open spec fn spec_transform(s: Seq<char>, names: Seq<(u64, Seq<char>)>) -> Seq<char> {
    spec_collapse_urls(spec_replace_mentions(s, names))
}

/// Bounds of a digit run: it stays inside `s` and holds only digits.
proof fn lemma_digit_run_end(s: Seq<char>, i: int)
    requires
        0 <= i <= s.len(),
    ensures
        i <= digit_run_end(s, i) <= s.len(),
        forall|k: int| i <= k < digit_run_end(s, i) ==> is_digit(s[k]),
        digit_run_end(s, i) < s.len() ==> !is_digit(s[digit_run_end(s, i)]),
    decreases s.len() - i,
{
    if i == s.len() || !is_digit(s[i]) {
    } else {
        lemma_digit_run_end(s, i + 1);
    }
}

/// Bounds of a non-whitespace run.
proof fn lemma_nonspace_end(s: Seq<char>, i: int)
    requires
        0 <= i <= s.len(),
    ensures
        i <= nonspace_end(s, i) <= s.len(),
        forall|k: int| i <= k < nonspace_end(s, i) ==> !is_space(s[k]),
        nonspace_end(s, i) < s.len() ==> is_space(s[nonspace_end(s, i)]),
    decreases s.len() - i,
{
    if i == s.len() || is_space(s[i]) {
    } else {
        lemma_nonspace_end(s, i + 1);
    }
}

/// A mention span lies inside `s` and is at least four characters long.
proof fn lemma_mention_end(s: Seq<char>, i: int)
    requires
        mention_at(s, i),
    ensures
        i + 4 <= mention_end(s, i) <= s.len(),
{
    lemma_digit_run_end(s, mention_digit_start(s, i));
}

#[via_fn]
proof fn replace_mentions_from_dec(s: Seq<char>, names: Seq<(u64, Seq<char>)>, i: int) {
    if 0 <= i < s.len() && mention_at(s, i) {
        lemma_mention_end(s, i);
    }
}

/// A URL span lies inside `s` and is at least eight characters long.
proof fn lemma_url_end(s: Seq<char>, i: int)
    requires
        url_at(s, i),
    ensures
        i + 8 <= nonspace_end(s, i) <= s.len(),
{
    lemma_nonspace_end(s, i);
    let j = if s[i + 4] == 's' {
        i + 5
    } else {
        i + 4
    };
    if nonspace_end(s, i) < j + 4 {
        assert(!is_space(s[j + 3]));
        assert(is_space(s[nonspace_end(s, i)]));
        assert(nonspace_end(s, i) != j + 3);
        assert(false);
    }
}

#[via_fn]
proof fn collapse_urls_from_dec(s: Seq<char>, i: int) {
    if 0 <= i < s.len() && url_at(s, i) {
        lemma_url_end(s, i);
    }
}

/// Display names of the guild's members, handed in by the caller; the first
/// entry for an identifier wins.
pub struct MemberNames {
    entries: Vec<(u64, String)>,
}

impl View for MemberNames {
    type V = Seq<(u64, Seq<char>)>;

    closed spec fn view(&self) -> Seq<(u64, Seq<char>)> {
        Seq::new(self.entries@.len(), |i: int| (self.entries@[i].0, self.entries@[i].1@))
    }
}

impl MemberNames {
    /// An empty name table.
    pub fn new() -> (r: MemberNames)
        ensures
            r@ == Seq::<(u64, Seq<char>)>::empty(),
    {
        let r = MemberNames { entries: Vec::new() };
        proof {
            assert(r@ =~= Seq::<(u64, Seq<char>)>::empty());
        }
        r
    }

    /// Appends the display name of one member.
    pub fn add(&mut self, id: u64, name: String)
        ensures
            final(self)@ == old(self)@.push((id, name@)),
    {
        self.entries.push((id, name));
        proof {
            assert(final(self)@ =~= old(self)@.push((id, name@)));
        }
    }
}

fn char_is_space(c: char) -> (b: bool)
    ensures
        b == is_space(c),
{
    let u = c as u32;
    u == 0x20 || (0x9 <= u && u <= 0xD) || u == 0x85 || u == 0xA0 || u == 0x1680 || (0x2000 <= u
        && u <= 0x200A) || u == 0x2028 || u == 0x2029 || u == 0x202F || u == 0x205F || u == 0x3000
}

fn char_is_digit(c: char) -> (b: bool)
    ensures
        b == is_digit(c),
{
    let u = c as u32;
    0x30 <= u && u <= 0x39
}

/// Scans to the end of the digit run starting at `j`.
fn digit_scan(s: &Vec<char>, j: usize) -> (e: usize)
    requires
        j <= s@.len(),
    ensures
        e == digit_run_end(s@, j as int),
    decreases s@.len() - j,
{
    if j < s.len() {
        if char_is_digit(s[j]) {
            return digit_scan(s, j + 1);
        }
    }
    j
}

/// Scans to the end of the non-whitespace run starting at `j`.
fn nonspace_scan(s: &Vec<char>, j: usize) -> (e: usize)
    requires
        j <= s@.len(),
    ensures
        e == nonspace_end(s@, j as int),
    decreases s@.len() - j,
{
    if j < s.len() {
        if !char_is_space(s[j]) {
            return nonspace_scan(s, j + 1);
        }
    }
    j
}

struct MentionParts {
    digit_start: usize,
    digit_end: usize,
    end: usize,
}

/// Recognizes a mention starting at `i` and locates its digits and end.
fn try_mention(s: &Vec<char>, i: usize) -> (r: Option<MentionParts>)
    requires
        i < s@.len(),
    ensures
        match r {
            Some(p) => {
                &&& mention_at(s@, i as int)
                &&& p.digit_start == mention_digit_start(s@, i as int)
                &&& p.digit_end == digit_run_end(s@, p.digit_start as int)
                &&& p.end == mention_end(s@, i as int)
                &&& i < p.digit_start <= p.digit_end < p.end <= s@.len()
            },
            None => !mention_at(s@, i as int),
        },
{
    let n = s.len();
    if !(i + 1 < n && s[i] == '<' && s[i + 1] == '@') {
        return None;
    }
    let digit_start: usize = if i + 2 < n && s[i + 2] == '!' {
        i + 3
    } else {
        i + 2
    };
    let digit_end = digit_scan(s, digit_start);
    proof {
        lemma_digit_run_end(s@, digit_start as int);
    }
    if digit_end == digit_start || digit_end == n || s[digit_end] != '>' {
        return None;
    }
    Some(MentionParts { digit_start, digit_end, end: digit_end + 1 })
}

/// Parses the digit run `s[d0..de]` as a 64-bit number; `None` on overflow.
fn parse_digits(s: &Vec<char>, d0: usize, de: usize) -> (r: Option<u64>)
    requires
        d0 <= de <= s@.len(),
        forall|k: int| d0 <= k < de ==> is_digit(s@[k]),
    ensures
        match r {
            Some(v) => v == digits_value(s@.subrange(d0 as int, de as int)),
            None => digits_value(s@.subrange(d0 as int, de as int)) > u64::MAX,
        },
{
    let mut acc: u64 = 0;
    let mut j: usize = d0;
    proof {
        assert(s@.subrange(d0 as int, d0 as int) =~= Seq::<char>::empty());
    }
    while j < de
        invariant
            d0 <= j <= de <= s@.len(),
            forall|k: int| d0 <= k < de ==> is_digit(s@[k]),
            acc == digits_value(s@.subrange(d0 as int, j as int)),
        decreases de - j,
    {
        let d: u32 = (s[j] as u32) - 0x30;
        let dl: u64 = d as u64;
        proof {
            assert(s@.subrange(d0 as int, j + 1).drop_last() =~= s@.subrange(d0 as int, j as int));
            assert(s@.subrange(d0 as int, j + 1).last() == s@[j as int]);
        }
        if acc > 1844674407370955161u64 || (acc == 1844674407370955161u64 && dl > 5) {
            proof {
                assert(digits_value(s@.subrange(d0 as int, j + 1)) > u64::MAX);
                lemma_digits_prefix(s@, d0 as int, j + 1, de as int);
            }
            return None;
        }
        acc = acc * 10 + dl;
        j += 1;
    }
    Some(acc)
}

/// A longer digit run never has a smaller value.
proof fn lemma_digits_prefix(s: Seq<char>, d0: int, a: int, b: int)
    requires
        0 <= d0 <= a <= b <= s.len(),
        forall|k: int| d0 <= k < b ==> is_digit(s[k]),
    ensures
        digits_value(s.subrange(d0, b)) >= digits_value(s.subrange(d0, a)),
    decreases b - a,
{
    if a < b {
        lemma_digits_prefix(s, d0, a, b - 1);
        assert(s.subrange(d0, b).drop_last() =~= s.subrange(d0, b - 1));
        assert(s.subrange(d0, b).last() == s[b - 1]);
    }
}

/// Replaces every mention in `s` by the member's display name, where known.
pub fn replace_mentions(s: &Vec<char>, names: &MemberNames) -> (out: Vec<char>)
    ensures
        out@ == spec_replace_mentions(s@, names@),
{
    let mut out: Vec<char> = Vec::new();
    let mut i: usize = 0;
    proof {
        assert(out@ + replace_mentions_from(s@, names@, 0) =~= replace_mentions_from(
            s@,
            names@,
            0,
        ));
    }
    while i < s.len()
        invariant
            i <= s@.len(),
            out@ + replace_mentions_from(s@, names@, i as int) == spec_replace_mentions(
                s@,
                names@,
            ),
        decreases s@.len() - i,
    {
        let ghost out0 = out@;
        match try_mention(s, i) {
            Some(p) => {
                proof {
                    lemma_digit_run_end(s@, p.digit_start as int);
                }
                let sub_start = i;
                match parse_digits(s, p.digit_start, p.digit_end) {
                    Some(id) => {
                        match find_name(names, id) {
                            Some(name) => {
                                append_str_chars(&mut out, name);
                            },
                            None => {
                                append_range(&mut out, s, sub_start, p.end);
                            },
                        }
                    },
                    None => {
                        append_range(&mut out, s, sub_start, p.end);
                    },
                }
                proof {
                    assert(out@ == out0 + mention_sub(s@, i as int, names@));
                    assert(out0 + (mention_sub(s@, i as int, names@) + replace_mentions_from(
                        s@,
                        names@,
                        p.end as int,
                    )) =~= (out0 + mention_sub(s@, i as int, names@)) + replace_mentions_from(
                        s@,
                        names@,
                        p.end as int,
                    ));
                }
                i = p.end;
            },
            None => {
                out.push(s[i]);
                proof {
                    assert(out0 + (seq![s@[i as int]] + replace_mentions_from(
                        s@,
                        names@,
                        i + 1,
                    )) =~= (out0 + seq![s@[i as int]]) + replace_mentions_from(s@, names@, i + 1));
                    assert(out0 + seq![s@[i as int]] =~= out0.push(s@[i as int]));
                }
                i = i + 1;
            },
        }
    }
    proof {
        assert(out@ + replace_mentions_from(s@, names@, s@.len() as int) =~= out@);
    }
    out
}

/// Finds the display name recorded for `id`, if any.
fn find_name<'a>(names: &'a MemberNames, id: u64) -> (r: Option<&'a String>)
    ensures
        match r {
            Some(name) => name_lookup(names@, id, 0) == Some(name@),
            None => name_lookup(names@, id, 0) is None,
        },
{
    let mut i: usize = 0;
    while i < names.entries.len()
        invariant
            i <= names@.len(),
            name_lookup(names@, id, 0) == name_lookup(names@, id, i as int),
        decreases names@.len() - i,
    {
        if names.entries[i].0 == id {
            return Some(&names.entries[i].1);
        }
        i += 1;
    }
    None
}

/// Recognizes a URL starting at `i` and returns its end (the next
/// whitespace or the end of the text).
fn try_url(s: &Vec<char>, i: usize) -> (r: Option<usize>)
    requires
        i < s@.len(),
    ensures
        match r {
            Some(e) => {
                &&& url_at(s@, i as int)
                &&& e == nonspace_end(s@, i as int)
                &&& i < e <= s@.len()
            },
            None => !url_at(s@, i as int),
        },
{
    let n = s.len();
    if n - i < 8 {
        // A URL needs at least eight characters; too little text is left.
        return None;
    }
    if !(i + 4 < n && s[i] == 'h' && s[i + 1] == 't' && s[i + 2] == 't' && s[i + 3] == 'p') {
        return None;
    }
    let j: usize = if s[i + 4] == 's' {
        i + 5
    } else {
        i + 4
    };
    if !(j + 3 < n && s[j] == ':' && s[j + 1] == '/' && s[j + 2] == '/') {
        return None;
    }
    if char_is_space(s[j + 3]) {
        return None;
    }
    let e = nonspace_scan(s, i);
    proof {
        lemma_url_end(s@, i as int);
    }
    Some(e)
}

/// Collapses every URL in `s` to the placeholder.
pub fn collapse_urls(s: &Vec<char>) -> (out: Vec<char>)
    ensures
        out@ == spec_collapse_urls(s@),
{
    let mut out: Vec<char> = Vec::new();
    let mut i: usize = 0;
    proof {
        assert(out@ + collapse_urls_from(s@, 0) =~= collapse_urls_from(s@, 0));
    }
    while i < s.len()
        invariant
            i <= s@.len(),
            out@ + collapse_urls_from(s@, i as int) == spec_collapse_urls(s@),
        decreases s@.len() - i,
    {
        let ghost out0 = out@;
        match try_url(s, i) {
            Some(e) => {
                out.push('リ');
                out.push('ン');
                out.push('ク');
                out.push('省');
                out.push('略');
                proof {
                    assert(out@ =~= out0 + link_placeholder());
                    assert(out0 + (link_placeholder() + collapse_urls_from(s@, e as int)) =~= (out0
                        + link_placeholder()) + collapse_urls_from(s@, e as int));
                }
                i = e;
            },
            None => {
                out.push(s[i]);
                proof {
                    assert(out0 + (seq![s@[i as int]] + collapse_urls_from(s@, i + 1)) =~= (out0
                        + seq![s@[i as int]]) + collapse_urls_from(s@, i + 1));
                    assert(out0 + seq![s@[i as int]] =~= out0.push(s@[i as int]));
                }
                i = i + 1;
            },
        }
    }
    proof {
        assert(out@ + collapse_urls_from(s@, s@.len() as int) =~= out@);
    }
    out
}

/// Prepares raw message text for synthesis: mentions become display names,
/// then URLs collapse to the placeholder.
pub fn transform_text(text: &str, names: &MemberNames) -> (out: String)
    ensures
        out@ == spec_transform(text@, names@),
{
    let chars = str_to_chars(text);
    let replaced = replace_mentions(&chars, names);
    let collapsed = collapse_urls(&replaced);
    chars_to_string(&collapsed)
}

} // verus!
