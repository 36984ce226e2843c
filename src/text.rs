//! Character-level helpers on `&str`: whitespace, trimming and searching.
use vstd::prelude::*;
use vstd::string::StrSliceExecFns;

verus! {

/// The characters with Unicode's `White_Space` property, which is what
/// `char::is_whitespace` tests.
pub open spec fn is_space(c: char) -> bool {
    ('\u{9}' <= c && c <= '\u{d}') || c == ' ' || c == '\u{85}' || c == '\u{a0}'
        || c == '\u{1680}' || ('\u{2000}' <= c && c <= '\u{200a}') || c == '\u{2028}'
        || c == '\u{2029}' || c == '\u{202f}' || c == '\u{205f}' || c == '\u{3000}'
}

/// Index of the first character at or after `i` that is not whitespace.
pub open spec fn skip_lead(s: Seq<char>, i: nat) -> nat
    decreases s.len() - i,
{
    if i < s.len() && is_space(s[i as int]) {
        skip_lead(s, i + 1)
    } else {
        i
    }
}

/// End of `s[lo..j]` once trailing whitespace is dropped.
pub open spec fn skip_trail(s: Seq<char>, lo: nat, j: nat) -> nat
    decreases j,
{
    if lo < j && j <= s.len() && is_space(s[j - 1]) {
        skip_trail(s, lo, (j - 1) as nat)
    } else {
        j
    }
}

/// `s` without leading and trailing whitespace.
pub open spec fn trimmed(s: Seq<char>) -> Seq<char> {
    let lo = skip_lead(s, 0);
    s.subrange(lo as int, skip_trail(s, lo, s.len()) as int)
}

/// Index of the first `c` in `s` at or after `i`; `s.len()` when there is none.
pub open spec fn position(s: Seq<char>, c: char, i: nat) -> nat
    decreases s.len() - i,
{
    if i >= s.len() {
        s.len()
    } else if s[i as int] == c {
        i
    } else {
        position(s, c, i + 1)
    }
}

pub proof fn lemma_skip_lead_bounds(s: Seq<char>, i: nat)
    requires
        i <= s.len(),
    ensures
        i <= skip_lead(s, i) <= s.len(),
    decreases s.len() - i,
{
    if i < s.len() && is_space(s[i as int]) {
        lemma_skip_lead_bounds(s, i + 1);
    }
}

pub proof fn lemma_skip_trail_bounds(s: Seq<char>, lo: nat, j: nat)
    requires
        lo <= j <= s.len(),
    ensures
        lo <= skip_trail(s, lo, j) <= j,
    decreases j,
{
    if lo < j && is_space(s[j - 1]) {
        lemma_skip_trail_bounds(s, lo, (j - 1) as nat);
    }
}

pub proof fn lemma_position_bounds(s: Seq<char>, c: char, i: nat)
    requires
        i <= s.len(),
    ensures
        i <= position(s, c, i) <= s.len(),
        position(s, c, i) < s.len() ==> s[position(s, c, i) as int] == c,
        forall|k: int| i <= k < position(s, c, i) ==> s[k] != c,
    decreases s.len() - i,
{
    if i < s.len() && s[i as int] != c {
        lemma_position_bounds(s, c, i + 1);
    }
}

/// Trimming brings in no character that `s` lacks.
pub proof fn lemma_trimmed_lacks(s: Seq<char>, c: char)
    requires
        forall|k: int| 0 <= k < s.len() ==> s[k] != c,
    ensures
        forall|k: int| 0 <= k < trimmed(s).len() ==> trimmed(s)[k] != c,
{
    lemma_skip_lead_bounds(s, 0);
    lemma_skip_trail_bounds(s, skip_lead(s, 0), s.len());
}

/// Whether `c` is whitespace.
pub fn is_space_char(c: char) -> (r: bool)
    ensures
        r == is_space(c),
{
    ('\u{9}' <= c && c <= '\u{d}') || c == ' ' || c == '\u{85}' || c == '\u{a0}'
        || c == '\u{1680}' || ('\u{2000}' <= c && c <= '\u{200a}') || c == '\u{2028}'
        || c == '\u{2029}' || c == '\u{202f}' || c == '\u{205f}' || c == '\u{3000}'
}

/// `s` with leading and trailing whitespace removed.
pub fn trim(s: &str) -> (r: &str)
    ensures
        r@ == trimmed(s@),
{
    let n = s.unicode_len();
    let mut lo: usize = 0;
    while lo < n && is_space_char(s.get_char(lo))
        invariant
            n == s@.len(),
            lo <= n,
            skip_lead(s@, lo as nat) == skip_lead(s@, 0),
        decreases n - lo,
    {
        lo = lo + 1;
    }
    let mut hi: usize = n;
    while hi > lo && is_space_char(s.get_char(hi - 1))
        invariant
            n == s@.len(),
            lo <= hi <= n,
            lo == skip_lead(s@, 0),
            skip_trail(s@, lo as nat, hi as nat) == skip_trail(s@, lo as nat, n as nat),
        decreases hi,
    {
        hi = hi - 1;
    }
    s.substring_char(lo, hi)
}

/// Index of the first `c` in `s`, or the length of `s` when it holds none.
pub fn find_char(s: &str, c: char) -> (r: usize)
    ensures
        r == position(s@, c, 0),
{
    let n = s.unicode_len();
    let mut i: usize = 0;
    while i < n && s.get_char(i) != c
        invariant
            n == s@.len(),
            i <= n,
            position(s@, c, i as nat) == position(s@, c, 0),
        decreases n - i,
    {
        i = i + 1;
    }
    i
}

} // verus!
