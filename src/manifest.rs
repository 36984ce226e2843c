//! Manifest lines: comments, blank lines and the `source = destination` split.
use vstd::prelude::*;
use vstd::string::StringExecFns;
use vstd::string::StrSliceExecFns;
use crate::text::{find_char, lemma_trimmed_lacks, lemma_position_bounds, position, trim, trimmed};

verus! {

/// One mapping of a manifest: a source path relative to the manifest's
/// directory, and a destination directory before expansion.
pub struct ManifestEntry {
    pub source_relative: String,
    pub dest_template: String,
}

/// The line with its comment cut off: `None` for a blank or comment line,
/// otherwise the trimmed text before the first `#`.
pub open spec fn content_of(line: Seq<char>) -> Option<Seq<char>> {
    let t = trimmed(line);
    if t.len() == 0 || t[0] == '#' {
        None
    } else {
        let h = position(t, '#', 0);
        if h < t.len() {
            Some(trimmed(t.subrange(0, h as int)))
        } else {
            Some(t)
        }
    }
}

/// What a manifest line yields: the trimmed text on each side of the first `=`
/// of its content, or nothing when it has no content or no `=`.
pub open spec fn parsed(line: Seq<char>) -> Option<(Seq<char>, Seq<char>)> {
    match content_of(line) {
        None => None,
        Some(u) => {
            let e = position(u, '=', 0);
            if e < u.len() {
                Some((trimmed(u.subrange(0, e as int)), trimmed(u.subrange(e + 1 as int, u.len() as int))))
            } else {
                None
            }
        },
    }
}

/// Parses one manifest line into an entry, or nothing for a blank, comment or
/// malformed line.
pub fn parse_line(line: &str) -> (r: Option<ManifestEntry>)
    ensures
        match parsed(line@) {
            None => r is None,
            Some((s, d)) => r matches Some(e) && e.source_relative@ == s && e.dest_template@ == d,
        },
{
    let t = trim(line);
    let n = t.unicode_len();
    if n == 0 || t.get_char(0) == '#' {
        return None;
    }
    let h = find_char(t, '#');
    proof {
        lemma_position_bounds(t@, '#', 0);
    }
    let u = if h < n {
        trim(t.substring_char(0, h))
    } else {
        t
    };
    let m = u.unicode_len();
    let e = find_char(u, '=');
    proof {
        lemma_position_bounds(u@, '=', 0);
    }
    if e < m {
        let s = trim(u.substring_char(0, e));
        let d = trim(u.substring_char(e + 1, m));
        Some(ManifestEntry { source_relative: String::from_str(s), dest_template: String::from_str(d) })
    } else {
        None
    }
}

/// A line whose content holds no `=` yields no entry.
pub proof fn lemma_no_equals_no_entry(line: Seq<char>)
    requires
        forall|k: int| 0 <= k < line.len() ==> line[k] != '=',
    ensures
        parsed(line) is None,
{
    lemma_trimmed_lacks(line, '=');
    let t = trimmed(line);
    if t.len() != 0 && t[0] != '#' {
        lemma_position_bounds(t, '#', 0);
        let h = position(t, '#', 0);
        if h < t.len() {
            lemma_trimmed_lacks(t.subrange(0, h as int), '=');
        }
        let u = content_of(line)->0;
        lemma_position_bounds(u, '=', 0);
    }
}

} // verus!
