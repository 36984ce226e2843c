//! Destination templates: `$NAME` substitution, a leading `~`; file names,
//! and joining path components the way a Unix path buffer does.
use vstd::prelude::*;
use vstd::string::StringExecFns;
use vstd::string::StrSliceExecFns;

verus! {

/// The token that names variable `key` in a template.
pub open spec fn token(key: Seq<char>) -> Seq<char> {
    seq!['$'] + key
}

/// Whether `tok` occurs in `s` at index `p`.
pub open spec fn occurs(s: Seq<char>, p: int, tok: Seq<char>) -> bool {
    0 <= p && p + tok.len() <= s.len() && s.subrange(p, p + tok.len()) == tok
}

/// Name and value of the first variable of `env[i..]` whose token occurs in
/// `s` at `p`.
pub open spec fn first_match(s: Seq<char>, p: int, env: Seq<(String, String)>, i: nat) -> Option<
    (Seq<char>, Seq<char>),
>
    decreases env.len() - i,
{
    if i >= env.len() {
        None
    } else if occurs(s, p, token(env[i as int].0@)) {
        Some((env[i as int].0@, env[i as int].1@))
    } else {
        first_match(s, p, env, i + 1)
    }
}

/// `s[p..]` read once from left to right: where the token of a variable of
/// `env` begins, its value is put in and reading goes on after the token. Text
/// put in is not read again. Where several tokens begin at one place, the
/// variable listed first in `env` wins.
pub open spec fn substituted(s: Seq<char>, env: Seq<(String, String)>, p: nat) -> Seq<char>
    decreases s.len() - p,
    via substituted_decreases
{
    if p >= s.len() {
        Seq::empty()
    } else {
        match first_match(s, p as int, env, 0) {
            Some((key, val)) => val + substituted(s, env, p + 1 + key.len()),
            None => seq![s[p as int]] + substituted(s, env, p + 1),
        }
    }
}

#[via_fn]
proof fn substituted_decreases(s: Seq<char>, env: Seq<(String, String)>, p: nat) {
    lemma_first_match(s, p as int, env, 0);
}

pub proof fn lemma_first_match(s: Seq<char>, p: int, env: Seq<(String, String)>, i: nat)
    ensures
        first_match(s, p, env, i) matches Some((key, _)) ==> occurs(s, p, token(key)),
    decreases env.len() - i,
{
    if i < env.len() && !occurs(s, p, token(env[i as int].0@)) {
        lemma_first_match(s, p, env, i + 1);
    }
}

/// The value of the first variable of `env[i..]` named `key`.
pub open spec fn lookup(env: Seq<(String, String)>, key: Seq<char>, i: nat) -> Option<Seq<char>>
    decreases env.len() - i,
{
    if i >= env.len() {
        None
    } else if env[i as int].0@ == key {
        Some(env[i as int].1@)
    } else {
        lookup(env, key, i + 1)
    }
}

pub open spec fn home_key() -> Seq<char> {
    seq!['H', 'O', 'M', 'E']
}

/// A destination template with the tokens of the variables of `env`
/// substituted in one pass, then a leading `~` replaced by the value of
/// `HOME`, when `HOME` is set.
pub open spec fn expanded(raw: Seq<char>, env: Seq<(String, String)>) -> Seq<char> {
    let s = substituted(raw, env, 0);
    match lookup(env, home_key(), 0) {
        Some(home) => if s.len() > 0 && s[0] == '~' {
            home + s.subrange(1, s.len() as int)
        } else {
            s
        },
        None => s,
    }
}

/// Path `b` appended to path `a`: an absolute `b` replaces `a`, otherwise a
/// separator goes between them unless `a` is empty or already ends in one.
pub open spec fn joined(a: Seq<char>, b: Seq<char>) -> Seq<char> {
    if b.len() > 0 && b[0] == '/' {
        b
    } else if a.len() == 0 || a.last() == '/' {
        a + b
    } else {
        a + seq!['/'] + b
    }
}

/// The last component of `s[..end]`, read leftwards from `j`: `s[j..end]` is
/// the component read so far. Separators are `/`; empty and `.` components
/// are passed over, and a last component `..` has no name.
pub open spec fn name_scan(s: Seq<char>, j: nat, end: nat) -> Option<Seq<char>>
    decreases j,
{
    if j == 0 || (j <= s.len() && s[j - 1] == '/') {
        let part = s.subrange(j as int, end as int);
        if part.len() == 0 || part == seq!['.'] {
            if j == 0 {
                None
            } else {
                name_scan(s, (j - 1) as nat, (j - 1) as nat)
            }
        } else if part == seq!['.', '.'] {
            None
        } else {
            Some(part)
        }
    } else {
        name_scan(s, (j - 1) as nat, end)
    }
}

/// The file name of path `s`: its last component, unless that is `..` or
/// there is none.
pub open spec fn file_name_of(s: Seq<char>) -> Option<Seq<char>> {
    name_scan(s, s.len(), s.len())
}

/// The file name of a path: its last component, after trailing separators
/// and `.` components; none for a path that ends in `..`, for the root and
/// for an empty path.
pub fn file_name(s: &str) -> (r: Option<String>)
    ensures
        match file_name_of(s@) {
            None => r is None,
            Some(name) => r matches Some(x) && x@ == name,
        },
{
    let n = s.unicode_len();
    let mut j: usize = n;
    let mut end: usize = n;
    loop
        invariant
            n == s@.len(),
            j <= end <= n,
            name_scan(s@, j as nat, end as nat) == file_name_of(s@),
        decreases j,
    {
        if j == 0 || s.get_char(j - 1) == '/' {
            let len = end - j;
            let ghost part = s@.subrange(j as int, end as int);
            if len == 0 || (len == 1 && s.get_char(j) == '.') {
                assert(len == 1 ==> (part == seq!['.'] <==> s@[j as int] == '.')) by {
                    if len == 1 && s@[j as int] == '.' {
                        assert(part =~= seq!['.']);
                    }
                };
                if j == 0 {
                    return None;
                }
                j = j - 1;
                end = j;
            } else {
                assert(len == 1 ==> part != seq!['.']) by {
                    if len == 1 {
                        assert(part[0] == s@[j as int]);
                    }
                };
                let dots = len == 2 && s.get_char(j) == '.' && s.get_char(j + 1) == '.';
                assert(dots <==> part == seq!['.', '.']) by {
                    if len == 2 && s@[j as int] == '.' && s@[j + 1] == '.' {
                        assert(part =~= seq!['.', '.']);
                    }
                    if part == seq!['.', '.'] {
                        assert(part[0] == s@[j as int] && part[1] == s@[j + 1]);
                    }
                };
                if dots {
                    return None;
                }
                return Some(String::from_str(s.substring_char(j, end)));
            }
        } else {
            j = j - 1;
        }
    }
}

/// Whether `pat` occurs in `s` at index `i`.
fn occurs_at(s: &str, n: usize, pat: &str, m: usize, i: usize) -> (r: bool)
    requires
        n == s@.len(),
        m == pat@.len(),
        i <= n,
    ensures
        r == (i + m <= n && s@.subrange(i as int, i + m) == pat@),
{
    if m > n - i {
        return false;
    }
    let mut k: usize = 0;
    while k < m
        invariant
            n == s@.len(),
            m == pat@.len(),
            i + m <= n,
            k <= m,
            forall|j: int| 0 <= j < k ==> s@[i + j] == pat@[j],
        decreases m - k,
    {
        if s.get_char(i + k) != pat.get_char(k) {
            assert(s@.subrange(i as int, i + m)[k as int] != pat@[k as int]);
            return false;
        }
        k = k + 1;
    }
    assert(s@.subrange(i as int, i + m) =~= pat@);
    true
}

/// The value of the first variable of `env` named `key`.
pub fn lookup_var<'a>(env: &'a Vec<(String, String)>, key: &String) -> (r: Option<&'a String>)
    ensures
        match lookup(env@, key@, 0) {
            None => r is None,
            Some(v) => r matches Some(x) && x@ == v,
        },
{
    let mut i: usize = 0;
    while i < env.len()
        invariant
            i <= env@.len(),
            lookup(env@, key@, i as nat) == lookup(env@, key@, 0),
        decreases env.len() - i,
    {
        if env[i].0 == *key {
            return Some(&env[i].1);
        }
        i = i + 1;
    }
    None
}

/// Expands a destination template against the variables of `env`: every
/// `$NAME` of a variable becomes its value, without reading the values again,
/// then a leading `~` becomes the value of `HOME` when that is set. Nothing is
/// checked on disk.
pub fn expand(raw: &str, env: &Vec<(String, String)>) -> (r: String)
    ensures
        r@ == expanded(raw@, env@),
{
    let mut tokens: Vec<String> = Vec::new();
    let mut i: usize = 0;
    while i < env.len()
        invariant
            i <= env@.len(),
            tokens@.len() == i,
            forall|j: int| 0 <= j < i ==> #[trigger] tokens@[j]@ == token(env@[j].0@),
        decreases env.len() - i,
    {
        let mut tok = String::from_str("$");
        proof {
            reveal_strlit("$");
        }
        tok.append(env[i].0.as_str());
        assert(tok@ =~= token(env@[i as int].0@));
        tokens.push(tok);
        i = i + 1;
    }
    let n = raw.unicode_len();
    let mut acc = String::new();
    let mut p: usize = 0;
    while p < n
        invariant
            n == raw@.len(),
            p <= n,
            tokens@.len() == env@.len(),
            forall|j: int| 0 <= j < env@.len() ==> #[trigger] tokens@[j]@ == token(env@[j].0@),
            acc@ + substituted(raw@, env@, p as nat) == substituted(raw@, env@, 0),
        decreases n - p,
    {
        let mut k: usize = 0;
        while k < env.len() && !occurs_at(raw, n, tokens[k].as_str(), tokens[k].as_str().unicode_len(), p)
            invariant
                n == raw@.len(),
                p < n,
                k <= env@.len(),
                tokens@.len() == env@.len(),
                forall|j: int| 0 <= j < env@.len() ==> #[trigger] tokens@[j]@ == token(env@[j].0@),
                first_match(raw@, p as int, env@, k as nat) == first_match(raw@, p as int, env@, 0),
            decreases env.len() - k,
        {
            k = k + 1;
        }
        if k < env.len() {
            assert(tokens@[k as int]@ == token(env@[k as int].0@));
            acc.append(env[k].1.as_str());
            p = p + tokens[k].as_str().unicode_len();
        } else {
            let c = raw.substring_char(p, p + 1);
            assert(c@ =~= seq![raw@[p as int]]);
            acc.append(c);
            p = p + 1;
        }
        assert(acc@ + substituted(raw@, env@, p as nat) =~= substituted(raw@, env@, 0));
    }
    assert(acc@ =~= substituted(raw@, env@, 0));
    let home_name = String::from_str("HOME");
    proof {
        reveal_strlit("HOME");
        assert(home_name@ =~= home_key());
    }
    match lookup_var(env, &home_name) {
        Some(home) => {
            let n = acc.as_str().unicode_len();
            if n > 0 && acc.as_str().get_char(0) == '~' {
                let mut out = home.clone();
                out.append(acc.as_str().substring_char(1, n));
                out
            } else {
                acc
            }
        },
        None => acc,
    }
}

/// Path `b` appended to path `a`.
pub fn join(a: &str, b: &str) -> (r: String)
    ensures
        r@ == joined(a@, b@),
{
    let na = a.unicode_len();
    let nb = b.unicode_len();
    if nb > 0 && b.get_char(0) == '/' {
        String::from_str(b)
    } else if na == 0 || a.get_char(na - 1) == '/' {
        let mut out = String::from_str(a);
        out.append(b);
        out
    } else {
        let mut out = String::from_str(a);
        let sep = "/";
        proof {
            reveal_strlit("/");
        }
        out.append(sep);
        out.append(b);
        assert(out@ =~= a@ + seq!['/'] + b@);
        out
    }
}

} // verus!
