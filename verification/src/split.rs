//! Splitting text the way `str::split`, `str::trim`, `str::lines` and `str::split_whitespace`
//! do, stated over the `Seq<char>` view.
use crate::text::{chars_of, is_space, occurs_at, occurs_at_exec, string_of_chars};
use vstd::prelude::*;

verus! {

/// The first position at or after `i` where `p` occurs in `s`, or -1.
pub open spec fn first_index_from(s: Seq<char>, p: Seq<char>, i: int) -> int
    decreases s.len() + 1 - i,
{
    if i < 0 || i + p.len() > s.len() {
        -1
    } else if occurs_at(s, p, i) {
        i
    } else {
        first_index_from(s, p, i + 1)
    }
}

/// The `n`-th piece of `s` split at the non-empty separator `sep` (`str::split(..).nth(n)`).
pub open spec fn split_nth(s: Seq<char>, sep: Seq<char>, n: nat) -> Option<Seq<char>>
    decreases n,
{
    let k = first_index_from(s, sep, 0);
    if n == 0 {
        if k < 0 {
            Some(s)
        } else {
            Some(s.subrange(0, k))
        }
    } else if k < 0 {
        None
    } else {
        split_nth(s.subrange(k + sep.len(), s.len() as int), sep, (n - 1) as nat)
    }
}

pub proof fn lemma_first_index_bounds(s: Seq<char>, p: Seq<char>, i: int)
    requires
        0 <= i,
    ensures
        first_index_from(s, p, i) == -1 || (i <= first_index_from(s, p, i) && first_index_from(s, p, i) + p.len() <= s.len()
            && occurs_at(s, p, first_index_from(s, p, i))),
    decreases s.len() + 1 - i,
{
    if i + p.len() <= s.len() && !occurs_at(s, p, i) {
        lemma_first_index_bounds(s, p, i + 1);
    }
}

/// The first position at or after `start` where `p` occurs in `s`.
pub fn find_from(s: &[char], p: &[char], start: usize) -> (res: Option<usize>)
    ensures
        match res {
            Some(k) => first_index_from(s@, p@, start as int) == k as int,
            None => first_index_from(s@, p@, start as int) == -1,
        },
{
    if p.len() == 0 {
        if start <= s.len() {
            assert(occurs_at(s@, p@, start as int)) by {
                assert(s@.subrange(start as int, start as int) =~= p@);
            }
            return Some(start);
        }
        return None;
    }
    if p.len() > s.len() {
        return None;
    }
    let mut i: usize = start;
    while i <= s.len() - p.len()
        invariant
            start <= i,
            p.len() > 0,
            p.len() <= s.len(),
            first_index_from(s@, p@, start as int) == first_index_from(s@, p@, i as int),
        decreases s.len() + 1 - i,
    {
        if occurs_at_exec(s, p, i) {
            return Some(i);
        }
        i = i + 1;
    }
    None
}

/// The characters of `v` from `a` up to `b`.
pub fn slice_chars(v: &[char], a: usize, b: usize) -> (res: Vec<char>)
    requires
        a <= b <= v.len(),
    ensures
        res@ == v@.subrange(a as int, b as int),
{
    let mut out: Vec<char> = Vec::new();
    let mut i: usize = a;
    while i < b
        invariant
            a <= i <= b <= v.len(),
            out@ == v@.subrange(a as int, i as int),
        decreases b - i,
    {
        out.push(v[i]);
        assert(out@ =~= v@.subrange(a as int, i + 1));
        i = i + 1;
    }
    out
}

/// The `n`-th piece of `s` split at the non-empty separator `sep`.
pub fn nth_piece(s: &str, sep: &str, n: usize) -> (res: Option<String>)
    requires
        sep@.len() > 0,
    ensures
        match res {
            Some(r) => split_nth(s@, sep@, n as nat) == Some(r@),
            None => split_nth(s@, sep@, n as nat) is None,
        },
{
    let p = chars_of(sep);
    let mut cur: Vec<char> = chars_of(s);
    let mut m: usize = n;
    while m > 0
        invariant
            p@ == sep@,
            p@.len() > 0,
            m <= n,
            split_nth(s@, sep@, n as nat) == split_nth(cur@, sep@, m as nat),
        decreases m,
    {
        match find_from(cur.as_slice(), p.as_slice(), 0) {
            Some(k) => {
                proof {
                    lemma_first_index_bounds(cur@, p@, 0);
                }
                let plen = p.len();
                let clen = cur.len();
                assert(k + plen <= clen);
                let start: usize = k + plen;
                let next = slice_chars(cur.as_slice(), start, clen);
                assert(split_nth(cur@, sep@, m as nat) == split_nth(next@, sep@, (m - 1) as nat));
                cur = next;
            },
            None => {
                return None;
            },
        }
        m = m - 1;
    }
    match find_from(cur.as_slice(), p.as_slice(), 0) {
        Some(k) => {
            proof {
                lemma_first_index_bounds(cur@, p@, 0);
            }
            let piece = slice_chars(cur.as_slice(), 0, k);
            Some(string_of_chars(piece.as_slice()))
        },
        None => Some(string_of_chars(cur.as_slice())),
    }
}

/// The number of whitespace characters that `s` begins with.
pub open spec fn leading_spaces(s: Seq<char>) -> nat
    decreases s.len(),
{
    if s.len() > 0 && is_space(s[0]) {
        1 + leading_spaces(s.drop_first())
    } else {
        0
    }
}

/// The number of whitespace characters that `s` ends with.
pub open spec fn trailing_spaces(s: Seq<char>) -> nat
    decreases s.len(),
{
    if s.len() > 0 && is_space(s.last()) {
        1 + trailing_spaces(s.drop_last())
    } else {
        0
    }
}

/// `s` without leading and trailing whitespace (`str::trim`).
pub open spec fn trim_spec(s: Seq<char>) -> Seq<char> {
    let t = s.subrange(leading_spaces(s) as int, s.len() as int);
    t.subrange(0, t.len() - trailing_spaces(t))
}

proof fn lemma_leading(s: Seq<char>, i: int)
    requires
        0 <= i <= s.len(),
        forall|j: int| 0 <= j < i ==> is_space(#[trigger] s[j]),
        i == s.len() || !is_space(s[i]),
    ensures
        leading_spaces(s) == i,
    decreases i,
{
    if i > 0 {
        let t = s.drop_first();
        assert forall|j: int| 0 <= j < i - 1 implies is_space(#[trigger] t[j]) by {
            assert(t[j] == s[j + 1]);
        }
        if i - 1 < t.len() {
            assert(t[i - 1] == s[i]);
        }
        lemma_leading(t, i - 1);
    }
}

proof fn lemma_trailing(s: Seq<char>, e: int)
    requires
        0 <= e <= s.len(),
        forall|j: int| e <= j < s.len() ==> is_space(#[trigger] s[j]),
        e == 0 || !is_space(s[e - 1]),
    ensures
        trailing_spaces(s) == s.len() - e,
    decreases s.len() - e,
{
    if e < s.len() {
        let t = s.drop_last();
        assert forall|j: int| e <= j < t.len() implies is_space(#[trigger] t[j]) by {
            assert(t[j] == s[j]);
        }
        if e > 0 {
            assert(t[e - 1] == s[e - 1]);
        }
        lemma_trailing(t, e);
    }
}

/// `s` without leading and trailing whitespace.
pub fn trim(s: &str) -> (res: String)
    ensures
        res@ == trim_spec(s@),
{
    let v = chars_of(s);
    let mut a: usize = 0;
    while a < v.len() && is_whitespace(v[a])
        invariant
            v@ == s@,
            a <= v.len(),
            forall|j: int| 0 <= j < a ==> is_space(#[trigger] v@[j]),
        decreases v.len() - a,
    {
        a = a + 1;
    }
    proof {
        lemma_leading(s@, a as int);
    }
    let t = slice_chars(v.as_slice(), a, v.len());
    let mut e: usize = t.len();
    while e > 0 && is_whitespace(t[e - 1])
        invariant
            e <= t.len(),
            forall|j: int| e <= j < t.len() ==> is_space(#[trigger] t@[j]),
        decreases e,
    {
        e = e - 1;
    }
    proof {
        lemma_trailing(t@, e as int);
    }
    let r = slice_chars(t.as_slice(), 0, e);
    string_of_chars(r.as_slice())
}

/// Whether `c` is whitespace (`char::is_whitespace`).
pub fn is_whitespace(c: char) -> (res: bool)
    ensures
        res == is_space(c),
{
    c == ' ' || c == '\t' || c == '\n' || c == '\r' || c == '\x0B' || c == '\x0C' || c == '\u{85}'
        || c == '\u{A0}' || c == '\u{1680}' || ('\u{2000}' <= c && c <= '\u{200A}') || c == '\u{2028}'
        || c == '\u{2029}' || c == '\u{202F}' || c == '\u{205F}' || c == '\u{3000}'
}

/// The first word of `s`: after leading whitespace, the characters up to the next whitespace
/// (`str::split_whitespace().next()`); none when `s` is all whitespace.
pub open spec fn first_word(s: Seq<char>) -> Option<Seq<char>> {
    let t = s.subrange(leading_spaces(s) as int, s.len() as int);
    if t.len() == 0 {
        None
    } else {
        Some(t.subrange(0, t.len() - (t.len() - word_len(t))))
    }
}

/// The number of non-whitespace characters that `s` begins with.
pub open spec fn word_len(s: Seq<char>) -> nat
    decreases s.len(),
{
    if s.len() > 0 && !is_space(s[0]) {
        1 + word_len(s.drop_first())
    } else {
        0
    }
}

proof fn lemma_word_len(s: Seq<char>, i: int)
    requires
        0 <= i <= s.len(),
        forall|j: int| 0 <= j < i ==> !is_space(#[trigger] s[j]),
        i == s.len() || is_space(s[i]),
    ensures
        word_len(s) == i,
    decreases i,
{
    if i > 0 {
        let t = s.drop_first();
        assert forall|j: int| 0 <= j < i - 1 implies !is_space(#[trigger] t[j]) by {
            assert(t[j] == s[j + 1]);
        }
        if i - 1 < t.len() {
            assert(t[i - 1] == s[i]);
        }
        lemma_word_len(t, i - 1);
    }
}

/// The first word of `s`.
pub fn first_word_of(s: &str) -> (res: Option<String>)
    ensures
        match res {
            Some(w) => first_word(s@) == Some(w@),
            None => first_word(s@) is None,
        },
{
    let v = chars_of(s);
    let mut a: usize = 0;
    while a < v.len() && is_whitespace(v[a])
        invariant
            v@ == s@,
            a <= v.len(),
            forall|j: int| 0 <= j < a ==> is_space(#[trigger] v@[j]),
        decreases v.len() - a,
    {
        a = a + 1;
    }
    proof {
        lemma_leading(s@, a as int);
    }
    if a == v.len() {
        return None;
    }
    let t = slice_chars(v.as_slice(), a, v.len());
    let mut e: usize = 0;
    while e < t.len() && !is_whitespace(t[e])
        invariant
            e <= t.len(),
            forall|j: int| 0 <= j < e ==> !is_space(#[trigger] t@[j]),
        decreases t.len() - e,
    {
        e = e + 1;
    }
    proof {
        lemma_word_len(t@, e as int);
    }
    let w = slice_chars(t.as_slice(), 0, e);
    Some(string_of_chars(w.as_slice()))
}

/// A line without its line ending: a `\r` that ends it goes with the `\n` that follows.
pub open spec fn strip_cr(l: Seq<char>) -> Seq<char> {
    if l.len() > 0 && l.last() == '\r' {
        l.drop_last()
    } else {
        l
    }
}

/// The first non-empty line of `s` (`str::lines().find(|l| !l.is_empty())`).
pub open spec fn first_nonempty_line(s: Seq<char>) -> Option<Seq<char>>
    decreases s.len(),
{
    let k = first_index_from(s, seq!['\n'], 0);
    if k < 0 {
        if s.len() > 0 {
            Some(s)
        } else {
            None
        }
    } else {
        proof {
            lemma_first_index_bounds(s, seq!['\n'], 0);
        }
        let line = strip_cr(s.subrange(0, k));
        if line.len() > 0 {
            Some(line)
        } else {
            first_nonempty_line(s.subrange(k + 1, s.len() as int))
        }
    }
}

/// The first non-empty line of `s`.
pub fn first_line(s: &str) -> (res: Option<String>)
    ensures
        match res {
            Some(l) => first_nonempty_line(s@) == Some(l@),
            None => first_nonempty_line(s@) is None,
        },
{
    let nl: Vec<char> = vec!['\n'];
    let mut cur: Vec<char> = chars_of(s);
    assert(nl@ =~= seq!['\n']);
    loop
        invariant
            nl@ == seq!['\n'],
            first_nonempty_line(s@) == first_nonempty_line(cur@),
        decreases cur.len(),
    {
        match find_from(cur.as_slice(), nl.as_slice(), 0) {
            None => {
                if cur.len() > 0 {
                    return Some(string_of_chars(cur.as_slice()));
                } else {
                    return None;
                }
            },
            Some(k) => {
                proof {
                    lemma_first_index_bounds(cur@, nl@, 0);
                }
                let mut line = slice_chars(cur.as_slice(), 0, k);
                if line.len() > 0 && line[line.len() - 1] == '\r' {
                    line.pop();
                }
                if line.len() > 0 {
                    return Some(string_of_chars(line.as_slice()));
                }
                cur = slice_chars(cur.as_slice(), k + 1, cur.len());
            },
        }
    }
}

} // verus!
