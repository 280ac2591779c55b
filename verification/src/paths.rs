//! File names and extensions of `/`-separated paths, in the sense of `std::path::Path`:
//! empty and `.` components are skipped, and a path that ends in `..` has no file name.
use crate::text::{chars_of, push_char, string_of_chars};
use vstd::prelude::*;

verus! {

/// Closing a component: empty and `.` components leave the last one in place.
pub open spec fn close_component(last: Option<Seq<char>>, cur: Seq<char>) -> Option<Seq<char>> {
    if cur.len() == 0 || cur == seq!['.'] {
        last
    } else {
        Some(cur)
    }
}

/// After the first `i` characters of `s`: the last closed component and the one being read.
pub open spec fn component_state(s: Seq<char>, i: int) -> (Option<Seq<char>>, Seq<char>)
    decreases i,
{
    if i <= 0 {
        (None, Seq::empty())
    } else {
        let (last, cur) = component_state(s, i - 1);
        if s[i - 1] == '/' {
            (close_component(last, cur), Seq::empty())
        } else {
            (last, cur.push(s[i - 1]))
        }
    }
}

/// The final component of `s`, unless it is `..` (`Path::file_name`).
pub open spec fn file_name_of(s: Seq<char>) -> Option<Seq<char>> {
    let (last, cur) = component_state(s, s.len() as int);
    match close_component(last, cur) {
        Some(n) => if n == seq!['.', '.'] { None } else { Some(n) },
        None => None,
    }
}

/// The position of the last `c` in `s`, or -1.
pub open spec fn last_index_of(s: Seq<char>, c: char) -> int
    decreases s.len(),
{
    if s.len() == 0 {
        -1
    } else if s.last() == c {
        s.len() - 1
    } else {
        last_index_of(s.drop_last(), c)
    }
}

/// The extension of a file name: what follows its last `.`, unless that dot is its first
/// character or there is none.
pub open spec fn name_extension(n: Seq<char>) -> Option<Seq<char>> {
    let k = last_index_of(n, '.');
    if k <= 0 {
        None
    } else {
        Some(n.subrange(k + 1, n.len() as int))
    }
}

/// The extension of the path `s` (`Path::extension`).
pub open spec fn extension_of(s: Seq<char>) -> Option<Seq<char>> {
    match file_name_of(s) {
        Some(n) => name_extension(n),
        None => None,
    }
}

pub proof fn lemma_last_index_bounds(s: Seq<char>, c: char)
    ensures
        -1 <= last_index_of(s, c) < s.len(),
        last_index_of(s, c) >= 0 ==> s[last_index_of(s, c)] == c,
        forall|j: int| last_index_of(s, c) < j < s.len() ==> s[j] != c,
    decreases s.len(),
{
    if s.len() > 0 && s.last() != c {
        lemma_last_index_bounds(s.drop_last(), c);
        assert forall|j: int| last_index_of(s, c) < j < s.len() implies s[j] != c by {
            if j < s.len() - 1 {
                assert(s[j] == s.drop_last()[j]);
            }
        }
    }
}

pub proof fn lemma_last_index_unique(s: Seq<char>, c: char, k: int)
    requires
        -1 <= k < s.len(),
        k >= 0 ==> s[k] == c,
        forall|j: int| k < j < s.len() ==> s[j] != c,
    ensures
        last_index_of(s, c) == k,
    decreases s.len(),
{
    if s.len() > 0 && k < s.len() - 1 {
        let t = s.drop_last();
        assert forall|j: int| k < j < t.len() implies t[j] != c by {
            assert(t[j] == s[j]);
        }
        lemma_last_index_unique(t, c, k);
    }
}

/// The final component of `path`, unless it is `..`.
pub fn file_name(path: &str) -> (res: Option<String>)
    ensures
        match res {
            Some(n) => file_name_of(path@) == Some(n@),
            None => file_name_of(path@) is None,
        },
{
    let s = chars_of(path);
    let mut last: Option<Vec<char>> = None;
    let mut cur: Vec<char> = Vec::new();
    let mut i: usize = 0;
    while i < s.len()
        invariant
            s@ == path@,
            i <= s.len(),
            component_state(s@, i as int) == (
                match last {
                    Some(v) => Some(v@),
                    None => None::<Seq<char>>,
                },
                cur@,
            ),
        decreases s.len() - i,
    {
        let c = s[i];
        if c == '/' {
            let dot = cur.len() == 1 && cur[0] == '.';
            if cur.len() > 0 && !dot {
                assert(cur@ != seq!['.']);
                last = Some(cur);
            } else {
                assert(cur@.len() == 0 || cur@ =~= seq!['.']);
            }
            cur = Vec::new();
        } else {
            cur.push(c);
        }
        i = i + 1;
    }
    let dot = cur.len() == 1 && cur[0] == '.';
    if cur.len() > 0 && !dot {
        assert(cur@ != seq!['.']);
        last = Some(cur);
    } else {
        assert(cur@.len() == 0 || cur@ =~= seq!['.']);
    }
    match last {
        Some(n) => {
            if n.len() == 2 && n[0] == '.' && n[1] == '.' {
                assert(n@ =~= seq!['.', '.']);
                None
            } else {
                assert(n@ != seq!['.', '.']);
                Some(string_of_chars(n.as_slice()))
            }
        },
        None => None,
    }
}

/// The extension of a file name (what follows its last `.`, when that is not its first
/// character).
pub fn name_ext(n: &str) -> (res: Option<String>)
    ensures
        match res {
            Some(e) => name_extension(n@) == Some(e@),
            None => name_extension(n@) is None,
        },
{
    let s = chars_of(n);
    let mut k: usize = s.len();
    let mut hit = false;
    while k > 0
        invariant_except_break
            !hit,
        invariant
            s@ == n@,
            k <= s.len(),
            forall|j: int| k <= j < s.len() ==> s@[j] != '.',
        ensures
            hit ==> k > 0 && s@[k - 1] == '.' && forall|j: int| k <= j < s.len() ==> s@[j] != '.',
            !hit ==> k == 0,
        decreases k,
    {
        if s[k - 1] == '.' {
            hit = true;
            break;
        }
        k = k - 1;
    }
    proof {
        if hit {
            lemma_last_index_unique(s@, '.', k - 1);
        } else {
            lemma_last_index_unique(s@, '.', -1);
        }
    }
    if !hit || k == 1 {
        return None;
    }
    let mut out = String::new();
    let mut j: usize = k;
    while j < s.len()
        invariant
            k <= j <= s.len(),
            out@ == s@.subrange(k as int, j as int),
        decreases s.len() - j,
    {
        push_char(&mut out, s[j]);
        assert(out@ =~= s@.subrange(k as int, j + 1));
        j = j + 1;
    }
    Some(out)
}

/// The extension of `path` (`Path::extension`).
pub fn extension(path: &str) -> (res: Option<String>)
    ensures
        match res {
            Some(e) => extension_of(path@) == Some(e@),
            None => extension_of(path@) is None,
        },
{
    match file_name(path) {
        Some(n) => name_ext(n.as_str()),
        None => None,
    }
}

} // verus!
