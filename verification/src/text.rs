//! Character-level string building blocks shared by the pipelines.
//!
//! Every function here works on the `Seq<char>` view of `str`/`String` and states its result
//! exactly over that view.
use vstd::prelude::*;

verus! {

/// `s` without its first `n` characters (empty when `n` is past the end).
pub open spec fn skip_chars(s: Seq<char>, n: int) -> Seq<char> {
    if n >= s.len() {
        Seq::empty()
    } else {
        s.subrange(n, s.len() as int)
    }
}

/// Whether `p` occurs in `s` starting at position `i`.
pub open spec fn occurs_at(s: Seq<char>, p: Seq<char>, i: int) -> bool {
    0 <= i && i + p.len() <= s.len() && s.subrange(i, i + p.len()) == p
}

/// Whether `s` begins with `p`.
pub open spec fn has_prefix(s: Seq<char>, p: Seq<char>) -> bool {
    occurs_at(s, p, 0)
}

/// Whether `s` ends with `p`.
pub open spec fn has_suffix(s: Seq<char>, p: Seq<char>) -> bool {
    p.len() <= s.len() && s.subrange(s.len() - p.len(), s.len() as int) == p
}

/// Replace every leftmost, non-overlapping occurrence of the non-empty `p` in `s` by `r`,
/// scanning from the left.
pub open spec fn replace_all_spec(s: Seq<char>, p: Seq<char>, r: Seq<char>) -> Seq<char>
    decreases s.len(),
{
    if p.len() == 0 || s.len() < p.len() {
        s
    } else if has_prefix(s, p) {
        r + replace_all_spec(s.subrange(p.len() as int, s.len() as int), p, r)
    } else {
        seq![s[0]] + replace_all_spec(s.subrange(1, s.len() as int), p, r)
    }
}

/// The ASCII digit for `d < 10`.
pub open spec fn digit_char(d: int) -> char {
    if d == 0 { '0' }
    else if d == 1 { '1' }
    else if d == 2 { '2' }
    else if d == 3 { '3' }
    else if d == 4 { '4' }
    else if d == 5 { '5' }
    else if d == 6 { '6' }
    else if d == 7 { '7' }
    else if d == 8 { '8' }
    else { '9' }
}

/// The lower-case hexadecimal digit for `d < 16`.
pub open spec fn hex_char(d: int) -> char {
    if d < 10 { digit_char(d) }
    else if d == 10 { 'a' }
    else if d == 11 { 'b' }
    else if d == 12 { 'c' }
    else if d == 13 { 'd' }
    else if d == 14 { 'e' }
    else { 'f' }
}

/// Decimal notation of `n`, without leading zeros.
pub open spec fn decimal(n: nat) -> Seq<char>
    decreases n,
{
    if n < 10 {
        seq![digit_char(n as int)]
    } else {
        decimal(n / 10).push(digit_char((n % 10) as int))
    }
}

/// Lower-case hexadecimal notation of `n`, without leading zeros.
pub open spec fn lower_hex(n: nat) -> Seq<char>
    decreases n,
{
    if n < 16 {
        seq![hex_char(n as int)]
    } else {
        lower_hex(n / 16).push(hex_char((n % 16) as int))
    }
}

/// Whether `c` is a whitespace character in the sense of `char::is_whitespace`.
pub open spec fn is_space(c: char) -> bool {
    c == ' ' || c == '\t' || c == '\n' || c == '\r' || c == '\x0B' || c == '\x0C'
        || c == '\u{85}' || c == '\u{A0}' || c == '\u{1680}'
        || ('\u{2000}' <= c && c <= '\u{200A}')
        || c == '\u{2028}' || c == '\u{2029}' || c == '\u{202F}' || c == '\u{205F}'
        || c == '\u{3000}'
}

/// Appends one character (`String::push`).
#[verifier::external_body]
pub(crate) fn push_char(s: &mut String, c: char)
    ensures
        final(s)@ == old(s)@.push(c),
{
    s.push(c)
}

/// The characters of `s` in order (`str::chars`, collected).
pub(crate) fn chars_of(s: &str) -> (res: Vec<char>)
    ensures
        res@ == s@,
{
    broadcast use vstd::string::axiom_spec_iter;
    let mut v: Vec<char> = Vec::new();
    for c in it: s.chars()
        invariant
            it.seq() == s@,
            v@ == it.seq().take(it.index() as int),
    {
        v.push(c);
    }
    v
}

/// Copies a `&str` into a fresh `String`.
pub fn to_owned_string(s: &str) -> (res: String)
    ensures
        res@ == s@,
{
    String::from_str(s)
}

/// The characters of `s` from position `start` on.
pub fn substring_from(s: &str, start: usize) -> (res: String)
    requires
        start <= s@.len(),
    ensures
        res@ == s@.subrange(start as int, s@.len() as int),
{
    let v = chars_of(s);
    let mut out = String::new();
    let mut j: usize = start;
    while j < v.len()
        invariant
            v@ == s@,
            start <= j <= v.len(),
            out@ == s@.subrange(start as int, j as int),
        decreases v.len() - j,
    {
        push_char(&mut out, v[j]);
        assert(out@ =~= s@.subrange(start as int, j + 1));
        j = j + 1;
    }
    out
}

/// Builds a `String` from characters.
pub fn string_of_chars(v: &[char]) -> (res: String)
    ensures
        res@ == v@,
{
    let mut out = String::new();
    let mut i: usize = 0;
    while i < v.len()
        invariant
            i <= v.len(),
            out@ == v@.subrange(0, i as int),
        decreases v.len() - i,
    {
        push_char(&mut out, v[i]);
        i = i + 1;
        assert(out@ =~= v@.subrange(0, i as int));
    }
    assert(v@.subrange(0, v.len() as int) =~= v@);
    out
}

/// Concatenation of two strings.
pub fn concat2(a: &str, b: &str) -> (res: String)
    ensures
        res@ == a@ + b@,
{
    let mut s = String::from_str(a);
    s.append(b);
    s
}

/// Whether the two character sequences are equal.
pub fn chars_eq(a: &[char], b: &[char]) -> (res: bool)
    ensures
        res == (a@ == b@),
{
    if a.len() != b.len() {
        return false;
    }
    let mut i: usize = 0;
    while i < a.len()
        invariant
            a.len() == b.len(),
            i <= a.len(),
            a@.subrange(0, i as int) == b@.subrange(0, i as int),
        decreases a.len() - i,
    {
        if a[i] != b[i] {
            assert(a@[i as int] != b@[i as int]);
            return false;
        }
        assert(a@.subrange(0, i + 1) =~= a@.subrange(0, i as int).push(a@[i as int]));
        assert(b@.subrange(0, i + 1) =~= b@.subrange(0, i as int).push(b@[i as int]));
        i = i + 1;
    }
    assert(a@ =~= a@.subrange(0, a.len() as int));
    assert(b@ =~= b@.subrange(0, b.len() as int));
    true
}

/// Whether two strings are equal.
pub fn str_eq(a: &str, b: &str) -> (res: bool)
    ensures
        res == (a@ == b@),
{
    let av = chars_of(a);
    let bv = chars_of(b);
    chars_eq(av.as_slice(), bv.as_slice())
}

/// Whether `p` occurs in `s` at position `i`.
pub fn occurs_at_exec(s: &[char], p: &[char], i: usize) -> (res: bool)
    ensures
        res == occurs_at(s@, p@, i as int),
{
    if i > s.len() || p.len() > s.len() - i {
        return false;
    }
    let mut j: usize = 0;
    while j < p.len()
        invariant
            i + p.len() <= s.len(),
            j <= p.len(),
            s@.subrange(i as int, i + j) == p@.subrange(0, j as int),
        decreases p.len() - j,
    {
        if s[i + j] != p[j] {
            assert(s@.subrange(i as int, i + p.len())[j as int] != p@[j as int]);
            return false;
        }
        assert(s@.subrange(i as int, i + j + 1) =~= s@.subrange(i as int, i + j).push(s@[i + j]));
        assert(p@.subrange(0, j + 1) =~= p@.subrange(0, j as int).push(p@[j as int]));
        j = j + 1;
    }
    assert(p@ =~= p@.subrange(0, p.len() as int));
    true
}

/// Whether `s` starts with `p`.
pub fn starts_with(s: &str, p: &str) -> (res: bool)
    ensures
        res == has_prefix(s@, p@),
{
    let sv = chars_of(s);
    let pv = chars_of(p);
    occurs_at_exec(sv.as_slice(), pv.as_slice(), 0)
}

/// Whether `s` ends with `p`.
pub fn ends_with(s: &str, p: &str) -> (res: bool)
    ensures
        res == has_suffix(s@, p@),
{
    let sv = chars_of(s);
    let pv = chars_of(p);
    if pv.len() > sv.len() {
        return false;
    }
    occurs_at_exec(sv.as_slice(), pv.as_slice(), sv.len() - pv.len())
}

proof fn lemma_replace_step(s: Seq<char>, p: Seq<char>, r: Seq<char>, i: int)
    requires
        p.len() > 0,
        0 <= i <= s.len(),
    ensures
        i + p.len() <= s.len() && occurs_at(s, p, i) ==> replace_all_spec(skip_chars(s, i), p, r)
            == r + replace_all_spec(skip_chars(s, i + p.len()), p, r),
        i < s.len() && !(i + p.len() <= s.len() && occurs_at(s, p, i)) && i + p.len() <= s.len()
            ==> replace_all_spec(skip_chars(s, i), p, r) == seq![s[i]] + replace_all_spec(
            skip_chars(s, i + 1),
            p,
            r,
        ),
        i + p.len() > s.len() ==> replace_all_spec(skip_chars(s, i), p, r) == skip_chars(s, i),
{
    let t = skip_chars(s, i);
    if i == s.len() {
        assert(t.len() == 0);
    } else {
        assert(t =~= s.subrange(i, s.len() as int));
        if i + p.len() <= s.len() {
            assert(t.subrange(0, p.len() as int) =~= s.subrange(i, i + p.len()));
            if occurs_at(s, p, i) {
                assert(t.subrange(p.len() as int, t.len() as int) =~= skip_chars(s, i + p.len()));
            } else {
                assert(t.subrange(1, t.len() as int) =~= skip_chars(s, i + 1));
            }
        }
    }
}

/// Replace every leftmost, non-overlapping occurrence of `p` in `s` by `r` (`str::replace`).
pub fn replace_all(s: &str, p: &str, r: &str) -> (res: String)
    requires
        p@.len() > 0,
    ensures
        res@ == replace_all_spec(s@, p@, r@),
{
    let sv = chars_of(s);
    let pv = chars_of(p);
    let mut out = String::new();
    let mut i: usize = 0;
    assert(skip_chars(s@, 0) =~= s@);
    while i < sv.len()
        invariant
            sv@ == s@,
            pv@ == p@,
            p@.len() > 0,
            i <= sv.len(),
            out@ + replace_all_spec(skip_chars(s@, i as int), p@, r@) == replace_all_spec(s@, p@, r@),
        decreases sv.len() - i,
    {
        proof {
            lemma_replace_step(s@, p@, r@, i as int);
        }
        if pv.len() > sv.len() - i {
            // the rest is too short to hold the pattern
            let mut j: usize = i;
            let ghost rest = skip_chars(s@, i as int);
            while j < sv.len()
                invariant
                    sv@ == s@,
                    i <= j <= sv.len(),
                    rest == skip_chars(s@, i as int),
                    i < sv.len(),
                    out@ + rest.subrange((j - i) as int, rest.len() as int) == replace_all_spec(s@, p@, r@),
                decreases sv.len() - j,
            {
                let ghost before = out@;
                push_char(&mut out, sv[j]);
                assert(rest.subrange((j - i) as int, rest.len() as int) =~= seq![sv@[j as int]]
                    + rest.subrange((j + 1 - i) as int, rest.len() as int));
                j = j + 1;
            }
            assert(rest.subrange((sv.len() - i) as int, rest.len() as int) =~= Seq::<char>::empty());
            assert(out@ =~= replace_all_spec(s@, p@, r@));
            return out;
        }
        if occurs_at_exec(sv.as_slice(), pv.as_slice(), i) {
            let ghost before = out@;
            out.append(r);
            assert(out@ + replace_all_spec(skip_chars(s@, i + p@.len()), p@, r@) =~= before
                + replace_all_spec(skip_chars(s@, i as int), p@, r@));
            i = i + pv.len();
        } else {
            let ghost before = out@;
            push_char(&mut out, sv[i]);
            assert(out@ + replace_all_spec(skip_chars(s@, i + 1), p@, r@) =~= before
                + replace_all_spec(skip_chars(s@, i as int), p@, r@));
            i = i + 1;
        }
    }
    assert(skip_chars(s@, i as int) =~= Seq::<char>::empty());
    assert(out@ =~= replace_all_spec(s@, p@, r@));
    out
}

/// Decimal notation of a `u64` (what `{}` prints).
pub fn u64_to_decimal(n: u64) -> (res: String)
    ensures
        res@ == decimal(n as nat),
    decreases n,
{
    if n < 10 {
        let mut s = String::new();
        push_char(&mut s, digit_of(n));
        assert(s@ =~= seq![digit_char(n as int)]);
        s
    } else {
        let mut s = u64_to_decimal(n / 10);
        push_char(&mut s, digit_of(n % 10));
        s
    }
}

/// Lower-case hexadecimal notation of a `u64` (what `{:x}` prints).
pub fn u64_to_lower_hex(n: u64) -> (res: String)
    ensures
        res@ == lower_hex(n as nat),
    decreases n,
{
    if n < 16 {
        let mut s = String::new();
        push_char(&mut s, hex_digit_of(n));
        assert(s@ =~= seq![hex_char(n as int)]);
        s
    } else {
        let mut s = u64_to_lower_hex(n / 16);
        push_char(&mut s, hex_digit_of(n % 16));
        s
    }
}

/// Decimal notation of a `usize`.
pub fn usize_to_decimal(n: usize) -> (res: String)
    ensures
        res@ == decimal(n as nat),
{
    u64_to_decimal(n as u64)
}

fn digit_of(d: u64) -> (c: char)
    requires
        d < 10,
    ensures
        c == digit_char(d as int),
{
    if d == 0 { '0' }
    else if d == 1 { '1' }
    else if d == 2 { '2' }
    else if d == 3 { '3' }
    else if d == 4 { '4' }
    else if d == 5 { '5' }
    else if d == 6 { '6' }
    else if d == 7 { '7' }
    else if d == 8 { '8' }
    else { '9' }
}

fn hex_digit_of(d: u64) -> (c: char)
    requires
        d < 16,
    ensures
        c == hex_char(d as int),
{
    if d < 10 { digit_of(d) }
    else if d == 10 { 'a' }
    else if d == 11 { 'b' }
    else if d == 12 { 'c' }
    else if d == 13 { 'd' }
    else if d == 14 { 'e' }
    else { 'f' }
}

} // verus!
