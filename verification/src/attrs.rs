//! The attributes of a `<link data-trunk .../>` or `<script data-trunk>` element, and their
//! rendering back into an HTML tag.
use crate::order::{lemma_lex_total, lemma_lex_transitive, lemma_sorted_is_sorted_names, lex_lt, lex_lt_exec, sorted_names, strictly_sorted};
use crate::text::{chars_eq, chars_of, has_prefix, push_char, starts_with, str_eq, string_of_chars};
use vstd::prelude::*;

verus! {

/// The attribute entries as (name, value) pairs of character sequences.
pub type AttrEntries = Seq<(Seq<char>, Seq<char>)>;

/// The value bound to `k`, looking from the most recent entry backwards.
pub open spec fn lookup(s: AttrEntries, k: Seq<char>) -> Option<Seq<char>>
    decreases s.len(),
{
    if s.len() == 0 {
        None
    } else if s.last().0 == k {
        Some(s.last().1)
    } else {
        lookup(s.drop_last(), k)
    }
}

/// No attribute name occurs twice.
pub open spec fn names_distinct(s: AttrEntries) -> bool {
    forall|i: int, j: int| 0 <= i < j < s.len() ==> (#[trigger] s[i]).0 != (#[trigger] s[j]).0
}

pub proof fn lemma_lookup_at(s: AttrEntries, i: int)
    requires
        names_distinct(s),
        0 <= i < s.len(),
    ensures
        lookup(s, s[i].0) == Some(s[i].1),
    decreases s.len(),
{
    if i != s.len() - 1 {
        assert(s[i].0 != s[s.len() - 1].0);
        let t = s.drop_last();
        assert(t[i] == s[i]);
        lemma_lookup_at(t, i);
    }
}

pub proof fn lemma_lookup_absent(s: AttrEntries, k: Seq<char>)
    requires
        forall|i: int| 0 <= i < s.len() ==> (#[trigger] s[i]).0 != k,
    ensures
        lookup(s, k) is None,
    decreases s.len(),
{
    if s.len() > 0 {
        let t = s.drop_last();
        assert forall|i: int| 0 <= i < t.len() implies (#[trigger] t[i]).0 != k by {
            assert(t[i] == s[i]);
        }
        lemma_lookup_absent(t, k);
    }
}

pub proof fn lemma_lookup_some(s: AttrEntries, k: Seq<char>)
    requires
        lookup(s, k) is Some,
    ensures
        exists|i: int| 0 <= i < s.len() && (#[trigger] s[i]).0 == k && lookup(s, k) == Some(s[i].1),
    decreases s.len(),
{
    if s.last().0 != k {
        let t = s.drop_last();
        lemma_lookup_some(t, k);
        let i = choose|i: int| 0 <= i < t.len() && (#[trigger] t[i]).0 == k && lookup(t, k) == Some(t[i].1);
        assert(s[i] == t[i]);
    } else {
        assert(s[s.len() - 1].0 == k);
    }
}

/// Looking a name up in distinct entries is the same as finding its index.
pub proof fn lemma_lookup_iff(s: AttrEntries, k: Seq<char>)
    requires
        names_distinct(s),
    ensures
        lookup(s, k) is Some <==> exists|i: int| 0 <= i < s.len() && (#[trigger] s[i]).0 == k,
{
    if lookup(s, k) is Some {
        lemma_lookup_some(s, k);
    } else {
        if exists|i: int| 0 <= i < s.len() && (#[trigger] s[i]).0 == k {
            let i = choose|i: int| 0 <= i < s.len() && (#[trigger] s[i]).0 == k;
            lemma_lookup_at(s, i);
        }
    }
}

/// A mapping of all attributes of a `<link data-trunk .../>` element, name to value.
#[derive(Debug)]
pub struct Attrs {
    entries: Vec<(String, String)>,
}

impl View for Attrs {
    type V = AttrEntries;

    closed spec fn view(&self) -> AttrEntries {
        self.entries@.map_values(|e: (String, String)| (e.0@, e.1@))
    }
}

impl Attrs {
    /// The attribute mapping is well formed: no name occurs twice.
    pub open spec fn wf(&self) -> bool {
        names_distinct(self@)
    }

    /// The value bound to `name`.
    pub open spec fn get_spec(&self, name: Seq<char>) -> Option<Seq<char>> {
        lookup(self@, name)
    }

    /// An empty attribute mapping.
    pub fn new() -> (res: Attrs)
        ensures
            res@ == Seq::<(Seq<char>, Seq<char>)>::empty(),
            res.wf(),
    {
        let res = Attrs { entries: Vec::new() };
        assert(res@ =~= Seq::<(Seq<char>, Seq<char>)>::empty());
        res
    }

    /// Number of attributes.
    pub fn len(&self) -> (res: usize)
        ensures
            res == self@.len(),
    {
        self.entries.len()
    }

    fn find(&self, name: &str) -> (res: Option<usize>)
        requires
            self.wf(),
        ensures
            match res {
                Some(i) => i < self@.len() && self@[i as int].0 == name@,
                None => forall|i: int| 0 <= i < self@.len() ==> (#[trigger] self@[i]).0 != name@,
            },
    {
        let mut i: usize = 0;
        while i < self.entries.len()
            invariant
                i <= self.entries.len(),
                forall|j: int| 0 <= j < i ==> (#[trigger] self@[j]).0 != name@,
            decreases self.entries.len() - i,
        {
            if str_eq(self.entries[i].0.as_str(), name) {
                return Some(i);
            }
            i = i + 1;
        }
        None
    }

    /// The value of the attribute `name`, if present.
    pub fn get(&self, name: &str) -> (res: Option<&String>)
        requires
            self.wf(),
        ensures
            match res {
                Some(v) => self.get_spec(name@) == Some(v@),
                None => self.get_spec(name@) is None,
            },
    {
        match self.find(name) {
            Some(i) => {
                proof {
                    lemma_lookup_at(self@, i as int);
                }
                Some(&self.entries[i].1)
            },
            None => {
                proof {
                    lemma_lookup_absent(self@, name@);
                }
                None
            },
        }
    }

    /// Whether the attribute `name` is present.
    pub fn contains_key(&self, name: &str) -> (res: bool)
        requires
            self.wf(),
        ensures
            res == (self.get_spec(name@) is Some),
    {
        self.get(name).is_some()
    }

    /// Set the attribute `name` to `value`, replacing a previous value.
    pub fn insert(&mut self, name: String, value: String)
        requires
            old(self).wf(),
        ensures
            final(self).wf(),
            forall|k: Seq<char>|
                #![trigger final(self).get_spec(k)]
                final(self).get_spec(k) == if k == name@ {
                    Some(value@)
                } else {
                    old(self).get_spec(k)
                },
    {
        let ghost old_v = self@;
        let ghost nv = name@;
        let ghost vv = value@;
        match self.find(name.as_str()) {
            Some(i) => {
                self.entries.set(i, (name, value));
                assert(self@ =~= old_v.update(i as int, (nv, vv)));
                assert(names_distinct(self@)) by {
                    assert forall|a: int, b: int| 0 <= a < b < self@.len() implies (#[trigger] self@[a]).0
                        != (#[trigger] self@[b]).0 by {
                        if a != i && b != i {
                            assert(old_v[a] == self@[a] && old_v[b] == self@[b]);
                        } else if a == i {
                            assert(old_v[b] == self@[b]);
                            assert(old_v[a].0 == nv);
                        } else {
                            assert(old_v[a] == self@[a]);
                            assert(old_v[b].0 == nv);
                        }
                    }
                }
                assert forall|k: Seq<char>|
                    #![trigger lookup(self@, k)]
                    lookup(self@, k) == if k == nv {
                        Some(vv)
                    } else {
                        lookup(old_v, k)
                    } by {
                    if k == nv {
                        lemma_lookup_at(self@, i as int);
                    } else {
                        lemma_lookup_iff(old_v, k);
                        if lookup(old_v, k) is Some {
                            lemma_lookup_some(old_v, k);
                            let j = choose|j: int| 0 <= j < old_v.len() && (#[trigger] old_v[j]).0 == k
                                && lookup(old_v, k) == Some(old_v[j].1);
                            assert(self@[j] == old_v[j]);
                            lemma_lookup_at(self@, j);
                        } else {
                            assert forall|j: int| 0 <= j < self@.len() implies (#[trigger] self@[j]).0
                                != k by {
                                if j != i {
                                    assert(self@[j] == old_v[j]);
                                }
                            }
                            lemma_lookup_absent(self@, k);
                        }
                    }
                }
            },
            None => {
                self.entries.push((name, value));
                assert(self@ =~= old_v.push((nv, vv)));
                assert(self@.drop_last() =~= old_v);
                assert(names_distinct(self@)) by {
                    assert forall|a: int, b: int| 0 <= a < b < self@.len() implies (#[trigger] self@[a]).0
                        != (#[trigger] self@[b]).0 by {
                        assert(old_v.push((nv, vv))[a] == self@[a]);
                        if b < old_v.len() {
                            assert(old_v[a] == self@[a] && old_v[b] == self@[b]);
                        } else {
                            assert(old_v[a] == self@[a]);
                        }
                    }
                }
            },
        }
    }

    /// Remove the attribute `name`, returning its value if it was present.
    pub fn remove(&mut self, name: &str) -> (res: Option<String>)
        requires
            old(self).wf(),
        ensures
            final(self).wf(),
            match res {
                Some(v) => old(self).get_spec(name@) == Some(v@),
                None => old(self).get_spec(name@) is None,
            },
            forall|k: Seq<char>|
                #![trigger final(self).get_spec(k)]
                final(self).get_spec(k) == if k == name@ {
                    None
                } else {
                    old(self).get_spec(k)
                },
    {
        let ghost old_v = self@;
        match self.find(name) {
            Some(i) => {
                proof {
                    lemma_lookup_at(old_v, i as int);
                }
                let (_, value) = self.entries.remove(i);
                assert(self@ =~= old_v.remove(i as int));
                assert(names_distinct(self@)) by {
                    assert forall|a: int, b: int| 0 <= a < b < self@.len() implies (#[trigger] self@[a]).0
                        != (#[trigger] self@[b]).0 by {
                        let oa = if a < i { a } else { a + 1 };
                        let ob = if b < i { b } else { b + 1 };
                        assert(self@[a] == old_v[oa]);
                        assert(self@[b] == old_v[ob]);
                    }
                }
                assert forall|k: Seq<char>|
                    #![trigger lookup(self@, k)]
                    lookup(self@, k) == if k == name@ {
                        None
                    } else {
                        lookup(old_v, k)
                    } by {
                    if k == name@ {
                        assert forall|j: int| 0 <= j < self@.len() implies (#[trigger] self@[j]).0 != k by {
                            let oj = if j < i { j } else { j + 1 };
                            assert(self@[j] == old_v[oj]);
                            assert(oj != i);
                        }
                        lemma_lookup_absent(self@, k);
                    } else {
                        if lookup(old_v, k) is Some {
                            lemma_lookup_some(old_v, k);
                            let j = choose|j: int| 0 <= j < old_v.len() && (#[trigger] old_v[j]).0 == k
                                && lookup(old_v, k) == Some(old_v[j].1);
                            assert(j != i);
                            let nj = if j < i { j } else { j - 1 };
                            assert(self@[nj] == old_v[j]);
                            lemma_lookup_at(self@, nj);
                        } else {
                            lemma_lookup_iff(old_v, k);
                            assert forall|j: int| 0 <= j < self@.len() implies (#[trigger] self@[j]).0
                                != k by {
                                let oj = if j < i { j } else { j + 1 };
                                assert(self@[j] == old_v[oj]);
                            }
                            lemma_lookup_absent(self@, k);
                        }
                    }
                }
                Some(value)
            },
            None => {
                proof {
                    lemma_lookup_absent(old_v, name@);
                }
                None
            },
        }
    }

    /// A copy of the mapping.
    pub fn duplicate(&self) -> (res: Attrs)
        ensures
            res@ == self@,
    {
        let mut entries: Vec<(String, String)> = Vec::new();
        let mut i: usize = 0;
        while i < self.entries.len()
            invariant
                i <= self.entries.len(),
                entries@.len() == i,
                forall|k: int| 0 <= k < i ==> (#[trigger] entries@[k]).0@ == self.entries@[k].0@
                    && entries@[k].1@ == self.entries@[k].1@,
            decreases self.entries.len() - i,
        {
            let n = self.entries[i].0.clone();
            let v = self.entries[i].1.clone();
            entries.push((n, v));
            i = i + 1;
        }
        let res = Attrs { entries };
        assert(res@ =~= self@) by {
            assert forall|k: int| 0 <= k < self@.len() implies res@[k] == self@[k] by {
                assert(res@[k] == (res.entries@[k].0@, res.entries@[k].1@));
                assert(self@[k] == (self.entries@[k].0@, self.entries@[k].1@));
            }
        }
        res
    }

    /// The name and value at position `i` (in insertion order).
    pub fn entry(&self, i: usize) -> (res: (&String, &String))
        requires
            i < self@.len(),
        ensures
            res.0@ == self@[i as int].0,
            res.1@ == self@[i as int].1,
    {
        (&self.entries[i].0, &self.entries[i].1)
    }
}

/// An upper-case hexadecimal digit.
pub open spec fn upper_hex_digit(v: int) -> char {
    if v < 10 {
        (48 + v) as char
    } else {
        (55 + v) as char
    }
}

/// How `htmlescape` encodes one character of an attribute value: the five minimal entities;
/// `&#xHH;` for any other character below 256 that is not an ASCII letter or digit; any other
/// character as it is.
pub open spec fn encode_attribute_char(c: char) -> Seq<char> {
    if c == '"' {
        "&quot;"@
    } else if c == '&' {
        "&amp;"@
    } else if c == '\'' {
        "&#x27;"@
    } else if c == '<' {
        "&lt;"@
    } else if c == '>' {
        "&gt;"@
    } else if (c as int) < 256 && ((c as int) > 127 || !(('a' <= c && c <= 'z') || ('A' <= c && c <= 'Z') || ('0'
        <= c && c <= '9'))) {
        "&#x"@ + seq![upper_hex_digit((c as int) / 16), upper_hex_digit((c as int) % 16)] + ";"@
    } else {
        seq![c]
    }
}

/// What `htmlescape::encode_attribute` makes of a string: each character encoded in turn.
pub open spec fn html_attribute_encoding(s: Seq<char>) -> Seq<char>
    decreases s.len(),
{
    if s.len() == 0 {
        Seq::empty()
    } else {
        html_attribute_encoding(s.drop_last()) + encode_attribute_char(s.last())
    }
}

/// Entity-encodes an attribute value (`htmlescape::encode_attribute`).
#[verifier::external_body]
fn encode_attribute(s: &str) -> (res: String)
    ensures
        res@ == html_attribute_encoding(s@),
{
    htmlescape::encode_attribute(s)
}

/// The names that are written out: present, not `data-trunk*`, and not excluded.
pub open spec fn written_names(entries: AttrEntries, exclude: Seq<Seq<char>>) -> Set<Seq<char>> {
    Set::new(
        |k: Seq<char>|
            lookup(entries, k) is Some && !has_prefix(k, "data-trunk"@) && !exclude.contains(k),
    )
}

/// ` name` for an empty value, otherwise ` name="<encoded value>"`.
pub open spec fn render_attr(name: Seq<char>, value: Seq<char>) -> Seq<char> {
    if value.len() == 0 {
        seq![' '] + name
    } else {
        seq![' '] + name + "=\""@ + html_attribute_encoding(value) + "\""@
    }
}

/// The rendering of the attributes `names`, in that order.
pub open spec fn render_attrs(names: Seq<Seq<char>>, entries: AttrEntries) -> Seq<char>
    decreases names.len(),
{
    if names.len() == 0 {
        Seq::empty()
    } else {
        render_attrs(names.drop_last(), entries) + render_attr(
            names.last(),
            lookup(entries, names.last()).unwrap(),
        )
    }
}

/// What an attribute writer prints: the written names in ascending order, each rendered.
pub open spec fn attr_writer_output(entries: AttrEntries, exclude: Seq<Seq<char>>) -> Seq<char> {
    render_attrs(sorted_names(written_names(entries, exclude)), entries)
}

/// The entries with `k` bound to `v` on top.
pub open spec fn bind(e: AttrEntries, k: Seq<char>, v: Seq<char>) -> AttrEntries {
    e.push((k, v))
}

proof fn lemma_render_depends_on_lookup(names: Seq<Seq<char>>, e1: AttrEntries, e2: AttrEntries)
    requires
        forall|k: Seq<char>| #[trigger] lookup(e1, k) == lookup(e2, k),
    ensures
        render_attrs(names, e1) == render_attrs(names, e2),
    decreases names.len(),
{
    if names.len() > 0 {
        lemma_render_depends_on_lookup(names.drop_last(), e1, e2);
        assert(lookup(e1, names.last()) == lookup(e2, names.last()));
    }
}

/// What an attribute writer prints depends only on the value bound to each name.
pub proof fn lemma_output_depends_on_lookup(e1: AttrEntries, e2: AttrEntries, exclude: Seq<Seq<char>>)
    requires
        forall|k: Seq<char>| #[trigger] lookup(e1, k) == lookup(e2, k),
    ensures
        attr_writer_output(e1, exclude) == attr_writer_output(e2, exclude),
{
    assert(written_names(e1, exclude) =~= written_names(e2, exclude)) by {
        assert forall|k: Seq<char>| written_names(e1, exclude).contains(k) == written_names(e2, exclude).contains(k) by {
            assert(lookup(e1, k) == lookup(e2, k));
        }
    }
    lemma_render_depends_on_lookup(sorted_names(written_names(e1, exclude)), e1, e2);
}

/// Writes a set of attributes into an HTML tag: it begins with a space, values are
/// HTML-escaped, names are sorted, `data-trunk*` and excluded names are left out, and empty
/// values are written as a bare name.
pub struct AttrWriter<'a> {
    attrs: &'a Attrs,
    exclude: &'a [&'a str],
}

/// The names left out of an inline `<style>` element.
pub open spec fn css_inline_excluded() -> Seq<Seq<char>> {
    seq![
        "data-trunk-id"@,
        "href"@,
        "rel"@,
        "data-inline"@,
        "src"@,
        "type"@,
        "data-no-minify"@,
        "data-target-path"@,
    ]
}

/// The names left out of a stylesheet `<link>` element: those of an inline `<style>` element but
/// `type`, since a link may name its MIME type.
pub open spec fn css_link_excluded() -> Seq<Seq<char>> {
    seq!["data-trunk-id"@, "href"@, "rel"@, "data-inline"@, "src"@, "data-no-minify"@, "data-target-path"@]
}

/// The names left out of a `<script>` element.
pub open spec fn script_excluded() -> Seq<Seq<char>> {
    seq!["src"@, "data-no-minify"@, "data-target-path"@]
}

/// Attributes left out of an inline `<style>` element.
pub fn exclude_css_inline() -> (res: Vec<&'static str>)
    ensures
        exclude_view(res@) == css_inline_excluded(),
{
    let res = vec![
        "data-trunk-id",
        "href",
        "rel",
        "data-inline",
        "src",
        "type",
        "data-no-minify",
        "data-target-path",
    ];
    assert(exclude_view(res@) =~= css_inline_excluded());
    res
}

/// Attributes left out of a stylesheet `<link>` element.
pub fn exclude_css_link() -> (res: Vec<&'static str>)
    ensures
        exclude_view(res@) == css_link_excluded(),
{
    let res = vec!["data-trunk-id", "href", "rel", "data-inline", "src", "data-no-minify", "data-target-path"];
    assert(exclude_view(res@) =~= css_link_excluded());
    res
}

/// Attributes left out of a `<script>` element.
pub fn exclude_script() -> (res: Vec<&'static str>)
    ensures
        exclude_view(res@) == script_excluded(),
{
    let res = vec!["src", "data-no-minify", "data-target-path"];
    assert(exclude_view(res@) =~= script_excluded());
    res
}

/// The excluded names as character sequences.
pub open spec fn exclude_view(exclude: Seq<&str>) -> Seq<Seq<char>> {
    exclude.map_values(|e: &str| e@)
}

fn is_excluded(name: &str, exclude: &[&str]) -> (res: bool)
    ensures
        res == exclude_view(exclude@).contains(name@),
{
    let mut i: usize = 0;
    while i < exclude.len()
        invariant
            i <= exclude.len(),
            forall|j: int| 0 <= j < i ==> (#[trigger] exclude@[j])@ != name@,
        decreases exclude.len() - i,
    {
        if str_eq(exclude[i], name) {
            assert(exclude_view(exclude@)[i as int] == name@);
            return true;
        }
        i = i + 1;
    }
    assert forall|j: int| 0 <= j < exclude_view(exclude@).len() implies exclude_view(exclude@)[j]
        != name@ by {
        assert(exclude_view(exclude@)[j] == exclude@[j]@);
    }
    false
}

/// The views of a vector of character vectors.
pub open spec fn views(v: Seq<Vec<char>>) -> Seq<Seq<char>> {
    v.map_values(|x: Vec<char>| x@)
}

/// Insert `x` into the strictly sorted `names`, unless it is already present.
fn insert_sorted(names: &mut Vec<Vec<char>>, x: Vec<char>)
    requires
        strictly_sorted(views(old(names)@)),
    ensures
        strictly_sorted(views(final(names)@)),
        views(final(names)@).to_set() == views(old(names)@).to_set().insert(x@),
{
    let ghost xv = x@;
    let ghost old_v = views(names@);
    let mut p: usize = 0;
    while p < names.len()
        invariant
            p <= names.len(),
            names@ == old(names)@,
            xv == x@,
            old_v == views(names@),
            forall|j: int| 0 <= j < p ==> lex_lt(#[trigger] old_v[j], xv),
        ensures
            p <= names.len(),
            names@ == old(names)@,
            forall|j: int| 0 <= j < p ==> lex_lt(#[trigger] old_v[j], xv),
            p < names.len() ==> !lex_lt(old_v[p as int], xv),
        decreases names.len() - p,
    {
        let below = lex_lt_exec(names[p].as_slice(), x.as_slice());
        if !below {
            assert(old_v[p as int] == names@[p as int]@);
            break;
        }
        assert(old_v[p as int] == names@[p as int]@);
        p = p + 1;
    }
    if p < names.len() && chars_eq(names[p].as_slice(), x.as_slice()) {
        assert(old_v[p as int] == xv);
        assert(old_v.to_set().insert(xv) =~= old_v.to_set());
        return;
    }
    proof {
        if p < names.len() {
            lemma_lex_total(old_v[p as int], xv);
        }
    }
    names.insert(p, x);
    let ghost nv = views(names@);
    assert(nv =~= old_v.insert(p as int, xv));
    assert(strictly_sorted(nv)) by {
        assert forall|i: int, j: int| 0 <= i < j < nv.len() implies lex_lt(#[trigger] nv[i], #[trigger] nv[j]) by {
            if j < p {
                assert(nv[i] == old_v[i] && nv[j] == old_v[j]);
            } else if j == p {
                assert(nv[i] == old_v[i]);
            } else if i == p {
                assert(nv[j] == old_v[j - 1]);
                if j - 1 > p {
                    assert(lex_lt(old_v[p as int], old_v[j - 1]));
                    lemma_lex_transitive(xv, old_v[p as int], old_v[j - 1]);
                }
            } else if i < p {
                assert(nv[i] == old_v[i] && nv[j] == old_v[j - 1]);
                assert(lex_lt(old_v[i], xv));
                assert(lex_lt(xv, old_v[p as int]));
                lemma_lex_transitive(old_v[i], xv, old_v[p as int]);
                if j - 1 > p {
                    lemma_lex_transitive(old_v[i], old_v[p as int], old_v[j - 1]);
                }
            } else {
                assert(nv[i] == old_v[i - 1] && nv[j] == old_v[j - 1]);
            }
        }
    }
    assert forall|y: Seq<char>| #[trigger] nv.to_set().contains(y) <==> old_v.to_set().insert(xv).contains(y) by {
        if nv.to_set().contains(y) {
            let k = choose|k: int| 0 <= k < nv.len() && nv[k] == y;
            if k < p {
                assert(old_v[k] == y);
            } else if k > p {
                assert(old_v[k - 1] == y);
            }
        }
        if old_v.to_set().contains(y) {
            let k = choose|k: int| 0 <= k < old_v.len() && old_v[k] == y;
            if k < p {
                assert(nv[k] == y);
            } else {
                assert(nv[k + 1] == y);
            }
        }
        if y == xv {
            assert(nv[p as int] == y);
        }
    }
    assert(nv.to_set() =~= old_v.to_set().insert(xv));
}

/// The names among the first `n` entries that are written out.
pub open spec fn written_prefix(entries: AttrEntries, exclude: Seq<Seq<char>>, n: int) -> Set<Seq<char>> {
    Set::new(
        |k: Seq<char>|
            exists|j: int|
                0 <= j < n && (#[trigger] entries[j]).0 == k && !has_prefix(k, "data-trunk"@)
                    && !exclude.contains(k),
    )
}

impl<'a> AttrWriter<'a> {
    /// A writer for `attrs`, leaving out the names in `exclude`.
    pub fn new(attrs: &'a Attrs, exclude: &'a [&'a str]) -> (res: Self)
        ensures
            res.attrs() == attrs,
            res.exclude() == exclude,
    {
        AttrWriter { attrs, exclude }
    }

    pub closed spec fn attrs(&self) -> &'a Attrs {
        self.attrs
    }

    pub closed spec fn exclude(&self) -> &'a [&'a str] {
        self.exclude
    }

    /// The written names in ascending order.
    fn sorted_written(&self) -> (res: Vec<Vec<char>>)
        requires
            self.attrs().wf(),
        ensures
            views(res@) == sorted_names(written_names(self.attrs()@, exclude_view(self.exclude()@))),
            strictly_sorted(views(res@)),
            views(res@).to_set() == written_names(self.attrs()@, exclude_view(self.exclude()@)),
    {
        let ghost entries = self.attrs@;
        let ghost ex = exclude_view(self.exclude@);
        let mut names: Vec<Vec<char>> = Vec::new();
        let mut i: usize = 0;
        assert(views(names@).to_set() =~= written_prefix(entries, ex, 0));
        while i < self.attrs.len()
            invariant
                i <= self.attrs@.len(),
                entries == self.attrs@,
                ex == exclude_view(self.exclude@),
                strictly_sorted(views(names@)),
                views(names@).to_set() == written_prefix(entries, ex, i as int),
            decreases self.attrs@.len() - i,
        {
            let (name, _) = self.attrs.entry(i);
            let keep = !starts_with(name.as_str(), "data-trunk") && !is_excluded(name.as_str(), self.exclude);
            let ghost before = views(names@).to_set();
            if keep {
                insert_sorted(&mut names, chars_of(name.as_str()));
            }
            assert(views(names@).to_set() =~= written_prefix(entries, ex, i + 1)) by {
                assert forall|k: Seq<char>| #[trigger] written_prefix(entries, ex, i + 1).contains(k)
                    implies views(names@).to_set().contains(k) by {
                    let j = choose|j: int|
                        0 <= j < i + 1 && (#[trigger] entries[j]).0 == k && !has_prefix(k, "data-trunk"@)
                            && !ex.contains(k);
                    if j < i {
                        assert(written_prefix(entries, ex, i as int).contains(k));
                    }
                }
                assert forall|k: Seq<char>| views(names@).to_set().contains(k) implies #[trigger] written_prefix(entries, ex, i + 1).contains(k) by {
                    if before.contains(k) {
                        let j = choose|j: int|
                            0 <= j < i && (#[trigger] entries[j]).0 == k && !has_prefix(k, "data-trunk"@)
                                && !ex.contains(k);
                        assert(0 <= j < i + 1);
                    } else {
                        assert(entries[i as int].0 == k);
                    }
                }
            }
            i = i + 1;
        }
        assert(written_prefix(entries, ex, entries.len() as int) =~= written_names(entries, ex)) by {
            assert forall|k: Seq<char>| #[trigger] written_names(entries, ex).contains(k) implies written_prefix(
                entries,
                ex,
                entries.len() as int,
            ).contains(k) by {
                lemma_lookup_iff(entries, k);
                let j = choose|j: int| 0 <= j < entries.len() && (#[trigger] entries[j]).0 == k;
                assert(entries[j].0 == k);
            }
            assert forall|k: Seq<char>| #[trigger] written_prefix(entries, ex, entries.len() as int).contains(k)
                implies written_names(entries, ex).contains(k) by {
                let j = choose|j: int|
                    0 <= j < entries.len() && (#[trigger] entries[j]).0 == k && !has_prefix(k, "data-trunk"@)
                        && !ex.contains(k);
                lemma_lookup_at(entries, j);
            }
        }
        proof {
            lemma_sorted_is_sorted_names(views(names@));
        }
        names
    }

    /// The attributes as they are written into a tag.
    pub fn to_string(&self) -> (res: String)
        requires
            self.attrs().wf(),
        ensures
            res@ == attr_writer_output(self.attrs()@, exclude_view(self.exclude()@)),
    {
        let names = self.sorted_written();
        let ghost entries = self.attrs@;
        let ghost ns = views(names@);
        let ghost set = written_names(entries, exclude_view(self.exclude@));
        let mut out = String::new();
        let mut i: usize = 0;
        while i < names.len()
            invariant
                i <= names.len(),
                ns == views(names@),
                ns.to_set() == set,
                entries == self.attrs@,
                set == written_names(entries, exclude_view(self.exclude@)),
                self.attrs.wf(),
                out@ == render_attrs(ns.subrange(0, i as int), entries),
            decreases names.len() - i,
        {
            let name = string_of_chars(names[i].as_slice());
            assert(ns[i as int] == name@);
            assert(set.contains(name@));
            let value = self.attrs.get(name.as_str());
            let value = match value {
                Some(v) => v,
                None => {
                    return out;  // unreachable: every written name is present
                }
            };
            push_char(&mut out, ' ');
            out.append(name.as_str());
            if value.unicode_len() != 0 {
                out.append("=\"");
                let enc = encode_attribute(value.as_str());
                out.append(enc.as_str());
                out.append("\"");
            }
            proof {
                reveal_strlit("=\"");
                reveal_strlit("\"");
            }
            assert(ns.subrange(0, i + 1).drop_last() =~= ns.subrange(0, i as int));
            assert(out@ =~= render_attrs(ns.subrange(0, i + 1), entries));
            i = i + 1;
        }
        assert(ns.subrange(0, names.len() as int) =~= ns);
        out
    }
}

} // verus!
