//! Subresource-integrity records of a Rust application's outputs, and the preload links made
//! from them.
use crate::integrity::{digest_of, integrity_value, IntegrityType, OutputDigest};
use crate::text::{str_eq, to_owned_string};
use vstd::prelude::*;

verus! {

/// The cross-origin setting for loading resources.
#[derive(Copy, Clone, Eq, PartialEq, Structural, Debug)]
pub enum CrossOrigin {
    Anonymous,
    UseCredentials,
}

/// The attribute value of a cross-origin setting.
pub open spec fn cross_origin_name(c: CrossOrigin) -> Seq<char> {
    match c {
        CrossOrigin::Anonymous => "anonymous"@,
        CrossOrigin::UseCredentials => "use-credentials"@,
    }
}

/// The cross-origin setting named by an attribute value (empty means anonymous).
pub open spec fn parse_cross_origin(s: Seq<char>) -> Option<CrossOrigin> {
    if s == "anonymous"@ || s.len() == 0 {
        Some(CrossOrigin::Anonymous)
    } else if s == "use-credentials"@ {
        Some(CrossOrigin::UseCredentials)
    } else {
        None
    }
}

impl CrossOrigin {
    /// The attribute value (what `Display` prints).
    pub fn as_str(&self) -> (res: &'static str)
        ensures
            res@ == cross_origin_name(*self),
    {
        match self {
            CrossOrigin::Anonymous => "anonymous",
            CrossOrigin::UseCredentials => "use-credentials",
        }
    }

    /// Parse a `data-cross-origin` value.
    pub fn from_str(s: &str) -> (res: Option<CrossOrigin>)
        ensures
            res == parse_cross_origin(s@),
    {
        if str_eq(s, "anonymous") || s.is_empty() {
            Some(CrossOrigin::Anonymous)
        } else if str_eq(s, "use-credentials") {
            Some(CrossOrigin::UseCredentials)
        } else {
            None
        }
    }
}

impl Default for CrossOrigin {
    fn default() -> (res: CrossOrigin)
        ensures
            res == CrossOrigin::Anonymous,
    {
        CrossOrigin::Anonymous
    }
}

/// ` nonce="<nonce>"` when a nonce placeholder is configured, nothing otherwise.
pub open spec fn nonce_attr_spec(nonce: Option<Seq<char>>) -> Seq<char> {
    match nonce {
        Some(n) => " nonce=\""@ + n + "\""@,
        None => Seq::empty(),
    }
}

/// The view of an optional string.
pub open spec fn opt_view(o: Option<String>) -> Option<Seq<char>> {
    match o {
        Some(s) => Some(s@),
        None => None,
    }
}

/// The nonce attribute for the configured nonce placeholder.
pub fn nonce_attr(create_nonce: &Option<String>) -> (res: String)
    ensures
        res@ == nonce_attr_spec(opt_view(*create_nonce)),
{
    match create_nonce {
        Some(n) => {
            let mut s = to_owned_string(" nonce=\"");
            s.append(n.as_str());
            s.append("\"");
            proof {
                reveal_strlit(" nonce=\"");
                reveal_strlit("\"");
            }
            s
        },
        None => String::new(),
    }
}

/// The kind of a preload link.
#[derive(Copy, Clone, Debug, PartialEq, Eq, Structural)]
pub enum SriType {
    Preload,
    ModulePreload,
}

/// The `rel` value of a preload link.
pub open spec fn sri_type_name(t: SriType) -> Seq<char> {
    match t {
        SriType::Preload => "preload"@,
        SriType::ModulePreload => "modulepreload"@,
    }
}

impl SriType {
    /// The `rel` value (what `Display` prints).
    pub fn as_str(&self) -> (res: &'static str)
        ensures
            res@ == sri_type_name(*self),
    {
        match self {
            SriType::Preload => "preload",
            SriType::ModulePreload => "modulepreload",
        }
    }
}

/// Extra attributes of a preload link.
#[derive(Clone, Debug, Default)]
pub struct SriOptions {
    pub as_attr: Option<String>,
    pub type_attr: Option<String>,
}

/// The view of preload options: the `as` and `type` values.
pub type SriOptionsView = (Option<Seq<char>>, Option<Seq<char>>);

/// ` as="..."` and ` type="..."` for the options that are set.
pub open spec fn options_attrs(o: SriOptionsView) -> Seq<char> {
    (match o.0 {
        Some(a) => " as=\""@ + a + "\""@,
        None => Seq::empty(),
    }) + (match o.1 {
        Some(t) => " type=\""@ + t + "\""@,
        None => Seq::empty(),
    })
}

impl View for SriOptions {
    type V = SriOptionsView;

    open spec fn view(&self) -> SriOptionsView {
        (opt_view(self.as_attr), opt_view(self.type_attr))
    }
}

impl SriOptions {
    /// No options set.
    pub fn new() -> (res: SriOptions)
        ensures
            res@ == (None::<Seq<char>>, None::<Seq<char>>),
    {
        SriOptions { as_attr: None, type_attr: None }
    }

    /// Set the `as` attribute.
    pub fn as_attr(self, value: &str) -> (res: SriOptions)
        ensures
            res@ == (Some(value@), self@.1),
    {
        SriOptions { as_attr: Some(to_owned_string(value)), type_attr: self.type_attr }
    }

    /// Set the `type` attribute.
    pub fn type_attr(self, value: &str) -> (res: SriOptions)
        ensures
            res@ == (self@.0, Some(value@)),
    {
        SriOptions { as_attr: self.as_attr, type_attr: Some(to_owned_string(value)) }
    }

    /// The options as attributes (what `Display` prints).
    pub fn to_string(&self) -> (res: String)
        ensures
            res@ == options_attrs(self@),
    {
        let mut s = String::new();
        proof {
            reveal_strlit(" as=\"");
            reveal_strlit(" type=\"");
            reveal_strlit("\"");
        }
        if let Some(a) = &self.as_attr {
            s.append(" as=\"");
            s.append(a.as_str());
            s.append("\"");
        }
        if let Some(t) = &self.type_attr {
            s.append(" type=\"");
            s.append(t.as_str());
            s.append("\"");
        }
        s
    }

    fn copy(&self) -> (res: SriOptions)
        ensures
            res@ == self@,
    {
        SriOptions { as_attr: self.as_attr.clone(), type_attr: self.type_attr.clone() }
    }
}

/// The key of an SRI record: the link kind and the file name.
#[derive(Clone, Debug)]
pub struct SriKey {
    pub kind: SriType,
    pub name: String,
}

/// The digest and the options of an SRI record.
#[derive(Clone, Debug)]
pub struct SriEntry {
    pub digest: OutputDigest,
    pub options: SriOptions,
}

/// The view of a key.
pub type SriKeyView = (SriType, Seq<char>);

/// The view of an entry: digest algorithm, digest bytes, options.
pub type SriEntryView = (IntegrityType, Seq<u8>, SriOptionsView);

/// The view of a record list.
pub type SriRecords = Seq<(SriKeyView, SriEntryView)>;

/// The position of the first record with key `k`, or the length when there is none.
pub open spec fn key_index(s: SriRecords, k: SriKeyView) -> int
    decreases s.len(),
{
    if s.len() == 0 {
        0
    } else if s[0].0 == k {
        0
    } else {
        1 + key_index(s.drop_first(), k)
    }
}

/// Record `e` under `k`: replace the record with that key in place, or append a new one.
pub open spec fn upsert(s: SriRecords, k: SriKeyView, e: SriEntryView) -> SriRecords {
    if key_index(s, k) < s.len() {
        s.update(key_index(s, k), (k, e))
    } else {
        s.push((k, e))
    }
}

/// No key occurs twice.
pub open spec fn keys_distinct(s: SriRecords) -> bool {
    forall|i: int, j: int| 0 <= i < j < s.len() ==> (#[trigger] s[i]).0 != (#[trigger] s[j]).0
}

/// The entry recorded under `k`, if any.
pub open spec fn record_of(s: SriRecords, k: SriKeyView) -> Option<SriEntryView> {
    if key_index(s, k) < s.len() {
        Some(s[key_index(s, k)].1)
    } else {
        None
    }
}

pub proof fn lemma_key_index(s: SriRecords, k: SriKeyView, i: int)
    requires
        0 <= i <= s.len(),
        forall|j: int| 0 <= j < i ==> (#[trigger] s[j]).0 != k,
        i < s.len() ==> s[i].0 == k,
    ensures
        key_index(s, k) == i,
    decreases s.len(),
{
    if s.len() > 0 && i > 0 {
        let t = s.drop_first();
        assert forall|j: int| 0 <= j < i - 1 implies (#[trigger] t[j]).0 != k by {
            assert(t[j] == s[j + 1]);
        }
        lemma_key_index(t, k, i - 1);
    }
}

pub proof fn lemma_key_index_bounds(s: SriRecords, k: SriKeyView)
    ensures
        0 <= key_index(s, k) <= s.len(),
        key_index(s, k) < s.len() ==> s[key_index(s, k)].0 == k,
        forall|j: int| 0 <= j < key_index(s, k) ==> (#[trigger] s[j]).0 != k,
    decreases s.len(),
{
    if s.len() > 0 && s[0].0 != k {
        let t = s.drop_first();
        lemma_key_index_bounds(t, k);
        assert forall|j: int| 0 <= j < key_index(s, k) implies (#[trigger] s[j]).0 != k by {
            if j > 0 {
                assert(s[j] == t[j - 1]);
            }
        }
    }
}

/// Recording keeps the keys distinct.
pub proof fn law_upsert_keeps_keys_distinct(s: SriRecords, k: SriKeyView, e: SriEntryView)
    requires
        keys_distinct(s),
    ensures
        keys_distinct(upsert(s, k, e)),
{
    lemma_key_index_bounds(s, k);
    let r = upsert(s, k, e);
    assert forall|i: int, j: int| 0 <= i < j < r.len() implies (#[trigger] r[i]).0 != (#[trigger] r[j]).0 by {
        if key_index(s, k) == s.len() {
            if j == s.len() {
                assert(r[i] == s[i]);
            } else {
                assert(r[i] == s[i] && r[j] == s[j]);
            }
        } else {
            let p = key_index(s, k);
            if i == p {
                assert(r[j] == s[j]);
                assert(s[p].0 == k);
            } else if j == p {
                assert(r[i] == s[i]);
                assert(s[p].0 == k);
            } else {
                assert(r[i] == s[i] && r[j] == s[j]);
            }
        }
    }
}

/// After recording `e` under `k`, the record under `k` is `e`, and every other key's record
/// is unchanged.
pub proof fn law_upsert_reads_back(s: SriRecords, k: SriKeyView, e: SriEntryView, k2: SriKeyView)
    ensures
        record_of(upsert(s, k, e), k) == Some(e),
        k2 != k ==> record_of(upsert(s, k, e), k2) == record_of(s, k2),
{
    lemma_key_index_bounds(s, k);
    lemma_key_index_bounds(s, k2);
    let r = upsert(s, k, e);
    let p = key_index(s, k);
    assert forall|j: int| 0 <= j < p implies (#[trigger] r[j]).0 != k by {
        assert(r[j] == s[j]);
    }
    lemma_key_index(r, k, p);
    if k2 != k {
        let q = key_index(s, k2);
        if q < s.len() {
            assert forall|j: int| 0 <= j < q implies (#[trigger] r[j]).0 != k2 by {
                if j == p {
                } else {
                    assert(r[j] == s[j]);
                }
            }
            if q != p {
                assert(r[q] == s[q]);
            }
            lemma_key_index(r, k2, q);
        } else {
            assert forall|j: int| 0 <= j < r.len() implies (#[trigger] r[j]).0 != k2 by {
                if j < s.len() && j != p {
                    assert(r[j] == s[j]);
                }
            }
            lemma_key_index(r, k2, r.len() as int);
        }
    }
}

/// Recording under the same key twice is the same as recording the second entry once.
pub proof fn law_upsert_twice(s: SriRecords, k: SriKeyView, e1: SriEntryView, e2: SriEntryView)
    ensures
        upsert(upsert(s, k, e1), k, e2) == upsert(s, k, e2),
{
    lemma_key_index_bounds(s, k);
    let r = upsert(s, k, e1);
    let p = key_index(s, k);
    assert forall|j: int| 0 <= j < p implies (#[trigger] r[j]).0 != k by {
        assert(r[j] == s[j]);
    }
    lemma_key_index(r, k, p);
    assert(upsert(r, k, e2) =~= upsert(s, k, e2));
}

/// The records after recording each of `calls` in turn.
pub open spec fn upsert_all(s: SriRecords, calls: SriRecords) -> SriRecords
    decreases calls.len(),
{
    if calls.len() == 0 {
        s
    } else {
        upsert(upsert_all(s, calls.drop_last()), calls.last().0, calls.last().1)
    }
}

/// The keys of records, in order.
pub open spec fn keys_of(s: SriRecords) -> Seq<SriKeyView> {
    s.map_values(|r: (SriKeyView, SriEntryView)| r.0)
}

/// The keys `ks` with those of `calls` added, each new one at the end when it is first seen.
pub open spec fn add_new_keys(ks: Seq<SriKeyView>, calls: SriRecords) -> Seq<SriKeyView>
    decreases calls.len(),
{
    if calls.len() == 0 {
        ks
    } else {
        let prev = add_new_keys(ks, calls.drop_last());
        if prev.contains(calls.last().0) {
            prev
        } else {
            prev.push(calls.last().0)
        }
    }
}

/// The entry of the last of `calls` under the key `k`, if any.
pub open spec fn last_entry(calls: SriRecords, k: SriKeyView) -> Option<SriEntryView>
    decreases calls.len(),
{
    if calls.len() == 0 {
        None
    } else if calls.last().0 == k {
        Some(calls.last().1)
    } else {
        last_entry(calls.drop_last(), k)
    }
}

proof fn lemma_upsert_keys(s: SriRecords, k: SriKeyView, e: SriEntryView)
    ensures
        keys_of(upsert(s, k, e)) == if keys_of(s).contains(k) {
            keys_of(s)
        } else {
            keys_of(s).push(k)
        },
{
    lemma_key_index_bounds(s, k);
    let p = key_index(s, k);
    if p < s.len() {
        assert(keys_of(s)[p] == k);
        assert(keys_of(upsert(s, k, e)) =~= keys_of(s));
    } else {
        assert forall|j: int| 0 <= j < keys_of(s).len() implies keys_of(s)[j] != k by {
            assert(keys_of(s)[j] == s[j].0);
        }
        assert(keys_of(upsert(s, k, e)) =~= keys_of(s).push(k));
    }
}

/// Over any number of records made in turn: the keys stay distinct, each key comes once, in
/// the order in which it was first recorded, and the entry under a key is the one that its
/// last record gave (or the one it had, when none recorded it).
pub proof fn law_records_of_many_calls(s: SriRecords, calls: SriRecords, k: SriKeyView)
    requires
        keys_distinct(s),
    ensures
        keys_distinct(upsert_all(s, calls)),
        keys_of(upsert_all(s, calls)) == add_new_keys(keys_of(s), calls),
        record_of(upsert_all(s, calls), k) == match last_entry(calls, k) {
            Some(e) => Some(e),
            None => record_of(s, k),
        },
    decreases calls.len(),
{
    if calls.len() > 0 {
        let prev = upsert_all(s, calls.drop_last());
        law_records_of_many_calls(s, calls.drop_last(), k);
        law_upsert_keeps_keys_distinct(prev, calls.last().0, calls.last().1);
        law_upsert_reads_back(prev, calls.last().0, calls.last().1, k);
        lemma_upsert_keys(prev, calls.last().0, calls.last().1);
    }
}

/// The digests of a Rust application's sub-resources.
#[derive(Clone, Debug, Default)]
pub struct SriResult {
    pub integrities: Vec<(SriKey, SriEntry)>,
}

/// The view of one record.
pub open spec fn record_view(r: (SriKey, SriEntry)) -> (SriKeyView, SriEntryView) {
    ((r.0.kind, r.0.name@), (r.1.digest.integrity, r.1.digest.hash@, r.1.options@))
}

impl View for SriResult {
    type V = SriRecords;

    open spec fn view(&self) -> SriRecords {
        self.integrities@.map_values(|r: (SriKey, SriEntry)| record_view(r))
    }
}

/// The preload link of one record.
pub open spec fn preload_link(
    k: SriKeyView,
    e: SriEntryView,
    base: Seq<char>,
    cross_origin: CrossOrigin,
    nonce: Option<Seq<char>>,
) -> Seq<char> {
    let head = "<link rel=\""@ + sri_type_name(k.0) + "\""@ + nonce_attr_spec(nonce) + " href=\""@ + base
        + k.1 + "\" crossorigin=\""@ + cross_origin_name(cross_origin) + "\""@;
    match integrity_value(e.0, e.1) {
        Some(v) => head + " integrity=\""@ + v + "\""@ + options_attrs(e.2) + ">"@,
        None => head + options_attrs(e.2) + ">"@,
    }
}

/// The preload links of the records, in order.
pub open spec fn preload_links(
    s: SriRecords,
    base: Seq<char>,
    cross_origin: CrossOrigin,
    nonce: Option<Seq<char>>,
) -> Seq<Seq<char>> {
    s.map_values(|r: (SriKeyView, SriEntryView)| preload_link(r.0, r.1, base, cross_origin, nonce))
}

impl SriResult {
    /// Append the preload link of every record, in order, to the HTML appended to the
    /// document head.
    pub fn inject(
        &self,
        location: &mut Vec<String>,
        base: &str,
        cross_origin: CrossOrigin,
        create_nonce: &Option<String>,
    )
        ensures
            final(location)@.map_values(|h: String| h@) == old(location)@.map_values(|h: String| h@)
                + preload_links(self@, base@, cross_origin, opt_view(*create_nonce)),
    {
        let ghost start = location@.map_values(|h: String| h@);
        let nonce = nonce_attr(create_nonce);
        let mut i: usize = 0;
        while i < self.integrities.len()
            invariant
                i <= self.integrities.len(),
                nonce@ == nonce_attr_spec(opt_view(*create_nonce)),
                location@.map_values(|h: String| h@) == start + preload_links(self@, base@, cross_origin, opt_view(*create_nonce)).subrange(0, i as int),
            decreases self.integrities.len() - i,
        {
            let (key, entry) = &self.integrities[i];
            let ghost kv = (key.kind, key.name@);
            let ghost ev = (entry.digest.integrity, entry.digest.hash@, entry.options@);
            assert(self@[i as int] == (kv, ev));
            let mut link = to_owned_string("<link rel=\"");
            link.append(key.kind.as_str());
            link.append("\"");
            link.append(nonce.as_str());
            link.append(" href=\"");
            link.append(base);
            link.append(key.name.as_str());
            link.append("\" crossorigin=\"");
            link.append(cross_origin.as_str());
            link.append("\"");
            match entry.digest.to_integrity_value() {
                Some(v) => {
                    link.append(" integrity=\"");
                    link.append(v.as_str());
                    link.append("\"");
                },
                None => {},
            }
            let opts = entry.options.to_string();
            link.append(opts.as_str());
            link.append(">");
            proof {
                reveal_strlit("<link rel=\"");
                reveal_strlit("\"");
                reveal_strlit(" href=\"");
                reveal_strlit("\" crossorigin=\"");
                reveal_strlit(" integrity=\"");
                reveal_strlit(">");
            }
            assert(link@ =~= preload_link(kv, ev, base@, cross_origin, opt_view(*create_nonce)));
            let ghost before = location@;
            let ghost lv = link@;
            location.push(link);
            let ghost pls = preload_links(self@, base@, cross_origin, opt_view(*create_nonce));
            assert(pls[i as int] == lv);
            assert(location@.map_values(|h: String| h@) =~= before.map_values(|h: String| h@).push(lv));
            assert(pls.subrange(0, i + 1) =~= pls.subrange(0, i as int).push(lv));
            i = i + 1;
        }
        assert(preload_links(self@, base@, cross_origin, opt_view(*create_nonce)).subrange(0, self@.len() as int)
            =~= preload_links(self@, base@, cross_origin, opt_view(*create_nonce)));
    }
}

/// Collects the SRI records of a build.
#[derive(Clone, Debug)]
pub struct SriBuilder {
    integrity: IntegrityType,
    result: SriResult,
}

impl SriBuilder {
    /// The digest algorithm of this builder.
    pub closed spec fn integrity(&self) -> IntegrityType {
        self.integrity
    }

    /// The records collected so far.
    pub closed spec fn records(&self) -> SriRecords {
        self.result@
    }

    /// A builder with no records that digests with `type`.
    pub fn new(integrity: IntegrityType) -> (res: SriBuilder)
        ensures
            res.integrity() == integrity,
            res.records() == Seq::<(SriKeyView, SriEntryView)>::empty(),
    {
        let res = SriBuilder { integrity, result: SriResult { integrities: Vec::new() } };
        assert(res.records() =~= Seq::<(SriKeyView, SriEntryView)>::empty());
        res
    }

    /// The records collected so far, without consuming the builder.
    pub fn result(&self) -> (res: &SriResult)
        ensures
            res@ == self.records(),
    {
        &self.result
    }

    /// The collected records.
    pub fn build(self) -> (res: SriResult)
        ensures
            res@ == self.records(),
    {
        self.result
    }

    /// Whether recording needs the content of the file: not when integrity is disabled.
    pub fn reads_source(&self) -> (res: bool)
        ensures
            res == (self.integrity() != IntegrityType::Disabled),
    {
        match self.integrity {
            IntegrityType::Disabled => false,
            _ => true,
        }
    }

    /// Record the file `name` for a preload link of kind `type`, with `source` the outcome of
    /// reading its content, which is read only when `reads_source` says so. With integrity
    /// disabled the source is not looked at and an empty digest is recorded; otherwise a read
    /// error is handed back with nothing recorded. A record with that kind and name is replaced
    /// in place, otherwise one is appended.
    pub fn record<E>(&mut self, kind: SriType, name: &str, options: SriOptions, source: Result<&[u8], E>) -> (res: Result<(), E>)
        ensures
            final(self).integrity() == old(self).integrity(),
            old(self).integrity() == IntegrityType::Disabled ==> res is Ok && final(self).records() == upsert(
                old(self).records(),
                (kind, name@),
                (IntegrityType::Disabled, Seq::<u8>::empty(), options@),
            ),
            old(self).integrity() != IntegrityType::Disabled ==> match source {
                Ok(data) => res is Ok && final(self).records() == upsert(
                    old(self).records(),
                    (kind, name@),
                    (old(self).integrity(), digest_of(old(self).integrity(), data@), options@),
                ),
                Err(e) => res == Err::<(), E>(e) && final(self).records() == old(self).records(),
            },
    {
        let digest = match self.integrity {
            IntegrityType::Disabled => OutputDigest::generate_from(IntegrityType::Disabled, &[]),
            _ => match source {
                Ok(data) => OutputDigest::generate_from(self.integrity, data),
                Err(e) => return Err(e),
            },
        };
        self.upsert_digest(kind, name, options, digest);
        Ok(())
    }

    /// Record the digest for the file `name` and kind `type`, replacing a record with that key.
    fn upsert_digest(&mut self, kind: SriType, name: &str, options: SriOptions, digest: OutputDigest)
        ensures
            final(self).integrity() == old(self).integrity(),
            final(self).records() == upsert(
                old(self).records(),
                (kind, name@),
                (digest.integrity, digest.hash@, options@),
            ),
    {
        let ghost kv = (kind, name@);
        let ghost ev = (digest.integrity, digest.hash@, options@);
        let ghost s = self.result@;
        let key = SriKey { kind, name: to_owned_string(name) };
        let entry = SriEntry { digest, options };
        assert(record_view((key, entry)) == (kv, ev));
        let mut i: usize = 0;
        let len = self.result.integrities.len();
        let mut found = false;
        while i < len
            invariant_except_break
                i <= len,
                !found,
            invariant
                len == self.result.integrities.len(),
                s == self.result@,
                kv == (kind, name@),
                forall|j: int| 0 <= j < i ==> (#[trigger] s[j]).0 != kv,
            ensures
                i <= len,
                found ==> i < len && s[i as int].0 == kv,
                !found ==> i == len,
            decreases len - i,
        {
            let hit = self.result.integrities[i].0.kind == kind && str_eq(
                self.result.integrities[i].0.name.as_str(),
                name,
            );
            assert(s[i as int] == record_view(self.result.integrities@[i as int]));
            if hit {
                found = true;
                break;
            }
            i = i + 1;
        }
        proof {
            lemma_key_index(s, kv, i as int);
        }
        if found {
            self.result.integrities.set(i, (key, entry));
        } else {
            self.result.integrities.push((key, entry));
        }
        assert(self.result@ =~= upsert(s, kv, ev));
    }
}

} // verus!
