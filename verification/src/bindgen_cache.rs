//! The cache of wasm-bindgen's outputs: the key of an invocation, whether a recorded run can be
//! reused, and what is recorded after a run.
//!
//! Hashes are SeaHashes in lower-case hexadecimal. Writing the fields one after another to a
//! streaming `seahash::SeaHasher` finishes with the hash of all bytes written (the crate's own
//! tests show that writes in chunks give the same hash, and that the streaming hasher agrees
//! with `seahash::hash` for the same seeds), so the fields are framed into one buffer here and
//! hashed with `seahash::hash`.
use crate::cargo_build::{seahash_hash, seahash_of, strs};
use crate::text::{has_prefix, lower_hex, starts_with, str_eq, to_owned_string, u64_to_lower_hex};
use crate::watch::{comps, path_components, path_eq, same_path};
use vstd::prelude::*;

verus! {

/// The eight little-endian bytes of `n` (`u64::to_le_bytes`).
#[verifier::opaque]
pub open spec fn le_bytes(n: u64) -> Seq<u8> {
    seq![
        (n % 256) as u8,
        ((n / 256) % 256) as u8,
        ((n / 65536) % 256) as u8,
        ((n / 16777216) % 256) as u8,
        ((n / 4294967296) % 256) as u8,
        ((n / 1099511627776) % 256) as u8,
        ((n / 281474976710656) % 256) as u8,
        ((n / 72057594037927936) % 256) as u8,
    ]
}

/// A field as it is hashed: its length as eight little-endian bytes, then its bytes.
pub open spec fn framed(value: Seq<u8>) -> Seq<u8> {
    le_bytes(value.len() as u64) + value
}

/// Append a field, framed by its length, to the bytes to hash.
pub fn hash_field(hasher: &mut Vec<u8>, value: &[u8])
    ensures
        final(hasher)@ == old(hasher)@ + framed(value@),
{
    let n: u64 = value.len() as u64;
    let ghost start = hasher@;
    hasher.push((n % 256) as u8);
    hasher.push(((n / 256) % 256) as u8);
    hasher.push(((n / 65536) % 256) as u8);
    hasher.push(((n / 16777216) % 256) as u8);
    hasher.push(((n / 4294967296) % 256) as u8);
    hasher.push(((n / 1099511627776) % 256) as u8);
    hasher.push(((n / 281474976710656) % 256) as u8);
    hasher.push(((n / 72057594037927936) % 256) as u8);
    let ghost bytes = le_bytes(n);
    proof {
        reveal(le_bytes);
    }
    assert(hasher@ =~= start + bytes);
    let mut i: usize = 0;
    while i < value.len()
        invariant
            i <= value.len(),
            bytes == le_bytes(value@.len() as u64),
            hasher@ == start + bytes + value@.subrange(0, i as int),
        decreases value.len() - i,
    {
        hasher.push(value[i]);
        assert(hasher@ =~= start + bytes + value@.subrange(0, i + 1));
        i = i + 1;
    }
    assert(value@.subrange(0, value@.len() as int) =~= value@);
}

/// The SeaHash of bytes in lower-case hexadecimal.
pub open spec fn hex_hash(data: Seq<u8>) -> Seq<char> {
    lower_hex(seahash_of(data) as nat)
}

/// The hash of a file's contents.
pub fn hash_bytes(data: &[u8]) -> (res: String)
    ensures
        res@ == hex_hash(data@),
{
    u64_to_lower_hex(seahash_hash(data))
}

/// The fields of a cache key, framed in turn.
pub open spec fn framed_all(fields: Seq<Seq<u8>>) -> Seq<u8>
    decreases fields.len(),
{
    if fields.len() == 0 {
        Seq::empty()
    } else {
        framed_all(fields.drop_last()) + framed(fields.last())
    }
}

/// The views of strings as bytes.
pub open spec fn arg_bytes(args: Seq<Vec<u8>>) -> Seq<Seq<u8>> {
    args.map_values(|a: Vec<u8>| a@)
}

/// The key of a wasm-bindgen invocation: the hash of the input's hash, the tool's hash and each
/// argument, framed in turn. `wasm_hash` and `tool_hash` are the hashes of the WASM input and of
/// the wasm-bindgen binary, and `args` the arguments as bytes.
pub fn cache_key(wasm_hash: &[u8], tool_hash: &[u8], args: &Vec<Vec<u8>>) -> (res: String)
    ensures
        res@ == hex_hash(framed_all(seq![wasm_hash@, tool_hash@] + arg_bytes(args@))),
{
    let mut buf: Vec<u8> = Vec::new();
    hash_field(&mut buf, wasm_hash);
    hash_field(&mut buf, tool_hash);
    let ghost head = seq![wasm_hash@, tool_hash@];
    assert(head.drop_last() =~= seq![wasm_hash@]);
    assert(seq![wasm_hash@].drop_last() =~= Seq::<Seq<u8>>::empty());
    assert(framed_all(seq![wasm_hash@]) == framed_all(Seq::<Seq<u8>>::empty()) + framed(wasm_hash@));
    assert(framed_all(head) == framed_all(seq![wasm_hash@]) + framed(tool_hash@));
    assert(buf@ =~= framed_all(head));
    let mut i: usize = 0;
    while i < args.len()
        invariant
            i <= args.len(),
            head == seq![wasm_hash@, tool_hash@],
            buf@ == framed_all(head + arg_bytes(args@).subrange(0, i as int)),
        decreases args.len() - i,
    {
        let ghost fields = head + arg_bytes(args@).subrange(0, i + 1);
        assert(fields.drop_last() =~= head + arg_bytes(args@).subrange(0, i as int));
        assert(fields.last() == args@[i as int]@);
        hash_field(&mut buf, args[i].as_slice());
        i = i + 1;
    }
    assert(arg_bytes(args@).subrange(0, args@.len() as int) =~= arg_bytes(args@));
    hash_bytes(buf.as_slice())
}

/// A recorded output: its path relative to the output directory, and its hash.
#[derive(Clone, Debug)]
pub struct CachedOutput {
    pub path: String,
    pub hash: String,
}

/// What is recorded after a wasm-bindgen run: its key and its outputs.
#[derive(Clone, Debug)]
pub struct CacheRecord {
    pub key: String,
    pub outputs: Vec<CachedOutput>,
}

/// A recorded path that stays inside the output directory: not empty, and relative with only
/// normal components (no `..`, no leading `.`).
pub open spec fn safe_path(p: Seq<char>) -> bool {
    &&& p.len() > 0
    &&& !has_prefix(p, "/"@)
    &&& !has_prefix(p, "./"@)
    &&& p != "."@
    &&& forall|i: int| 0 <= i < comps(p).len() ==> comps(p)[i] != ".."@
}

/// Whether a recorded path stays inside the output directory.
pub fn output_path_is_safe(path: &str) -> (res: bool)
    ensures
        res == safe_path(path@),
{
    if path.unicode_len() == 0 || starts_with(path, "/") || starts_with(path, "./") || str_eq(path, ".") {
        return false;
    }
    let cs = path_components(path);
    let ghost cv = cs@.map_values(|c: String| c@);
    let mut i: usize = 0;
    while i < cs.len()
        invariant
            i <= cs.len(),
            cv == cs@.map_values(|c: String| c@),
            cv == comps(path@),
            forall|j: int| 0 <= j < i ==> cv[j] != ".."@,
        decreases cs.len() - i,
    {
        if str_eq(cs[i].as_str(), "..") {
            assert(cv[i as int] == cs@[i as int]@);
            return false;
        }
        i = i + 1;
    }
    true
}

/// Whether a recorded path lies in the snippets directory (`Path::starts_with("snippets")`).
pub open spec fn in_snippets(p: Seq<char>) -> bool {
    !has_prefix(p, "/"@) && !has_prefix(p, "./"@) && p != "."@ && comps(p).len() > 0 && comps(p)[0] == "snippets"@
}

/// Whether a recorded path lies in the snippets directory.
pub fn is_snippet(path: &str) -> (res: bool)
    ensures
        res == in_snippets(path@),
{
    if starts_with(path, "/") || starts_with(path, "./") || str_eq(path, ".") {
        return false;
    }
    let cs = path_components(path);
    assert(cs@.map_values(|c: String| c@).len() == cs.len());
    if cs.len() == 0 {
        return false;
    }
    assert(cs@.map_values(|c: String| c@)[0] == cs@[0]@);
    str_eq(cs[0].as_str(), "snippets")
}

/// Whether some path in `ps` is the same path as `p`.
pub open spec fn has_same(ps: Seq<Seq<char>>, p: Seq<char>) -> bool {
    exists|i: int| 0 <= i < ps.len() && same_path(#[trigger] ps[i], p)
}

fn contains_same(ps: &Vec<String>, p: &str) -> (res: bool)
    ensures
        res == has_same(strs(ps@), p@),
{
    let mut i: usize = 0;
    while i < ps.len()
        invariant
            i <= ps.len(),
            forall|j: int| 0 <= j < i ==> !same_path(#[trigger] strs(ps@)[j], p@),
        decreases ps.len() - i,
    {
        if path_eq(ps[i].as_str(), p) {
            assert(strs(ps@)[i as int] == ps@[i as int]@);
            return true;
        }
        i = i + 1;
    }
    false
}

/// The recorded paths.
pub open spec fn recorded_paths(r: CacheRecord) -> Seq<Seq<char>> {
    r.outputs@.map_values(|o: CachedOutput| o.path@)
}

/// The recorded paths that lie in the snippets directory, in order.
pub open spec fn snippet_paths(rec: Seq<Seq<char>>) -> Seq<Seq<char>>
    decreases rec.len(),
{
    if rec.len() == 0 {
        Seq::empty()
    } else if in_snippets(rec.last()) {
        snippet_paths(rec.drop_last()).push(rec.last())
    } else {
        snippet_paths(rec.drop_last())
    }
}

/// Two collections of paths hold the same paths.
pub open spec fn same_paths(a: Seq<Seq<char>>, b: Seq<Seq<char>>) -> bool {
    (forall|i: int| 0 <= i < a.len() ==> has_same(b, #[trigger] a[i])) && (forall|i: int| 0 <= i < b.len() ==> has_same(a, #[trigger] b[i]))
}

/// Whether a record is for this key, records every required output (by its exact text), and
/// records the same snippet files as there are now. `snippets` are the files now in the
/// snippets directory, relative to the output directory.
pub open spec fn record_matches_spec(r: CacheRecord, key: Seq<char>, required: Seq<Seq<char>>, snippets: Seq<Seq<char>>) -> bool {
    let rec = recorded_paths(r);
    &&& r.key@ == key
    &&& forall|i: int| 0 <= i < required.len() ==> rec.contains(#[trigger] required[i])
    &&& same_paths(snippet_paths(rec), snippets)
}

fn recorded_contains(r: &CacheRecord, p: &str) -> (res: bool)
    ensures
        res == recorded_paths(*r).contains(p@),
{
    let ghost rec = recorded_paths(*r);
    let mut i: usize = 0;
    while i < r.outputs.len()
        invariant
            i <= r.outputs.len(),
            rec == recorded_paths(*r),
            forall|j: int| 0 <= j < i ==> rec[j] != p@,
        decreases r.outputs.len() - i,
    {
        if str_eq(r.outputs[i].path.as_str(), p) {
            assert(rec[i as int] == p@);
            return true;
        }
        i = i + 1;
    }
    false
}

fn all_have_same(a: &Vec<String>, b: &Vec<String>) -> (res: bool)
    ensures
        res == (forall|i: int| 0 <= i < a@.len() ==> has_same(strs(b@), #[trigger] strs(a@)[i])),
{
    let mut i: usize = 0;
    while i < a.len()
        invariant
            i <= a.len(),
            forall|j: int| 0 <= j < i ==> has_same(strs(b@), #[trigger] strs(a@)[j]),
        decreases a.len() - i,
    {
        if !contains_same(b, a[i].as_str()) {
            assert(strs(a@)[i as int] == a@[i as int]@);
            return false;
        }
        i = i + 1;
    }
    true
}

/// Whether a record can be reused, as far as its key, its required outputs and its snippets go;
/// its outputs are then checked one by one (`output_path_is_safe`, then `output_intact`).
pub fn record_matches(r: &CacheRecord, key: &str, required: &Vec<String>, snippets: &Vec<String>) -> (res: bool)
    ensures
        res == record_matches_spec(*r, key@, strs(required@), strs(snippets@)),
{
    let ghost rec = recorded_paths(*r);
    if !str_eq(r.key.as_str(), key) {
        return false;
    }
    let mut i: usize = 0;
    while i < required.len()
        invariant
            i <= required.len(),
            rec == recorded_paths(*r),
            forall|j: int| 0 <= j < i ==> rec.contains(#[trigger] strs(required@)[j]),
        decreases required.len() - i,
    {
        if !recorded_contains(r, required[i].as_str()) {
            assert(strs(required@)[i as int] == required@[i as int]@);
            return false;
        }
        i = i + 1;
    }
    let mut recorded_snippets: Vec<String> = Vec::new();
    let mut k: usize = 0;
    while k < r.outputs.len()
        invariant
            k <= r.outputs.len(),
            rec == recorded_paths(*r),
            strs(recorded_snippets@) == snippet_paths(rec.subrange(0, k as int)),
        decreases r.outputs.len() - k,
    {
        let ghost before = strs(recorded_snippets@);
        assert(rec.subrange(0, k + 1).drop_last() =~= rec.subrange(0, k as int));
        assert(rec.subrange(0, k + 1).last() == r.outputs@[k as int].path@);
        if is_snippet(r.outputs[k].path.as_str()) {
            recorded_snippets.push(r.outputs[k].path.clone());
            assert(strs(recorded_snippets@) =~= before.push(r.outputs@[k as int].path@));
        }
        k = k + 1;
    }
    assert(rec.subrange(0, rec.len() as int) =~= rec);
    all_have_same(&recorded_snippets, snippets) && all_have_same(snippets, &recorded_snippets)
}

/// Whether a recorded output is intact: it exists now (`current` is its hash then) and has
/// the recorded hash.
pub fn output_intact(recorded_hash: &str, current: &Option<String>) -> (res: bool)
    ensures
        res == (current matches Some(h) && h@ == recorded_hash@),
{
    match current {
        Some(h) => str_eq(h.as_str(), recorded_hash),
        None => false,
    }
}

/// A required output that a run did not produce.
#[derive(Clone, Debug)]
pub struct MissingOutput {
    pub path: String,
}

impl MissingOutput {
    /// The error message.
    pub fn to_string(&self) -> (res: String)
        ensures
            res@ == "required wasm-bindgen output '"@ + self.path@ + "' was not generated"@,
    {
        let mut s = to_owned_string("required wasm-bindgen output '");
        s.append(self.path.as_str());
        s.append("' was not generated");
        s
    }
}

/// The record of a run: `outputs` are the files it produced (sorted, relative to the output
/// directory, with their hashes); the first required output that is not among them, by its
/// exact text, is refused.
pub fn make_record(key: String, outputs: Vec<CachedOutput>, required: &Vec<String>) -> (res: Result<CacheRecord, MissingOutput>)
    ensures
        (res is Ok) == (forall|i: int| 0 <= i < required@.len() ==> outputs@.map_values(|o: CachedOutput| o.path@).contains(#[trigger] strs(required@)[i])),
        res matches Ok(r) ==> r.key@ == key@ && r.outputs@ == outputs@,
        res matches Err(e) ==> exists|i: int| 0 <= i < required@.len() && e.path@ == required@[i]@
            && !outputs@.map_values(|o: CachedOutput| o.path@).contains(required@[i]@),
{
    let mut i: usize = 0;
    while i < required.len()
        invariant
            i <= required.len(),
            forall|j: int| 0 <= j < i ==> outputs@.map_values(|o: CachedOutput| o.path@).contains(#[trigger] strs(required@)[j]),
        decreases required.len() - i,
    {
        if !outputs_contain(&outputs, required[i].as_str()) {
            assert(strs(required@)[i as int] == required@[i as int]@);
            let p = required[i].clone();
            return Err(MissingOutput { path: p });
        }
        i = i + 1;
    }
    Ok(CacheRecord { key, outputs })
}

fn outputs_contain(outputs: &Vec<CachedOutput>, p: &str) -> (res: bool)
    ensures
        res == outputs@.map_values(|o: CachedOutput| o.path@).contains(p@),
{
    let ghost rec = outputs@.map_values(|o: CachedOutput| o.path@);
    let mut i: usize = 0;
    while i < outputs.len()
        invariant
            i <= outputs.len(),
            rec == outputs@.map_values(|o: CachedOutput| o.path@),
            forall|j: int| 0 <= j < i ==> rec[j] != p@,
        decreases outputs.len() - i,
    {
        if str_eq(outputs[i].path.as_str(), p) {
            assert(rec[i as int] == p@);
            return true;
        }
        i = i + 1;
    }
    false
}


/// Whether a recorded output can be reused: its path stays inside the output directory, and
/// the file there exists now (`current` is its hash then) with the recorded hash.
pub open spec fn output_reusable(o: CachedOutput, current: Option<String>) -> bool {
    safe_path(o.path@) && (current matches Some(h) && h@ == o.hash@)
}

/// Whether a recorded run can be reused: the record matches (`record_matches_spec`) and every
/// recorded output is reusable. `current[i]` is the hash of the file of the i-th recorded output
/// as it is now, `None` when it does not exist; it need only be read for a safe path.
pub fn record_is_valid(
    r: &CacheRecord,
    key: &str,
    required: &Vec<String>,
    snippets: &Vec<String>,
    current: &Vec<Option<String>>,
) -> (res: bool)
    requires
        current@.len() == r.outputs@.len(),
    ensures
        res == (record_matches_spec(*r, key@, strs(required@), strs(snippets@)) && forall|i: int|
            0 <= i < r.outputs@.len() ==> output_reusable(#[trigger] r.outputs@[i], current@[i])),
{
    if !record_matches(r, key, required, snippets) {
        return false;
    }
    let mut i: usize = 0;
    while i < r.outputs.len()
        invariant
            i <= r.outputs.len(),
            current@.len() == r.outputs@.len(),
            forall|j: int| 0 <= j < i ==> output_reusable(#[trigger] r.outputs@[j], current@[j]),
        decreases r.outputs.len() - i,
    {
        let o = &r.outputs[i];
        if !output_path_is_safe(o.path.as_str()) {
            return false;
        }
        if !output_intact(o.hash.as_str(), &current[i]) {
            return false;
        }
        i = i + 1;
    }
    true
}


/// Two numbers with the same little-endian bytes are equal.
proof fn lemma_le_bytes_injective(a: u64, b: u64)
    requires
        le_bytes(a) == le_bytes(b),
    ensures
        a == b,
{
    reveal(le_bytes);
    assert(le_bytes(a)[0] == le_bytes(b)[0]);
    assert(le_bytes(a)[1] == le_bytes(b)[1]);
    assert(le_bytes(a)[2] == le_bytes(b)[2]);
    assert(le_bytes(a)[3] == le_bytes(b)[3]);
    assert(le_bytes(a)[4] == le_bytes(b)[4]);
    assert(le_bytes(a)[5] == le_bytes(b)[5]);
    assert(le_bytes(a)[6] == le_bytes(b)[6]);
    assert(le_bytes(a)[7] == le_bytes(b)[7]);
    assert(a % 256u64 == b % 256u64);
    assert((a / 256u64) % 256u64 == (b / 256u64) % 256u64);
    assert((a / 65536u64) % 256u64 == (b / 65536u64) % 256u64);
    assert((a / 16777216u64) % 256u64 == (b / 16777216u64) % 256u64);
    assert((a / 4294967296u64) % 256u64 == (b / 4294967296u64) % 256u64);
    assert((a / 1099511627776u64) % 256u64 == (b / 1099511627776u64) % 256u64);
    assert((a / 281474976710656u64) % 256u64 == (b / 281474976710656u64) % 256u64);
    assert((a / 72057594037927936u64) % 256u64 == (b / 72057594037927936u64) % 256u64);
    assert(a == b) by (bit_vector)
        requires
            a % 256u64 == b % 256u64,
            (a / 256u64) % 256u64 == (b / 256u64) % 256u64,
            (a / 65536u64) % 256u64 == (b / 65536u64) % 256u64,
            (a / 16777216u64) % 256u64 == (b / 16777216u64) % 256u64,
            (a / 4294967296u64) % 256u64 == (b / 4294967296u64) % 256u64,
            (a / 1099511627776u64) % 256u64 == (b / 1099511627776u64) % 256u64,
            (a / 281474976710656u64) % 256u64 == (b / 281474976710656u64) % 256u64,
            (a / 72057594037927936u64) % 256u64 == (b / 72057594037927936u64) % 256u64,
    {
    }
}

/// A number has eight little-endian bytes.
proof fn lemma_le_bytes_len(n: u64)
    ensures
        le_bytes(n).len() == 8,
{
    reveal(le_bytes);
}

/// The framing of fields, read from the first field on.
proof fn lemma_framed_all_front(f: Seq<Seq<u8>>)
    requires
        f.len() > 0,
    ensures
        framed_all(f) == framed(f[0]) + framed_all(f.drop_first()),
    decreases f.len(),
{
    if f.len() == 1 {
        assert(f.drop_last() =~= Seq::<Seq<u8>>::empty());
        assert(f.drop_first() =~= Seq::<Seq<u8>>::empty());
        assert(framed_all(f) =~= framed(f[0]));
    } else {
        lemma_framed_all_front(f.drop_last());
        assert(f.drop_last().drop_first() =~= f.drop_first().drop_last());
        assert(f.drop_first().last() == f.last());
        assert(f.drop_last()[0] == f[0]);
        assert(framed_all(f) =~= framed(f[0]) + framed_all(f.drop_first()));
    }
}

/// The fields can be read back from their framing: fields that frame to the same bytes are the
/// same fields, so two invocations whose fields (input hash, tool hash, arguments) differ hash
/// different bytes for their keys.
pub proof fn law_framing_is_unambiguous(f1: Seq<Seq<u8>>, f2: Seq<Seq<u8>>)
    requires
        forall|i: int| 0 <= i < f1.len() ==> (#[trigger] f1[i]).len() <= u64::MAX,
        forall|i: int| 0 <= i < f2.len() ==> (#[trigger] f2[i]).len() <= u64::MAX,
        framed_all(f1) == framed_all(f2),
    ensures
        f1 == f2,
    decreases f1.len(),
{
    if f1.len() == 0 && f2.len() == 0 {
        assert(f1 =~= f2);
    } else if f1.len() == 0 {
        lemma_framed_all_front(f2);
        lemma_le_bytes_len(f2[0].len() as u64);
        assert(framed_all(f2).len() >= 8);
    } else if f2.len() == 0 {
        lemma_framed_all_front(f1);
        lemma_le_bytes_len(f1[0].len() as u64);
        assert(framed_all(f1).len() >= 8);
    } else {
        lemma_framed_all_front(f1);
        lemma_framed_all_front(f2);
        let s = framed_all(f1);
        let a = f1[0];
        let b = f2[0];
        assert(a.len() <= u64::MAX && b.len() <= u64::MAX);
        lemma_le_bytes_len(a.len() as u64);
        lemma_le_bytes_len(b.len() as u64);
        assert(s.subrange(0, 8) =~= le_bytes(a.len() as u64));
        assert(s.subrange(0, 8) =~= le_bytes(b.len() as u64));
        lemma_le_bytes_injective(a.len() as u64, b.len() as u64);
        assert(a.len() == b.len());
        let n = a.len() as int;
        assert(s.subrange(8, 8 + n) =~= a);
        assert(s.subrange(8, 8 + n) =~= b);
        assert(s.subrange(8 + n, s.len() as int) =~= framed_all(f1.drop_first()));
        assert(s.subrange(8 + n, s.len() as int) =~= framed_all(f2.drop_first()));
        assert forall|i: int| 0 <= i < f1.drop_first().len() implies (#[trigger] f1.drop_first()[i]).len() <= u64::MAX by {
            assert(f1.drop_first()[i] == f1[i + 1]);
        }
        assert forall|i: int| 0 <= i < f2.drop_first().len() implies (#[trigger] f2.drop_first()[i]).len() <= u64::MAX by {
            assert(f2.drop_first()[i] == f2[i + 1]);
        }
        law_framing_is_unambiguous(f1.drop_first(), f2.drop_first());
        assert(f1 =~= seq![a] + f1.drop_first());
        assert(f2 =~= seq![b] + f2.drop_first());
    }
}

} // verus!
