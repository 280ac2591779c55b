//! Build-time pre-compression of the staged assets into sidecar files (`app.js` ->
//! `app.js.gz`, `app.js.br`): which files get which sidecar, and which sidecars are kept.
//!
//! Walking the directory, reading, encoding and writing are done by the caller; every decision
//! in between is made here.
use crate::paths::{extension, extension_of};
use crate::compress::{gzip_encode, gzip_encoded};
use crate::text::{str_eq, to_owned_string};
use vstd::prelude::*;

verus! {

/// An algorithm that writes a sidecar.
#[derive(PartialEq, Eq, Debug, Clone, Copy, Structural)]
pub enum CompressionAlgorithm {
    Gzip,
    Brotli,
}

/// The file extension of an algorithm's sidecars.
pub open spec fn algorithm_extension(a: CompressionAlgorithm) -> Seq<char> {
    match a {
        CompressionAlgorithm::Gzip => "gz"@,
        CompressionAlgorithm::Brotli => "br"@,
    }
}

impl CompressionAlgorithm {
    /// The file extension of this algorithm's sidecars.
    pub fn extension(&self) -> (res: &'static str)
        ensures
            res@ == algorithm_extension(*self),
    {
        match self {
            CompressionAlgorithm::Gzip => "gz",
            CompressionAlgorithm::Brotli => "br",
        }
    }
}

/// How hard to compress.
#[derive(PartialEq, Eq, Debug, Clone, Copy, Structural)]
pub enum CompressionLevel {
    Low,
    Medium,
    High,
}

/// The gzip (DEFLATE) level, 0 to 9, of a compression level.
pub open spec fn gzip_level_of(l: CompressionLevel) -> u32 {
    match l {
        CompressionLevel::Low => 1,
        CompressionLevel::Medium => 6,
        CompressionLevel::High => 9,
    }
}

/// The brotli quality, 0 to 11, of a compression level.
pub open spec fn brotli_quality_of(l: CompressionLevel) -> u32 {
    match l {
        CompressionLevel::Low => 2,
        CompressionLevel::Medium => 5,
        CompressionLevel::High => 11,
    }
}

/// The gzip (DEFLATE) level of a compression level.
pub fn gzip_level(level: CompressionLevel) -> (res: u32)
    ensures
        res == gzip_level_of(level),
        res <= 9,
{
    match level {
        CompressionLevel::Low => 1,
        CompressionLevel::Medium => 6,
        CompressionLevel::High => 9,
    }
}

/// The brotli quality of a compression level.
pub fn brotli_quality(level: CompressionLevel) -> (res: u32)
    ensures
        res == brotli_quality_of(level),
        res <= 11,
{
    match level {
        CompressionLevel::Low => 2,
        CompressionLevel::Medium => 5,
        CompressionLevel::High => 11,
    }
}

/// The path of a sidecar: the original path, a dot and the extension.
pub fn sidecar_path(path: &str, ext: &str) -> (res: String)
    ensures
        res@ == path@ + "."@ + ext@,
{
    let mut s = to_owned_string(path);
    s.append(".");
    s.append(ext);
    s
}

/// Whether a path has the extension of a sidecar.
pub open spec fn is_sidecar_spec(path: Seq<char>) -> bool {
    extension_of(path) == Some("gz"@) || extension_of(path) == Some("br"@)
}

/// Whether the path already looks like a sidecar written by this step.
pub fn is_sidecar(path: &str) -> (res: bool)
    ensures
        res == is_sidecar_spec(path@),
{
    match extension(path) {
        Some(e) => str_eq(e.as_str(), "gz") || str_eq(e.as_str(), "br"),
        None => false,
    }
}

/// The compression settings of a build.
#[derive(Debug, Clone)]
pub struct CompressionConfig {
    /// The algorithms, each of which writes its own sidecar.
    pub algorithms: Vec<CompressionAlgorithm>,
    pub level: CompressionLevel,
    /// Files smaller than this many bytes are not compressed.
    pub min_size: u64,
    /// A sidecar is kept only if its size is at most this percentage of the original.
    pub min_ratio_percent: u8,
    /// When given, only the files that one of these glob patterns matches are compressed.
    pub include_globs: Option<Vec<String>>,
    /// When given, the files that one of these glob patterns matches are not compressed.
    pub exclude_globs: Option<Vec<String>>,
}

/// Whether the glob pattern matches the path: the pattern parsed (`globset::Glob::new`) and
/// built into a set of its own (`GlobSetBuilder::build`), then `GlobSet::is_match`. A pattern
/// that does not parse, or whose matcher cannot be built, matches nothing.
pub uninterp spec fn glob_matches(pattern: Seq<char>, path: Seq<char>) -> bool;

/// `globset::Glob::new` on the pattern, `GlobSetBuilder::add` and `build`, then
/// `GlobSet::is_match` on the path; `false` when parsing or building fails (`build` reports a
/// regex it cannot compile as an error rather than panicking). Patterns of a gibibyte or more
/// are left out: for them the literal matcher that `build` unwraps (`AhoCorasick::new`) could
/// run out of state identifiers.
#[verifier::external_body]
fn glob_is_match(pattern: &str, path: &str) -> (res: bool)
    requires
        vstd::utf8::encode_utf8(pattern@).len() < glob_size_limit(),
    ensures
        res == glob_matches(pattern@, path@),
{
    let mut builder = globset::GlobSetBuilder::new();
    match globset::Glob::new(pattern) {
        Ok(g) => builder.add(g),
        Err(_) => return false,
    };
    match builder.build() {
        Ok(set) => set.is_match(path),
        Err(_) => false,
    }
}

/// The size, in bytes, from which a glob pattern matches nothing.
pub open spec fn glob_size_limit() -> nat {
    0x4000_0000
}

/// Whether a pattern, shorter than the limit, matches the path.
pub open spec fn pattern_matches(pattern: String, path: Seq<char>) -> bool {
    vstd::utf8::encode_utf8(pattern@).len() < glob_size_limit() && glob_matches(pattern@, path)
}

/// Whether one of the patterns matches the path (what a `GlobSet` of them answers).
pub open spec fn any_glob_matches(patterns: Seq<String>, path: Seq<char>) -> bool {
    exists|i: int| 0 <= i < patterns.len() && pattern_matches(#[trigger] patterns[i], path)
}

/// Whether the inclusion and exclusion patterns select a path relative to the staging directory:
/// it is included (or no inclusion patterns are given) and not excluded.
pub open spec fn config_selects(include_globs: Option<Vec<String>>, exclude_globs: Option<Vec<String>>, rel: Seq<char>) -> bool {
    &&& match include_globs {
        Some(p) => any_glob_matches(p@, rel),
        None => true,
    }
    &&& match exclude_globs {
        Some(p) => !any_glob_matches(p@, rel),
        None => true,
    }
}

fn any_match(patterns: &Vec<String>, path: &str) -> (res: bool)
    ensures
        res == any_glob_matches(patterns@, path@),
{
    let mut i: usize = 0;
    while i < patterns.len()
        invariant
            i <= patterns.len(),
            forall|j: int| 0 <= j < i ==> !pattern_matches(#[trigger] patterns@[j], path@),
        decreases patterns.len() - i,
    {
        let pattern = patterns[i].as_str();
        let size = pattern.as_bytes().len();
        assert(pattern@ == patterns@[i as int]@);
        if size < 0x4000_0000 && glob_is_match(pattern, path) {
            return true;
        }
        i = i + 1;
    }
    false
}

impl CompressionConfig {
    /// Whether the inclusion and exclusion patterns select the path, relative to the staging
    /// directory.
    pub fn matches(&self, rel: &str) -> (res: bool)
        ensures
            res == config_selects(self.include_globs, self.exclude_globs, rel@),
    {
        let included = match &self.include_globs {
            Some(p) => any_match(p, rel),
            None => true,
        };
        let excluded = match &self.exclude_globs {
            Some(p) => any_match(p, rel),
            None => false,
        };
        included && !excluded
    }

    /// Whether any algorithm is configured.
    pub fn enabled(&self) -> (res: bool)
        ensures
            res == (self.algorithms.len() > 0),
    {
        self.algorithms.len() > 0
    }
}

/// One algorithm applied to one file.
#[derive(Debug, Clone)]
pub struct Job {
    /// The file to compress.
    pub src: String,
    /// The sidecar to write.
    pub sidecar: String,
    /// A short label: the extension and the path relative to the staging directory.
    pub label: String,
    /// The size of the original file.
    pub size: u64,
    pub algorithm: CompressionAlgorithm,
    pub level: CompressionLevel,
    pub min_ratio_percent: u8,
}

/// Whether a directory entry is compressed at all: a regular file that is no sidecar, that the
/// inclusion and exclusion patterns select, and that is at least the minimum size.
pub open spec fn selected(path: Seq<char>, is_file: bool, matches: bool, size: u64, min_size: u64) -> bool {
    is_file && !is_sidecar_spec(path) && matches && size >= min_size
}

/// The job of one algorithm on one file.
pub open spec fn job_matches(j: Job, path: Seq<char>, rel: Seq<char>, size: u64, a: CompressionAlgorithm, cfg: CompressionConfig) -> bool {
    &&& j.src@ == path
    &&& j.sidecar@ == path + "."@ + algorithm_extension(a)
    &&& j.label@ == algorithm_extension(a) + " "@ + rel
    &&& j.size == size
    &&& j.algorithm == a
    &&& j.level == cfg.level
    &&& j.min_ratio_percent == cfg.min_ratio_percent
}

/// The jobs for one directory entry of the staging directory: none if it is not selected,
/// otherwise one per configured algorithm, in the configured order. `path` is the entry's path,
/// `rel` the same relative to the staging directory, and `matches` whether the inclusion and
/// exclusion patterns select `rel`.
pub fn jobs_for_entry(
    cfg: &CompressionConfig,
    path: &str,
    rel: &str,
    is_file: bool,
    matches: bool,
    size: u64,
) -> (res: Vec<Job>)
    ensures
        !selected(path@, is_file, matches, size, cfg.min_size) ==> res.len() == 0,
        selected(path@, is_file, matches, size, cfg.min_size) ==> {
            &&& res.len() == cfg.algorithms.len()
            &&& forall|i: int| 0 <= i < res.len() ==> job_matches(#[trigger] res[i], path@, rel@, size, cfg.algorithms[i], *cfg)
        },
{
    let mut jobs: Vec<Job> = Vec::new();
    if !is_file || is_sidecar(path) || !matches || size < cfg.min_size {
        return jobs;
    }
    let mut i: usize = 0;
    while i < cfg.algorithms.len()
        invariant
            i <= cfg.algorithms.len(),
            jobs.len() == i,
            forall|k: int| 0 <= k < i ==> job_matches(#[trigger] jobs[k], path@, rel@, size, cfg.algorithms[k], *cfg),
        decreases cfg.algorithms.len() - i,
    {
        let a = cfg.algorithms[i];
        let ext = a.extension();
        let mut label = to_owned_string(ext);
        label.append(" ");
        label.append(rel);
        let job = Job {
            src: to_owned_string(path),
            sidecar: sidecar_path(path, ext),
            label,
            size,
            algorithm: a,
            level: cfg.level,
            min_ratio_percent: cfg.min_ratio_percent,
        };
        jobs.push(job);
        i = i + 1;
    }
    jobs
}

/// The largest sidecar that is kept for an original of `len` bytes.
pub open spec fn max_sidecar_size(len: int, min_ratio_percent: int) -> int {
    len * min_ratio_percent / 100
}

/// The bytes saved by a sidecar: the original's size less the sidecar's, none when the sidecar
/// is the larger (which a ratio above 100 percent lets through).
pub open spec fn saved_bytes(original_len: int, compressed_len: int) -> int {
    if compressed_len <= original_len {
        original_len - compressed_len
    } else {
        0
    }
}

/// What a finished job amounts to: `(1, bytes saved)` when the sidecar of `compressed_len` bytes
/// is small enough to be written, `(0, 0)` when it is dropped.
pub fn job_outcome(original_len: usize, compressed_len: usize, min_ratio_percent: u8) -> (res: (usize, u64))
    requires
        original_len * min_ratio_percent <= usize::MAX,
    ensures
        compressed_len > max_sidecar_size(original_len as int, min_ratio_percent as int) ==> res == (0usize, 0u64),
        compressed_len <= max_sidecar_size(original_len as int, min_ratio_percent as int) ==> res.0 == 1
            && res.1 == saved_bytes(original_len as int, compressed_len as int),
{
    let product: usize = original_len * (min_ratio_percent as usize);
    let max_size: usize = product / 100;
    if compressed_len > max_size {
        return (0, 0);
    }
    let saved: usize = if compressed_len <= original_len { original_len - compressed_len } else { 0 };
    (1, saved as u64)
}


/// The gzip sidecar of a file's contents at a compression level.
pub fn gzip_sidecar(data: &[u8], level: CompressionLevel) -> (res: Vec<u8>)
    ensures
        res@ == gzip_encoded(data@, gzip_level_of(level)),
{
    gzip_encode(data, gzip_level(level))
}

/// The size of the chunks fed to the encoders, which is also brotli's buffer size.
pub open spec fn chunk_size() -> usize {
    262144
}

/// Brotli's window size (`lgwin`), the library's default.
pub open spec fn brotli_window() -> u32 {
    22
}

/// What `brotli::CompressorWriter` writes into a vector for the data, with the buffer size, the
/// quality and the window size given.
pub uninterp spec fn brotli_encoded(data: Seq<u8>, buffer_size: usize, quality: u32, lgwin: u32) -> Seq<u8>;

/// `brotli::CompressorWriter::new` on a vector, the data written whole, then `into_inner`.
/// Writing into a vector does not fail.
#[verifier::external_body]
fn brotli_encode(data: &[u8], buffer_size: usize, quality: u32, lgwin: u32) -> (res: Vec<u8>)
    requires
        quality <= 11,
        10 <= lgwin <= 24,
    ensures
        res@ == brotli_encoded(data@, buffer_size, quality, lgwin),
{
    let mut e = brotli::CompressorWriter::new(Vec::new(), buffer_size, quality, lgwin);
    let _ = std::io::Write::write_all(&mut e, data);
    e.into_inner()
}

/// The sidecar that an algorithm writes for the contents at a compression level.
pub open spec fn sidecar_of(a: CompressionAlgorithm, data: Seq<u8>, level: CompressionLevel) -> Seq<u8> {
    match a {
        CompressionAlgorithm::Gzip => gzip_encoded(data, gzip_level_of(level)),
        CompressionAlgorithm::Brotli => brotli_encoded(data, chunk_size(), brotli_quality_of(level), brotli_window()),
    }
}

/// Compress the contents with the algorithm at the level.
pub fn encode(algorithm: CompressionAlgorithm, level: CompressionLevel, data: &[u8]) -> (res: Vec<u8>)
    ensures
        res@ == sidecar_of(algorithm, data@, level),
{
    match algorithm {
        CompressionAlgorithm::Gzip => gzip_encode(data, gzip_level(level)),
        CompressionAlgorithm::Brotli => brotli_encode(data, 262144, brotli_quality(level), 22),
    }
}

/// A job on the contents `data`: the sidecar to write when it is small enough, and what the job
/// amounts to (as `job_outcome` gives it).
pub fn run_job(data: &[u8], algorithm: CompressionAlgorithm, level: CompressionLevel, min_ratio_percent: u8) -> (res: (
    Option<Vec<u8>>,
    (usize, u64),
))
    requires
        data@.len() * min_ratio_percent <= usize::MAX,
    ensures
        ({
            let c = sidecar_of(algorithm, data@, level);
            if c.len() > max_sidecar_size(data@.len() as int, min_ratio_percent as int) {
                res.0 is None && res.1 == (0usize, 0u64)
            } else {
                res.0 matches Some(v) && v@ == c && res.1.0 == 1 && res.1.1 == saved_bytes(
                    data@.len() as int,
                    c.len() as int,
                )
            }
        }),
{
    let compressed = encode(algorithm, level, data);
    let outcome = job_outcome(data.len(), compressed.len(), min_ratio_percent);
    if outcome.0 == 1 {
        (Some(compressed), outcome)
    } else {
        (None, outcome)
    }
}

/// The sum of the first entries of the outcomes.
pub open spec fn written_total(r: Seq<(usize, u64)>) -> int
    decreases r.len(),
{
    if r.len() == 0 {
        0
    } else {
        written_total(r.drop_last()) + r.last().0
    }
}

/// The sum of the second entries of the outcomes.
pub open spec fn saved_total(r: Seq<(usize, u64)>) -> int
    decreases r.len(),
{
    if r.len() == 0 {
        0
    } else {
        saved_total(r.drop_last()) + r.last().1
    }
}

/// The number of sidecars written and the bytes saved over all jobs.
pub fn totals(results: &Vec<(usize, u64)>) -> (res: (usize, u64))
    requires
        written_total(results@) <= usize::MAX,
        saved_total(results@) <= u64::MAX,
    ensures
        res.0 == written_total(results@),
        res.1 == saved_total(results@),
{
    let mut written: usize = 0;
    let mut saved: u64 = 0;
    let mut i: usize = 0;
    proof {
        lemma_totals_monotone(results@);
    }
    while i < results.len()
        invariant
            i <= results.len(),
            written == written_total(results@.subrange(0, i as int)),
            saved == saved_total(results@.subrange(0, i as int)),
            written_total(results@) <= usize::MAX,
            saved_total(results@) <= u64::MAX,
            forall|k: int| 0 <= k <= results@.len() ==> written_total(#[trigger] results@.subrange(0, k)) <= written_total(results@)
                && saved_total(results@.subrange(0, k)) <= saved_total(results@),
        decreases results.len() - i,
    {
        assert(results@.subrange(0, i + 1).drop_last() =~= results@.subrange(0, i as int));
        assert(results@.subrange(0, i + 1).last() == results@[i as int]);
        assert(written_total(results@.subrange(0, i + 1)) <= written_total(results@));
        written = written + results[i].0;
        saved = saved + results[i].1;
        i = i + 1;
    }
    assert(results@.subrange(0, results@.len() as int) =~= results@);
    (written, saved)
}

/// The sums over a prefix are at most the sums over the whole.
proof fn lemma_totals_monotone(r: Seq<(usize, u64)>)
    ensures
        forall|j: int| 0 <= j <= r.len() ==> written_total(#[trigger] r.subrange(0, j)) <= written_total(r)
            && saved_total(r.subrange(0, j)) <= saved_total(r),
    decreases r.len(),
{
    if r.len() > 0 {
        lemma_totals_monotone(r.drop_last());
        assert forall|j: int| 0 <= j <= r.len() implies written_total(#[trigger] r.subrange(0, j)) <= written_total(r)
            && saved_total(r.subrange(0, j)) <= saved_total(r) by {
            if j < r.len() {
                assert(r.subrange(0, j) =~= r.drop_last().subrange(0, j));
            } else {
                assert(r.subrange(0, j) =~= r);
            }
        }
    }
}

} // verus!
