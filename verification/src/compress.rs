//! Compression settings of the Rust pipeline's compressed outputs: the algorithm and its level.
use crate::text::{chars_of, to_owned_string};
use vstd::prelude::*;

verus! {

/// The ASCII lower-case form of `c`.
pub open spec fn ascii_lower(c: char) -> char {
    if 'A' <= c && c <= 'Z' {
        ((c as u32) + 32) as char
    } else {
        c
    }
}

/// Whether `s` equals the lower-case ASCII word `t` once lower-cased. For such a `t`, lower-casing
/// with `str::to_lowercase` first gives the same answer: no character outside ASCII lower-cases
/// to a lone ASCII letter or `-` of these words.
pub open spec fn lower_eq(s: Seq<char>, t: Seq<char>) -> bool {
    s.len() == t.len() && forall|i: int| 0 <= i < s.len() ==> ascii_lower(#[trigger] s[i]) == t[i]
}

fn lower_char(c: char) -> (res: char)
    ensures
        res == ascii_lower(c),
{
    if 'A' <= c && c <= 'Z' {
        let n: u8 = ((c as u32) + 32) as u8;
        n as char
    } else {
        c
    }
}

/// Whether `s` lower-cases to `t`.
pub fn lower_equals(s: &str, t: &str) -> (res: bool)
    ensures
        res == lower_eq(s@, t@),
{
    let sv = chars_of(s);
    let tv = chars_of(t);
    if sv.len() != tv.len() {
        return false;
    }
    let mut i: usize = 0;
    while i < sv.len()
        invariant
            sv@ == s@,
            tv@ == t@,
            sv.len() == tv.len(),
            i <= sv.len(),
            forall|j: int| 0 <= j < i ==> ascii_lower(#[trigger] sv@[j]) == tv@[j],
        decreases sv.len() - i,
    {
        if lower_char(sv[i]) != tv[i] {
            return false;
        }
        i = i + 1;
    }
    true
}

/// The algorithms for compressing the Rust pipeline's outputs.
#[derive(PartialEq, Eq, Debug, Clone, Copy, Structural)]
pub enum CompressionAlgorithm {
    Gzip,
    Zlib,
    Deflate,
}

/// The name of an algorithm in the `Content-Encoding` sense.
pub open spec fn algorithm_name(a: CompressionAlgorithm) -> Seq<char> {
    match a {
        CompressionAlgorithm::Gzip => "gzip"@,
        CompressionAlgorithm::Zlib => "deflate"@,
        CompressionAlgorithm::Deflate => "deflate-raw"@,
    }
}

/// The algorithm that a name denotes, whatever its case.
pub open spec fn parse_algorithm(s: Seq<char>) -> Option<CompressionAlgorithm> {
    if lower_eq(s, "gzip"@) {
        Some(CompressionAlgorithm::Gzip)
    } else if lower_eq(s, "deflate"@) {
        Some(CompressionAlgorithm::Zlib)
    } else if lower_eq(s, "deflate-raw"@) {
        Some(CompressionAlgorithm::Deflate)
    } else {
        None
    }
}

/// An algorithm name that is not known.
#[derive(Debug, Clone)]
pub struct UnknownAlgorithm {
    pub value: String,
}

impl UnknownAlgorithm {
    /// The error message.
    pub fn to_string(&self) -> (res: String)
        ensures
            res@ == "unknown compression algorithm `"@ + self.value@ + "`"@,
    {
        let mut s = to_owned_string("unknown compression algorithm `");
        s.append(self.value.as_str());
        s.append("`");
        s
    }
}

impl Default for CompressionAlgorithm {
    fn default() -> (res: CompressionAlgorithm)
        ensures
            res == CompressionAlgorithm::Gzip,
    {
        CompressionAlgorithm::Gzip
    }
}

impl CompressionAlgorithm {
    /// The name of the algorithm.
    pub fn as_string(&self) -> (res: String)
        ensures
            res@ == algorithm_name(*self),
    {
        match self {
            CompressionAlgorithm::Gzip => to_owned_string("gzip"),
            CompressionAlgorithm::Zlib => to_owned_string("deflate"),
            CompressionAlgorithm::Deflate => to_owned_string("deflate-raw"),
        }
    }

    /// Parse an algorithm name, whatever its case.
    pub fn from_str(s: &str) -> (res: Result<CompressionAlgorithm, UnknownAlgorithm>)
        ensures
            match res {
                Ok(a) => parse_algorithm(s@) == Some(a),
                Err(e) => parse_algorithm(s@) is None && e.value@ == s@,
            },
    {
        if lower_equals(s, "gzip") {
            Ok(CompressionAlgorithm::Gzip)
        } else if lower_equals(s, "deflate") {
            Ok(CompressionAlgorithm::Zlib)
        } else if lower_equals(s, "deflate-raw") {
            Ok(CompressionAlgorithm::Deflate)
        } else {
            Err(UnknownAlgorithm { value: to_owned_string(s) })
        }
    }
}

/// The level of `flate2::Compression::new(level)`.
#[verifier::external_body]
fn compression_new(level: u32) -> (res: u32)
    ensures
        res == level,
{
    flate2::Compression::new(level).level()
}

/// The level of `flate2::Compression::default()`, which is 6.
#[verifier::external_body]
fn compression_default() -> (res: u32)
    ensures
        res == 6,
{
    <flate2::Compression as Default>::default().level()
}

/// The level of `flate2::Compression::fast()`, which is 1.
#[verifier::external_body]
fn compression_fast() -> (res: u32)
    ensures
        res == 1,
{
    flate2::Compression::fast().level()
}

/// The level of `flate2::Compression::best()`, which is 9.
#[verifier::external_body]
fn compression_best() -> (res: u32)
    ensures
        res == 9,
{
    flate2::Compression::best().level()
}

/// The level that a level name denotes: a digit, `default`, `fast` or `best`.
pub open spec fn parse_level(s: Seq<char>) -> Option<u32> {
    if s.len() == 1 && '0' <= s[0] && s[0] <= '9' {
        Some(((s[0] as u32) - ('0' as u32)) as u32)
    } else if s == "default"@ {
        Some(6)
    } else if s == "fast"@ {
        Some(1)
    } else if s == "best"@ {
        Some(9)
    } else {
        None
    }
}

/// A level name that is not known.
#[derive(Debug, Clone)]
pub struct UnknownLevel {
    pub value: String,
}

impl UnknownLevel {
    /// The error message.
    pub fn to_string(&self) -> (res: String)
        ensures
            res@ == "unknown gzip level `"@ + self.value@ + "`"@,
    {
        let mut s = to_owned_string("unknown gzip level `");
        s.append(self.value.as_str());
        s.append("`");
        s
    }
}

fn level_from_str(s: &str) -> (res: Result<u32, UnknownLevel>)
    ensures
        match res {
            Ok(l) => parse_level(s@) == Some(l),
            Err(e) => parse_level(s@) is None && e.value@ == s@,
        },
{
    let v = chars_of(s);
    proof {
        reveal_strlit("default");
        reveal_strlit("fast");
        reveal_strlit("best");
    }
    if v.len() == 1 && '0' <= v[0] && v[0] <= '9' {
        let d: u32 = (v[0] as u32) - ('0' as u32);
        Ok(compression_new(d))
    } else if crate::text::str_eq(s, "default") {
        Ok(compression_default())
    } else if crate::text::str_eq(s, "fast") {
        Ok(compression_fast())
    } else if crate::text::str_eq(s, "best") {
        Ok(compression_best())
    } else {
        Err(UnknownLevel { value: to_owned_string(s) })
    }
}

/// The compression level of the Rust pipeline's outputs, as a `flate2` level.
#[derive(PartialEq, Eq, Debug, Clone, Copy, Structural)]
pub struct CompressionLevel {
    pub level: u32,
}

impl CompressionLevel {
    /// No compression.
    pub fn off() -> (res: CompressionLevel)
        ensures
            res.level == 0,
    {
        CompressionLevel { level: compression_new(0) }
    }

    /// Parse a level name: a digit, `default`, `fast` or `best`.
    pub fn from_str(s: &str) -> (res: Result<CompressionLevel, UnknownLevel>)
        ensures
            match res {
                Ok(l) => parse_level(s@) == Some(l.level),
                Err(e) => parse_level(s@) is None && e.value@ == s@,
            },
    {
        match level_from_str(s) {
            Ok(level) => Ok(CompressionLevel { level }),
            Err(e) => Err(e),
        }
    }
}

impl Default for CompressionLevel {
    fn default() -> (res: CompressionLevel)
        ensures
            res.level == 6,
    {
        CompressionLevel { level: compression_default() }
    }
}

/// The gzip level of compressed outputs, as a `flate2` level.
#[derive(PartialEq, Eq, Debug, Clone, Copy, Structural)]
pub struct GzipLevel {
    pub level: u32,
}

impl GzipLevel {
    /// No compression.
    pub fn off() -> (res: GzipLevel)
        ensures
            res.level == 0,
    {
        GzipLevel { level: compression_new(0) }
    }

    /// Parse a level name: a digit, `default`, `fast` or `best`.
    pub fn from_str(s: &str) -> (res: Result<GzipLevel, UnknownLevel>)
        ensures
            match res {
                Ok(l) => parse_level(s@) == Some(l.level),
                Err(e) => parse_level(s@) is None && e.value@ == s@,
            },
    {
        match level_from_str(s) {
            Ok(level) => Ok(GzipLevel { level }),
            Err(e) => Err(e),
        }
    }
}

impl Default for GzipLevel {
    fn default() -> (res: GzipLevel)
        ensures
            res.level == 6,
    {
        GzipLevel { level: compression_default() }
    }
}


/// An algorithm's name, in any case of its letters, parses back to the algorithm: `from_str`
/// of what `as_string` gives, or of it in upper case, is the algorithm again.
pub proof fn law_algorithm_name_round_trip(a: CompressionAlgorithm, s: Seq<char>)
    requires
        lower_eq(s, algorithm_name(a)),
    ensures
        parse_algorithm(s) == Some(a),
{
    reveal_strlit("gzip");
    reveal_strlit("deflate");
    reveal_strlit("deflate-raw");
}

/// An algorithm's name, as `as_string` gives it, parses back to the algorithm.
pub proof fn law_algorithm_name_parses(a: CompressionAlgorithm)
    ensures
        parse_algorithm(algorithm_name(a)) == Some(a),
{
    reveal_strlit("gzip");
    reveal_strlit("deflate");
    reveal_strlit("deflate-raw");
    let n = algorithm_name(a);
    assert forall|i: int| 0 <= i < n.len() implies ascii_lower(#[trigger] n[i]) == n[i] by {
        assert('a' <= n[i] <= 'z' || n[i] == '-');
    }
    law_algorithm_name_round_trip(a, n);
}

/// What `flate2::write::GzEncoder` writes for the data at `Compression::new(level)`.
pub uninterp spec fn gzip_encoded(data: Seq<u8>, level: u32) -> Seq<u8>;

/// What `flate2::write::ZlibEncoder` writes for the data at `Compression::new(level)`.
pub uninterp spec fn zlib_encoded(data: Seq<u8>, level: u32) -> Seq<u8>;

/// What `flate2::write::DeflateEncoder` writes for the data at `Compression::new(level)`.
pub uninterp spec fn deflate_encoded(data: Seq<u8>, level: u32) -> Seq<u8>;

/// `flate2::write::GzEncoder` into a vector: the data written whole, then `finish`. Writing
/// into a vector does not fail. Levels above 9 are left out: flate2's backends assert against
/// them.
#[verifier::external_body]
pub(crate) fn gzip_encode(data: &[u8], level: u32) -> (res: Vec<u8>)
    requires
        level <= 9,
    ensures
        res@ == gzip_encoded(data@, level),
{
    let mut e = flate2::write::GzEncoder::new(Vec::new(), flate2::Compression::new(level));
    std::io::Write::write_all(&mut e, data).and_then(|_| e.finish()).unwrap_or_default()
}

/// `flate2::write::ZlibEncoder` into a vector: the data written whole, then `finish`.
#[verifier::external_body]
fn zlib_encode(data: &[u8], level: u32) -> (res: Vec<u8>)
    requires
        level <= 9,
    ensures
        res@ == zlib_encoded(data@, level),
{
    let mut e = flate2::write::ZlibEncoder::new(Vec::new(), flate2::Compression::new(level));
    std::io::Write::write_all(&mut e, data).and_then(|_| e.finish()).unwrap_or_default()
}

/// `flate2::write::DeflateEncoder` into a vector: the data written whole, then `finish`.
#[verifier::external_body]
fn deflate_encode(data: &[u8], level: u32) -> (res: Vec<u8>)
    requires
        level <= 9,
    ensures
        res@ == deflate_encoded(data@, level),
{
    let mut e = flate2::write::DeflateEncoder::new(Vec::new(), flate2::Compression::new(level));
    std::io::Write::write_all(&mut e, data).and_then(|_| e.finish()).unwrap_or_default()
}

impl CompressionAlgorithm {
    /// The data compressed by the algorithm at the level: gzip, zlib (`deflate`) or raw
    /// DEFLATE (`deflate-raw`).
    pub fn encode(&self, data: &[u8], level: CompressionLevel) -> (res: Vec<u8>)
        requires
            level.level <= 9,
        ensures
            res@ == match self {
                CompressionAlgorithm::Gzip => gzip_encoded(data@, level.level),
                CompressionAlgorithm::Zlib => zlib_encoded(data@, level.level),
                CompressionAlgorithm::Deflate => deflate_encoded(data@, level.level),
            },
    {
        match self {
            CompressionAlgorithm::Gzip => gzip_encode(data, level.level),
            CompressionAlgorithm::Zlib => zlib_encode(data, level.level),
            CompressionAlgorithm::Deflate => deflate_encode(data, level.level),
        }
    }
}

} // verus!
