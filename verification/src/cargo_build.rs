//! The cargo build of a Rust application: the arguments handed to cargo, the choice of the
//! built WASM file among cargo's messages, and the hashed output name.
use crate::integrity::{IntegrityType, OutputDigest};
use crate::paths::{extension, extension_of};
use crate::rust_app::{features_view, Features, RustAppError};
use crate::text::{hex_char, lower_hex, str_eq, to_owned_string, u64_to_lower_hex};
use vstd::prelude::*;

verus! {

/// The kinds of output that wasm-bindgen writes (its `--target`).
#[derive(Debug, Clone, Copy, PartialEq, Eq, Structural)]
pub enum WasmBindgenTarget {
    Bundler,
    Web,
    NoModules,
    NodeJs,
    Deno,
}

/// The name of a wasm-bindgen target.
pub open spec fn bindgen_target_name(t: WasmBindgenTarget) -> Seq<char> {
    match t {
        WasmBindgenTarget::Bundler => "bundler"@,
        WasmBindgenTarget::Web => "web"@,
        WasmBindgenTarget::NoModules => "no-modules"@,
        WasmBindgenTarget::NodeJs => "nodejs"@,
        WasmBindgenTarget::Deno => "deno"@,
    }
}

/// The wasm-bindgen target a lower-case name denotes.
pub open spec fn parse_bindgen_target(s: Seq<char>) -> Option<WasmBindgenTarget> {
    if s == "bundler"@ {
        Some(WasmBindgenTarget::Bundler)
    } else if s == "web"@ {
        Some(WasmBindgenTarget::Web)
    } else if s == "no-modules"@ {
        Some(WasmBindgenTarget::NoModules)
    } else if s == "nodejs"@ {
        Some(WasmBindgenTarget::NodeJs)
    } else if s == "deno"@ {
        Some(WasmBindgenTarget::Deno)
    } else {
        None
    }
}

impl WasmBindgenTarget {
    /// Parse a target's name; any other value is refused.
    pub fn from_str(s: &str) -> (res: Result<WasmBindgenTarget, RustAppError>)
        ensures
            match parse_bindgen_target(s@) {
                Some(t) => res == Ok::<WasmBindgenTarget, RustAppError>(t),
                None => res matches Err(RustAppError::UnknownBindgenTarget { value }) && value@ == s@,
            },
    {
        if str_eq(s, "bundler") {
            Ok(WasmBindgenTarget::Bundler)
        } else if str_eq(s, "web") {
            Ok(WasmBindgenTarget::Web)
        } else if str_eq(s, "no-modules") {
            Ok(WasmBindgenTarget::NoModules)
        } else if str_eq(s, "nodejs") {
            Ok(WasmBindgenTarget::NodeJs)
        } else if str_eq(s, "deno") {
            Ok(WasmBindgenTarget::Deno)
        } else {
            Err(RustAppError::UnknownBindgenTarget { value: to_owned_string(s) })
        }
    }

    /// The target's name (what `Display` prints).
    pub fn as_str(&self) -> (res: &'static str)
        ensures
            res@ == bindgen_target_name(*self),
    {
        match self {
            WasmBindgenTarget::Bundler => "bundler",
            WasmBindgenTarget::Web => "web",
            WasmBindgenTarget::NoModules => "no-modules",
            WasmBindgenTarget::NodeJs => "nodejs",
            WasmBindgenTarget::Deno => "deno",
        }
    }
}

/// A target's name parses back to the target.
pub proof fn law_bindgen_target_round_trip(t: WasmBindgenTarget)
    ensures
        parse_bindgen_target(bindgen_target_name(t)) == Some(t),
{
    reveal_strlit("bundler");
    reveal_strlit("web");
    reveal_strlit("no-modules");
    reveal_strlit("nodejs");
    reveal_strlit("deno");
    assert("bundler"@.len() == 7 && "web"@.len() == 3 && "no-modules"@.len() == 10);
    assert("nodejs"@.len() == 6 && "deno"@.len() == 4);
}

/// The views of a sequence of strings.
pub open spec fn strs(v: Seq<String>) -> Seq<Seq<char>> {
    v.map_values(|s: String| s@)
}

/// `f` when `b` holds, nothing otherwise.
pub open spec fn flag(b: bool, f: Seq<char>) -> Seq<Seq<char>> {
    if b {
        seq![f]
    } else {
        Seq::empty()
    }
}

/// The feature arguments of cargo for a feature setting (see `features_view`).
pub open spec fn feature_args(f: (bool, Option<Seq<char>>, bool)) -> Seq<Seq<char>> {
    if f.0 {
        seq!["--all-features"@]
    } else {
        flag(f.2, "--no-default-features"@) + match f.1 {
            Some(list) => seq!["--features"@, list],
            None => Seq::empty(),
        }
    }
}

/// The arguments of `cargo build` for a Rust application.
pub open spec fn cargo_args_spec(
    manifest_path: Seq<char>,
    release: bool,
    offline: bool,
    frozen: bool,
    locked: bool,
    bin: Option<Seq<char>>,
    features: (bool, Option<Seq<char>>, bool),
) -> Seq<Seq<char>> {
    seq!["build"@, "--target=wasm32-unknown-unknown"@, "--manifest-path"@, manifest_path]
        + flag(release, "--release"@) + flag(offline, "--offline"@) + flag(frozen, "--frozen"@)
        + flag(locked, "--locked"@) + match bin {
        Some(b) => seq!["--bin"@, b],
        None => Seq::empty(),
    } + feature_args(features)
}

fn push_str(args: &mut Vec<String>, s: &str)
    ensures
        strs(final(args)@) == strs(old(args)@).push(s@),
{
    let ghost before = args@;
    args.push(to_owned_string(s));
    assert(strs(args@) =~= strs(before).push(s@));
}

fn push_flag(args: &mut Vec<String>, b: bool, f: &str)
    ensures
        strs(final(args)@) == strs(old(args)@) + flag(b, f@),
{
    let ghost before = strs(args@);
    if b {
        push_str(args, f);
    }
    assert(strs(args@) =~= before + flag(b, f@));
}

fn push_features(args: &mut Vec<String>, features: &Features)
    ensures
        strs(final(args)@) == strs(old(args)@) + feature_args(features_view(*features)),
{
    let ghost b5 = strs(args@);
    match features {
        Features::All => {
            push_str(args, "--all-features");
            assert(strs(args@) =~= b5 + feature_args(features_view(*features)));
        },
        Features::Custom { features: list, no_default_features } => {
            push_flag(args, *no_default_features, "--no-default-features");
            let ghost b6 = strs(args@);
            match list {
                Some(f) => {
                    push_str(args, "--features");
                    push_str(args, f.as_str());
                    assert(strs(args@) =~= b6 + seq!["--features"@, f@]);
                },
                None => {
                    assert(strs(args@) =~= b6 + Seq::<Seq<char>>::empty());
                },
            }
            assert(strs(args@) =~= b5 + feature_args(features_view(*features)));
        },
    }
}

fn push_bin(args: &mut Vec<String>, bin: &Option<String>)
    ensures
        strs(final(args)@) == strs(old(args)@) + match crate::rust_app::opt_string_view(*bin) {
            Some(b) => seq!["--bin"@, b],
            None => Seq::<Seq<char>>::empty(),
        },
{
    let ghost b4 = strs(args@);
    match bin {
        Some(b) => {
            push_str(args, "--bin");
            push_str(args, b.as_str());
            assert(strs(args@) =~= b4 + seq!["--bin"@, b@]);
        },
        None => {
            assert(strs(args@) =~= b4 + Seq::<Seq<char>>::empty());
        },
    }
}

/// The arguments of `cargo build` for a Rust application; the caller appends
/// `--message-format=json` when it asks cargo for the artifacts.
pub fn cargo_build_args(
    manifest_path: &str,
    release: bool,
    offline: bool,
    frozen: bool,
    locked: bool,
    bin: &Option<String>,
    features: &Features,
) -> (res: Vec<String>)
    ensures
        strs(res@) == cargo_args_spec(
            manifest_path@,
            release,
            offline,
            frozen,
            locked,
            crate::rust_app::opt_string_view(*bin),
            features_view(*features),
        ),
{
    let mut args: Vec<String> = Vec::new();
    push_str(&mut args, "build");
    push_str(&mut args, "--target=wasm32-unknown-unknown");
    push_str(&mut args, "--manifest-path");
    push_str(&mut args, manifest_path);
    assert(strs(args@) =~= seq!["build"@, "--target=wasm32-unknown-unknown"@, "--manifest-path"@, manifest_path@]);
    push_flag(&mut args, release, "--release");
    push_flag(&mut args, offline, "--offline");
    push_flag(&mut args, frozen, "--frozen");
    push_flag(&mut args, locked, "--locked");
    push_bin(&mut args, bin);
    push_features(&mut args, features);
    args
}

/// A compiler artifact that cargo reported.
#[derive(Debug, Clone)]
pub struct Artifact {
    pub package_id: String,
    /// The kinds of the artifact's target (`bin`, `cdylib`, ...).
    pub kinds: Vec<String>,
    /// The name of the artifact's target.
    pub target_name: String,
    /// The files the artifact was written to.
    pub filenames: Vec<String>,
}

/// A message of `cargo build --message-format=json` (one that could be read).
#[derive(Debug, Clone)]
pub enum CargoMessage {
    CompilerArtifact(Artifact),
    BuildFinished { success: bool },
    Other,
}

/// Why no WASM file could be chosen.
#[derive(Debug, Clone)]
pub enum ArtifactError {
    /// Cargo reported a failed build.
    FetchFailed,
    /// More than one binary of the package was built; their target names.
    MultipleBinaries { names: Vec<String> },
    /// No binary of the package was built.
    NotFound,
    /// The binary has no `.wasm` file.
    NoWasm,
}

/// The names in list notation: each in double quotes, separated by `, `, in brackets. (Target
/// names that cargo accepts hold no character that would be escaped inside quotes.)
pub open spec fn quoted_list(names: Seq<Seq<char>>) -> Seq<char>
    decreases names.len(),
{
    if names.len() == 0 {
        "[]"@
    } else {
        quoted_items(names.drop_last()) + "\""@ + names.last() + "\"]"@
    }
}

/// The quoted names, each followed by `, `, after the opening bracket.
pub open spec fn quoted_items(names: Seq<Seq<char>>) -> Seq<char>
    decreases names.len(),
{
    if names.len() == 0 {
        "["@
    } else {
        quoted_items(names.drop_last()) + "\""@ + names.last() + "\", "@
    }
}

impl ArtifactError {
    /// The error message.
    pub fn to_string(&self) -> (res: String)
        ensures
            res@ == match self {
                ArtifactError::FetchFailed => "error while fetching cargo artifact info"@,
                ArtifactError::MultipleBinaries { names } => "found more than one binary crate: "@
                    + quoted_list(strs(names@))
                    + ", consider adding `<link data-trunk rel=\"rust\" data-bin={bin} />` to the index.html"@,
                ArtifactError::NotFound => "cargo artifacts not found for target crate"@,
                ArtifactError::NoWasm => "could not find WASM output after cargo build"@,
            },
    {
        match self {
            ArtifactError::FetchFailed => to_owned_string("error while fetching cargo artifact info"),
            ArtifactError::MultipleBinaries { names } => {
                let mut s = to_owned_string("found more than one binary crate: ");
                let list = quoted_names(names);
                s.append(list.as_str());
                s.append(", consider adding `<link data-trunk rel=\"rust\" data-bin={bin} />` to the index.html");
                s
            },
            ArtifactError::NotFound => to_owned_string("cargo artifacts not found for target crate"),
            ArtifactError::NoWasm => to_owned_string("could not find WASM output after cargo build"),
        }
    }
}

fn quoted_names(names: &Vec<String>) -> (res: String)
    ensures
        res@ == quoted_list(strs(names@)),
{
    let ghost v = strs(names@);
    if names.len() == 0 {
        return to_owned_string("[]");
    }
    let mut s = to_owned_string("[");
    let mut i: usize = 0;
    while i + 1 < names.len()
        invariant
            names.len() > 0,
            i + 1 <= names.len(),
            v == strs(names@),
            s@ == quoted_items(v.subrange(0, i as int)),
        decreases names.len() - i,
    {
        assert(v.subrange(0, i + 1).drop_last() =~= v.subrange(0, i as int));
        s.append("\"");
        s.append(names[i].as_str());
        s.append("\", ");
        i = i + 1;
    }
    assert(v.drop_last() =~= v.subrange(0, i as int));
    s.append("\"");
    s.append(names[i].as_str());
    s.append("\"]");
    s
}

/// Whether some kind is `k`.
pub open spec fn has_kind(kinds: Seq<String>, k: Seq<char>) -> bool {
    exists|j: int| 0 <= j < kinds.len() && (#[trigger] kinds[j])@ == k
}

/// Whether a message reports a binary (`bin` or `cdylib`) of the package `pid`.
pub open spec fn is_binary_of(m: CargoMessage, pid: Seq<char>) -> bool {
    match m {
        CargoMessage::CompilerArtifact(a) => a.package_id@ == pid && (has_kind(a.kinds@, "bin"@)
            || has_kind(a.kinds@, "cdylib"@)),
        _ => false,
    }
}

/// Whether a message reports a failed build.
pub open spec fn is_failure(m: CargoMessage) -> bool {
    m matches CargoMessage::BuildFinished { success } && !success
}

/// The binaries of the package `pid` that the messages report, in order.
pub open spec fn binaries_of(ms: Seq<CargoMessage>, pid: Seq<char>) -> Seq<Artifact>
    decreases ms.len(),
{
    if ms.len() == 0 {
        Seq::empty()
    } else {
        let r = binaries_of(ms.drop_last(), pid);
        if is_binary_of(ms.last(), pid) {
            match ms.last() {
                CargoMessage::CompilerArtifact(a) => r.push(a),
                _ => r,
            }
        } else {
            r
        }
    }
}

/// The artifact that a message reports.
pub open spec fn art_of(m: CargoMessage) -> Artifact {
    match m {
        CargoMessage::CompilerArtifact(a) => a,
        _ => arbitrary(),
    }
}

/// Whether a path names a `.wasm` file.
pub open spec fn is_wasm_file(p: Seq<char>) -> bool {
    extension_of(p) == Some("wasm"@)
}

/// The first `.wasm` file among an artifact's files.
pub fn first_wasm_file(files: &Vec<String>) -> (res: Result<String, ArtifactError>)
    ensures
        (res is Ok) == (exists|k: int| 0 <= k < files@.len() && is_wasm_file(#[trigger] files@[k]@)),
        res matches Ok(p) ==> exists|k: int| 0 <= k < files@.len() && files@[k]@ == p@
            && is_wasm_file(p@) && forall|j: int| 0 <= j < k ==> !is_wasm_file(#[trigger] files@[j]@),
        res matches Err(e) ==> e matches ArtifactError::NoWasm,
{
    let mut k: usize = 0;
    while k < files.len()
        invariant
            k <= files.len(),
            forall|q: int| 0 <= q < k ==> !is_wasm_file(#[trigger] files@[q]@),
        decreases files.len() - k,
    {
        let is_wasm = match extension(files[k].as_str()) {
            Some(e) => str_eq(e.as_str(), "wasm"),
            None => false,
        };
        if is_wasm {
            let p = files[k].clone();
            assert(files@[k as int]@ == p@);
            return Ok(p);
        }
        k = k + 1;
    }
    Err(ArtifactError::NoWasm)
}

fn kinds_contain(kinds: &Vec<String>, k: &str) -> (res: bool)
    ensures
        res == has_kind(kinds@, k@),
{
    let mut i: usize = 0;
    while i < kinds.len()
        invariant
            i <= kinds.len(),
            forall|j: int| 0 <= j < i ==> (#[trigger] kinds@[j])@ != k@,
        decreases kinds.len() - i,
    {
        if str_eq(kinds[i].as_str(), k) {
            return true;
        }
        i = i + 1;
    }
    false
}

fn binary_of(m: &CargoMessage, pid: &str) -> (res: bool)
    ensures
        res == is_binary_of(*m, pid@),
{
    match m {
        CargoMessage::CompilerArtifact(a) => str_eq(a.package_id.as_str(), pid) && (kinds_contain(
            &a.kinds,
            "bin",
        ) || kinds_contain(&a.kinds, "cdylib")),
        _ => false,
    }
}

/// The WASM file of the package `pid`'s binary among cargo's messages. A failed build reported
/// anywhere gives `FetchFailed`; otherwise there must be exactly one binary of the package, and
/// its first file with the extension `wasm` is chosen.
pub fn select_wasm_artifact(messages: &Vec<CargoMessage>, package_id: &str) -> (res: Result<String, ArtifactError>)
    ensures
        (exists|i: int| 0 <= i < messages@.len() && is_failure(#[trigger] messages@[i])) ==> (res matches Err(ArtifactError::FetchFailed)),
        !(exists|i: int| 0 <= i < messages@.len() && is_failure(#[trigger] messages@[i])) ==> {
            let bins = binaries_of(messages@, package_id@);
            &&& bins.len() > 1 ==> (res matches Err(ArtifactError::MultipleBinaries { names })
                && strs(names@) == bins.map_values(|a: Artifact| a.target_name@))
            &&& bins.len() == 0 ==> (res matches Err(ArtifactError::NotFound))
            &&& bins.len() == 1 ==> {
                let files = bins[0].filenames@;
                &&& (res is Ok) == (exists|k: int| 0 <= k < files.len() && is_wasm_file(#[trigger] files[k]@))
                &&& res matches Ok(p) ==> exists|k: int| 0 <= k < files.len() && files[k]@ == p@
                    && is_wasm_file(p@) && forall|j: int| 0 <= j < k ==> !is_wasm_file(#[trigger] files[j]@)
                &&& res matches Err(e) ==> e matches ArtifactError::NoWasm
            }
        },
{
    let mut idx: Vec<usize> = Vec::new();
    let mut i: usize = 0;
    while i < messages.len()
        invariant
            i <= messages.len(),
            forall|k: int| 0 <= k < idx.len() ==> #[trigger] idx@[k] < messages.len()
                && messages@[idx@[k] as int] is CompilerArtifact,
            idx@.map_values(|j: usize| art_of(messages@[j as int])) == binaries_of(messages@.subrange(0, i as int), package_id@),
            forall|j: int| 0 <= j < i ==> !is_failure(#[trigger] messages@[j]),
        decreases messages.len() - i,
    {
        let m = &messages[i];
        let ghost before = idx@;
        assert(messages@.subrange(0, i + 1).drop_last() =~= messages@.subrange(0, i as int));
        assert(messages@.subrange(0, i + 1).last() == messages@[i as int]);
        match m {
            CargoMessage::BuildFinished { success } => {
                if !*success {
                    return Err(ArtifactError::FetchFailed);
                }
            },
            _ => {},
        }
        if binary_of(m, package_id) {
            idx.push(i);
            assert(idx@.map_values(|j: usize| art_of(messages@[j as int])) =~= before.map_values(
                |j: usize| art_of(messages@[j as int]),
            ).push(art_of(messages@[i as int])));
        } else {
            assert(idx@ == before);
        }
        i = i + 1;
    }
    assert(messages@.subrange(0, messages@.len() as int) =~= messages@);
    let ghost bins = binaries_of(messages@, package_id@);
    assert(bins.len() == idx@.len());
    if idx.len() > 1 {
        let mut names: Vec<String> = Vec::new();
        let mut k: usize = 0;
        while k < idx.len()
            invariant
                k <= idx.len(),
                forall|q: int| 0 <= q < idx.len() ==> #[trigger] idx@[q] < messages.len()
                    && messages@[idx@[q] as int] is CompilerArtifact,
                idx@.map_values(|j: usize| art_of(messages@[j as int])) == bins,
                forall|j: int| 0 <= j < messages@.len() ==> !is_failure(#[trigger] messages@[j]),
                bins == binaries_of(messages@, package_id@),
                bins.len() > 1,
                strs(names@) == bins.subrange(0, k as int).map_values(|a: Artifact| a.target_name@),
            decreases idx.len() - k,
        {
            let ghost before = names@;
            let j = idx[k];
            assert(bins[k as int] == art_of(messages@[j as int]));
            assert(idx@[k as int] == j);
            assert(messages@[j as int] is CompilerArtifact);
            match &messages[j] {
                CargoMessage::CompilerArtifact(a) => {
                    assert(*a == bins[k as int]);
                    names.push(a.target_name.clone());
                    assert(names@ == before.push(a.target_name));
                },
                _ => {
                    assert(false);
                    names.push(String::new());
                },
            }
            assert(strs(names@) =~= strs(before).push(bins[k as int].target_name@));
            assert(strs(names@) =~= bins.subrange(0, k + 1).map_values(|a: Artifact| a.target_name@));
            k = k + 1;
        }
        assert(bins.subrange(0, bins.len() as int) =~= bins);
        return Err(ArtifactError::MultipleBinaries { names });
    }
    if idx.len() == 0 {
        return Err(ArtifactError::NotFound);
    }
    assert(bins[0] == art_of(messages@[idx@[0] as int]));
    match &messages[idx[0]] {
        CargoMessage::CompilerArtifact(a) => {
            assert(a.filenames@ == bins[0].filenames@);
            first_wasm_file(&a.filenames)
        },
        _ => Err(ArtifactError::NoWasm),
    }
}

/// The value of `seahash::hash` on the given bytes.
pub uninterp spec fn seahash_of(data: Seq<u8>) -> u64;

/// `seahash::hash`: the SeaHash of the bytes with the crate's fixed seeds.
#[verifier::external_body]
pub(crate) fn seahash_hash(data: &[u8]) -> (res: u64)
    ensures
        res == seahash_of(data@),
{
    seahash::hash(data)
}

/// Lower-case hexadecimal notation of bytes, two digits per byte, high nibble first.
pub open spec fn hex_lower(b: Seq<u8>) -> Seq<char>
    decreases b.len(),
{
    if b.len() == 0 {
        Seq::empty()
    } else {
        hex_lower(b.drop_last()) + seq![hex_char((b.last() / 16) as int), hex_char((b.last() % 16) as int)]
    }
}

/// `hex::encode`: two lower-case hexadecimal digits per byte, high nibble first.
#[verifier::external_body]
pub(crate) fn hex_encode(data: &[u8]) -> (res: String)
    ensures
        res@ == hex_lower(data@),
{
    hex::encode(data)
}

/// The output name of a build: the module name, and when file hashing is on, a dash and the
/// hash of the WASM file: its SeaHash in hexadecimal when integrity is disabled, its integrity
/// digest in hexadecimal otherwise.
pub open spec fn hashed_name_spec(
    name: Seq<char>,
    integrity: IntegrityType,
    filehash: bool,
    wasm: Seq<u8>,
    digest: Seq<u8>,
) -> Seq<char> {
    if !filehash {
        name
    } else if integrity == IntegrityType::Disabled {
        name + "-"@ + lower_hex(seahash_of(wasm) as nat)
    } else {
        name + "-"@ + hex_lower(digest)
    }
}

/// The output name of a build (`digest` is the integrity digest of `wasm`).
pub fn hashed_name(
    name: &str,
    integrity: IntegrityType,
    filehash: bool,
    wasm: &[u8],
    digest: &OutputDigest,
) -> (res: String)
    ensures
        res@ == hashed_name_spec(name@, integrity, filehash, wasm@, digest.hash@),
{
    if !filehash {
        return to_owned_string(name);
    }
    let mut s = to_owned_string(name);
    s.append("-");
    proof {
        reveal_strlit("-");
    }
    match integrity {
        IntegrityType::Disabled => {
            let h = u64_to_lower_hex(seahash_hash(wasm));
            s.append(h.as_str());
        },
        _ => {
            let h = hex_encode(digest.hash.as_slice());
            s.append(h.as_str());
        },
    }
    s
}

/// The version of the first package named `name`.
pub open spec fn package_version(packages: Seq<(String, String)>, name: Seq<char>) -> Option<Seq<char>>
    decreases packages.len(),
{
    if packages.len() == 0 {
        None
    } else if packages[0].0@ == name {
        Some(packages[0].1@)
    } else {
        package_version(packages.drop_first(), name)
    }
}

/// The version of the first of the `(name, version)` packages named `name`.
pub fn find_package_version(packages: &[(String, String)], name: &str) -> (res: Option<String>)
    ensures
        crate::rust_app::opt_string_view(res) == package_version(packages@, name@),
{
    let mut i: usize = 0;
    assert(packages@.subrange(0, packages@.len() as int) =~= packages@);
    while i < packages.len()
        invariant
            i <= packages.len(),
            package_version(packages@, name@) == package_version(packages@.subrange(i as int, packages@.len() as int), name@),
        decreases packages.len() - i,
    {
        let ghost rest = packages@.subrange(i as int, packages@.len() as int);
        assert(rest.drop_first() =~= packages@.subrange(i + 1, packages@.len() as int));
        if str_eq(packages[i].0.as_str(), name) {
            return Some(packages[i].1.clone());
        }
        i = i + 1;
    }
    None
}

/// The version of wasm-bindgen to use: the configured one, else the one in the lock file (when
/// it could be loaded), else the one among the manifest's packages.
pub fn find_wasm_bindgen_version(
    configured: &Option<String>,
    lock_packages: &Option<Vec<(String, String)>>,
    metadata_packages: &[(String, String)],
) -> (res: Option<String>)
    ensures
        crate::rust_app::opt_string_view(res) == match configured {
            Some(v) => Some(v@),
            None => match lock_packages {
                Some(l) => match package_version(l@, "wasm-bindgen"@) {
                    Some(v) => Some(v),
                    None => package_version(metadata_packages@, "wasm-bindgen"@),
                },
                None => package_version(metadata_packages@, "wasm-bindgen"@),
            },
        },
{
    if let Some(v) = configured {
        return Some(v.clone());
    }
    if let Some(l) = lock_packages {
        if let Some(v) = find_package_version(l.as_slice(), "wasm-bindgen") {
            return Some(v);
        }
    }
    find_package_version(metadata_packages, "wasm-bindgen")
}

} // verus!
