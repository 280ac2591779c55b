//! The Rust worker pipeline and the standalone cargo and wasm-bindgen pipelines: the last
//! artifact that cargo reports wins, and outputs are named after the SeaHash of the WASM file.
use crate::attrs::Attrs;
use crate::cargo_build::{first_wasm_file, art_of, is_failure, is_wasm_file, seahash_hash, seahash_of, strs, flag, Artifact, ArtifactError, CargoMessage};
use crate::paths::extension;
use crate::rust_app::{opt_string_view, parse_wasm_opt, RustAppError, WasmOptLevel};
use crate::text::{lower_hex, str_eq, to_owned_string, u64_to_lower_hex};
use vstd::prelude::*;

verus! {

/// The settings of a Rust worker.
#[derive(Debug, Clone)]
pub struct RustWorkerSettings {
    pub bin: Option<String>,
    pub keep_debug: bool,
    pub no_demangle: bool,
    /// The wasm-opt level; off when absent.
    pub wasm_opt: WasmOptLevel,
}

impl RustWorkerSettings {
    /// Read the settings of a `<link data-trunk rel="rust-worker" .../>` element.
    pub fn parse(attrs: &Attrs) -> (res: Result<RustWorkerSettings, RustAppError>)
        requires
            attrs.wf(),
        ensures
            ({
                let o = match attrs.get_spec("data-wasm-opt"@) {
                    Some(v) => parse_wasm_opt(v),
                    None => Some(WasmOptLevel::Off),
                };
                &&& (res is Ok) == (o is Some)
                &&& res matches Ok(s) ==> {
                    &&& opt_string_view(s.bin) == attrs.get_spec("data-bin"@)
                    &&& s.keep_debug == (attrs.get_spec("data-keep-debug"@) is Some)
                    &&& s.no_demangle == (attrs.get_spec("data-no-demangle"@) is Some)
                    &&& Some(s.wasm_opt) == o
                }
                &&& res matches Err(e) ==> (e matches RustAppError::UnknownWasmOpt { value } && Some(value@) == attrs.get_spec("data-wasm-opt"@))
            }),
    {
        let bin = match attrs.get("data-bin") {
            Some(v) => Some(v.clone()),
            None => None,
        };
        let keep_debug = attrs.contains_key("data-keep-debug");
        let no_demangle = attrs.contains_key("data-no-demangle");
        let wasm_opt = match attrs.get("data-wasm-opt") {
            Some(v) => match WasmOptLevel::from_str(v.as_str()) {
                Ok(l) => l,
                Err(e) => return Err(e),
            },
            None => WasmOptLevel::Off,
        };
        Ok(RustWorkerSettings { bin, keep_debug, no_demangle, wasm_opt })
    }
}

/// Whether a message reports an artifact of the package `pid`, of any kind.
pub open spec fn is_artifact_of(m: CargoMessage, pid: Seq<char>) -> bool {
    m matches CargoMessage::CompilerArtifact(a) && a.package_id@ == pid
}

/// Folding cargo's messages: an artifact of the package replaces what came before, a failed
/// build gives an error until another artifact comes, anything else leaves the state alone.
pub open spec fn fold_artifacts(ms: Seq<CargoMessage>, pid: Seq<char>) -> Result<Option<Artifact>, ()>
    decreases ms.len(),
{
    if ms.len() == 0 {
        Ok(None)
    } else if is_artifact_of(ms.last(), pid) {
        Ok(Some(art_of(ms.last())))
    } else if is_failure(ms.last()) {
        Err(())
    } else {
        fold_artifacts(ms.drop_last(), pid)
    }
}

/// The artifact that folding the messages ends with, if any.
pub open spec fn last_artifact(ms: Seq<CargoMessage>, pid: Seq<char>) -> Option<Artifact> {
    match fold_artifacts(ms, pid) {
        Ok(Some(a)) => Some(a),
        _ => None,
    }
}

/// The WASM file of the last artifact of the package `pid` among cargo's messages.
pub fn select_last_artifact(messages: &Vec<CargoMessage>, package_id: &str) -> (res: Result<String, ArtifactError>)
    ensures
        fold_artifacts(messages@, package_id@) is Err ==> (res matches Err(ArtifactError::FetchFailed)),
        fold_artifacts(messages@, package_id@) == Ok::<Option<Artifact>, ()>(None) ==> (res matches Err(ArtifactError::NotFound)),
        last_artifact(messages@, package_id@) is Some ==> {
            let files = last_artifact(messages@, package_id@).unwrap().filenames@;
            &&& (res is Ok) == (exists|k: int| 0 <= k < files.len() && is_wasm_file(#[trigger] files[k]@))
            &&& res matches Ok(p) ==> exists|k: int| 0 <= k < files.len() && files[k]@ == p@
                && is_wasm_file(p@) && forall|j: int| 0 <= j < k ==> !is_wasm_file(#[trigger] files[j]@)
            &&& res matches Err(e) ==> e matches ArtifactError::NoWasm
        },
{
    let mut state: Result<Option<usize>, ()> = Ok(None);
    let mut i: usize = 0;
    while i < messages.len()
        invariant
            i <= messages.len(),
            match state {
                Ok(Some(j)) => j < messages.len() && messages@[j as int] is CompilerArtifact
                    && fold_artifacts(messages@.subrange(0, i as int), package_id@) == Ok::<Option<Artifact>, ()>(Some(art_of(messages@[j as int]))),
                Ok(None) => fold_artifacts(messages@.subrange(0, i as int), package_id@) == Ok::<Option<Artifact>, ()>(None),
                Err(_) => fold_artifacts(messages@.subrange(0, i as int), package_id@) == Err::<Option<Artifact>, ()>(()),
            },
        decreases messages.len() - i,
    {
        assert(messages@.subrange(0, i + 1).drop_last() =~= messages@.subrange(0, i as int));
        assert(messages@.subrange(0, i + 1).last() == messages@[i as int]);
        match &messages[i] {
            CargoMessage::CompilerArtifact(a) => {
                if str_eq(a.package_id.as_str(), package_id) {
                    state = Ok(Some(i));
                }
            },
            CargoMessage::BuildFinished { success } => {
                if !*success {
                    state = Err(());
                }
            },
            CargoMessage::Other => {},
        }
        i = i + 1;
    }
    assert(messages@.subrange(0, messages@.len() as int) =~= messages@);
    match state {
        Err(_) => Err(ArtifactError::FetchFailed),
        Ok(None) => Err(ArtifactError::NotFound),
        Ok(Some(j)) => match &messages[j] {
            CargoMessage::CompilerArtifact(a) => {
                assert(art_of(messages@[j as int]) == *a);
                first_wasm_file(&a.filenames)
            },
            _ => Err(ArtifactError::NoWasm),
        },
    }
}

/// `index-` and the SeaHash of the WASM file in hexadecimal.
pub fn index_hashed_name(wasm: &[u8]) -> (res: String)
    ensures
        res@ == "index-"@ + lower_hex(seahash_of(wasm@) as nat),
{
    let mut s = to_owned_string("index-");
    let h = u64_to_lower_hex(seahash_hash(wasm));
    s.append(h.as_str());
    s
}

fn prefixed(p: &str, v: &str) -> (res: String)
    ensures
        res@ == p@ + v@,
{
    let mut s = to_owned_string(p);
    s.append(v);
    s
}

/// The arguments of wasm-bindgen for a worker: module workers are built for the `web` target,
/// others for `no-modules`.
pub open spec fn worker_bindgen_args_spec(
    module_workers: bool,
    out_dir: Seq<char>,
    out_name: Seq<char>,
    wasm: Seq<char>,
    keep_debug: bool,
    no_demangle: bool,
) -> Seq<Seq<char>> {
    seq![
        "--no-typescript"@,
        "--target="@ + if module_workers { "web"@ } else { "no-modules"@ },
        "--out-dir="@ + out_dir,
        "--out-name="@ + out_name,
        wasm,
    ] + flag(keep_debug, "--keep-debug"@) + flag(no_demangle, "--no-demangle"@)
}

/// The arguments of wasm-bindgen for a worker.
pub fn worker_bindgen_args(
    module_workers: bool,
    out_dir: &str,
    out_name: &str,
    wasm: &str,
    keep_debug: bool,
    no_demangle: bool,
) -> (res: Vec<String>)
    ensures
        strs(res@) == worker_bindgen_args_spec(module_workers, out_dir@, out_name@, wasm@, keep_debug, no_demangle),
{
    let mut args: Vec<String> = Vec::new();
    args.push(to_owned_string("--no-typescript"));
    args.push(prefixed("--target=", if module_workers { "web" } else { "no-modules" }));
    args.push(prefixed("--out-dir=", out_dir));
    args.push(prefixed("--out-name=", out_name));
    args.push(to_owned_string(wasm));
    let ghost base = strs(args@);
    if keep_debug {
        args.push(to_owned_string("--keep-debug"));
    }
    let ghost b1 = strs(args@);
    assert(b1 =~= base + flag(keep_debug, "--keep-debug"@));
    if no_demangle {
        args.push(to_owned_string("--no-demangle"));
    }
    assert(strs(args@) =~= b1 + flag(no_demangle, "--no-demangle"@));
    args
}

/// The script that starts a worker from `base`, `js` and `wasm`.
pub open spec fn worker_wrapper_spec(module_workers: bool, base: Seq<char>, js: Seq<char>, wasm: Seq<char>) -> Seq<char> {
    if module_workers {
        "import init from '"@ + base + js + "';init('"@ + base + wasm + "');"@
    } else {
        "importScripts('"@ + base + js + "');wasm_bindgen('"@ + base + wasm + "');"@
    }
}

/// The script that starts a worker.
pub fn worker_wrapper(module_workers: bool, base: &str, js: &str, wasm: &str) -> (res: String)
    ensures
        res@ == worker_wrapper_spec(module_workers, base@, js@, wasm@),
{
    if module_workers {
        let mut s = to_owned_string("import init from '");
        s.append(base);
        s.append(js);
        s.append("';init('");
        s.append(base);
        s.append(wasm);
        s.append("');");
        s
    } else {
        let mut s = to_owned_string("importScripts('");
        s.append(base);
        s.append(js);
        s.append("');wasm_bindgen('");
        s.append(base);
        s.append(wasm);
        s.append("');");
        s
    }
}

/// The arguments of the standalone wasm-bindgen pipeline.
pub fn bindgen_pipeline_args(out_dir: &str, out_name: &str, wasm: &str) -> (res: Vec<String>)
    ensures
        strs(res@) == seq!["--target=web"@, "--out-dir="@ + out_dir@, "--out-name="@ + out_name@, "--no-typescript"@, wasm@],
{
    let mut args: Vec<String> = Vec::new();
    args.push(to_owned_string("--target=web"));
    args.push(prefixed("--out-dir=", out_dir));
    args.push(prefixed("--out-name=", out_name));
    args.push(to_owned_string("--no-typescript"));
    args.push(to_owned_string(wasm));
    assert(strs(args@) =~= seq!["--target=web"@, "--out-dir="@ + out_dir@, "--out-name="@ + out_name@, "--no-typescript"@, wasm@]);
    args
}


/// A module worker imports the JS loader as an ES module (`import init from '<base><js>'`) and
/// hands the WASM file to `init`; a classic worker loads the JS loader with `importScripts` and
/// hands the WASM file to `wasm_bindgen`. Whatever the paths, the first form never starts like
/// the second.
pub proof fn law_worker_wrapper_forms(base: Seq<char>, js: Seq<char>, wasm: Seq<char>)
    ensures
        worker_wrapper_spec(true, base, js, wasm) == "import init from '"@ + base + js + "';init('"@ + base + wasm
            + "');"@,
        worker_wrapper_spec(false, base, js, wasm) == "importScripts('"@ + base + js + "');wasm_bindgen('"@ + base
            + wasm + "');"@,
        worker_wrapper_spec(true, base, js, wasm).take(7) == "import "@,
        worker_wrapper_spec(false, base, js, wasm).take(7) == "importS"@,
{
    reveal_strlit("import init from '");
    reveal_strlit("importScripts('");
    reveal_strlit("import ");
    reveal_strlit("importS");
    let m = worker_wrapper_spec(true, base, js, wasm);
    let c = worker_wrapper_spec(false, base, js, wasm);
    assert(m.take(7) =~= "import "@);
    assert(c.take(7) =~= "importS"@);
}

} // verus!
