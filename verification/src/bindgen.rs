//! The wasm-bindgen and wasm-opt steps of a Rust application: their arguments, the names of
//! the files they produce, and the loader shim of a worker.
use crate::cargo_build::{flag, strs};
use crate::integrity::OutputDigest;
use crate::rust_app::{wasm_opt_name, RustAppSettings, RustAppType, WasmOptLevel};
use crate::text::{str_eq, to_owned_string};
use vstd::prelude::*;

verus! {

/// The digests of an application's WASM file and JS loader.
#[derive(Debug, Clone)]
pub struct IntegrityOutput {
    pub wasm: OutputDigest,
    pub js: OutputDigest,
}

impl Default for IntegrityOutput {
    fn default() -> (res: IntegrityOutput)
        ensures
            res.wasm.integrity == crate::integrity::IntegrityType::Disabled,
            res.wasm.hash@.len() == 0,
            res.js.integrity == crate::integrity::IntegrityType::Disabled,
            res.js.hash@.len() == 0,
    {
        IntegrityOutput { wasm: OutputDigest::default(), js: OutputDigest::default() }
    }
}

/// The directory segment of a build mode.
pub fn mode_segment(release: bool) -> (res: &'static str)
    ensures
        res@ == if release { "release"@ } else { "debug"@ },
{
    if release {
        "release"
    } else {
        "debug"
    }
}

/// The files that wasm-bindgen writes for an application, and its arguments.
#[derive(Debug, Clone)]
pub struct BindgenPlan {
    /// The base name of the outputs: the hashed name, or the module name for a worker (whose
    /// file name must be known at runtime).
    pub out_name: String,
    /// The arguments of wasm-bindgen.
    pub args: Vec<String>,
    /// The JS loader.
    pub js_output: String,
    /// The WASM file.
    pub wasm_output: String,
    /// The TypeScript declarations, when they are wanted.
    pub ts_output: Option<String>,
    /// The loader shim, when one is wanted.
    pub loader_shim_output: Option<String>,
    /// Whether the application is the main one or a worker.
    pub app_type: RustAppType,
    /// The ID of the pipeline, absent for the default application.
    pub id: Option<usize>,
}

/// The arguments of wasm-bindgen.
pub open spec fn bindgen_args_spec(
    target: Seq<char>,
    out_dir: Seq<char>,
    out_name: Seq<char>,
    wasm: Seq<char>,
    keep_debug: bool,
    no_demangle: bool,
    reference_types: bool,
    weak_refs: bool,
    typescript: bool,
) -> Seq<Seq<char>> {
    seq!["--target="@ + target, "--out-dir="@ + out_dir, "--out-name="@ + out_name, wasm]
        + flag(keep_debug, "--keep-debug"@) + flag(no_demangle, "--no-demangle"@)
        + flag(reference_types, "--reference-types"@) + flag(weak_refs, "--weak-refs"@)
        + flag(!typescript, "--no-typescript"@)
}

fn prefixed(p: &str, v: &str) -> (res: String)
    ensures
        res@ == p@ + v@,
{
    let mut s = to_owned_string(p);
    s.append(v);
    s
}

fn add_flag(args: &mut Vec<String>, b: bool, f: &str)
    ensures
        strs(final(args)@) == strs(old(args)@) + flag(b, f@),
{
    let ghost before = strs(args@);
    if b {
        args.push(to_owned_string(f));
    }
    assert(strs(args@) =~= before + flag(b, f@));
}

impl BindgenPlan {
    /// The plan for the application of pipeline `id` with the given settings, whose cargo build
    /// produced the WASM file `wasm` and the name `hashed_name`; wasm-bindgen writes into
    /// `out_dir`. The outputs carry the application's type and the pipeline's ID.
    pub fn new(
        settings: &RustAppSettings,
        id: Option<usize>,
        hashed_name: &str,
        out_dir: &str,
        wasm: &str,
    ) -> (res: BindgenPlan)
        ensures
            res.app_type == settings.attrs.app_type,
            res.id == id,
            res.out_name@ == if settings.attrs.app_type == RustAppType::Worker {
                settings.name@
            } else {
                hashed_name@
            },
            strs(res.args@) == bindgen_args_spec(
                settings.attrs.wasm_bindgen_target.0@,
                out_dir@,
                res.out_name@,
                wasm@,
                settings.attrs.keep_debug,
                settings.attrs.no_demangle,
                settings.attrs.reference_types,
                settings.attrs.weak_refs,
                settings.attrs.typescript,
            ),
            res.js_output@ == res.out_name@ + ".js"@,
            res.wasm_output@ == res.out_name@ + "_bg.wasm"@,
            settings.attrs.typescript ==> (res.ts_output matches Some(t) && t@ == res.out_name@ + ".d.ts"@),
            !settings.attrs.typescript ==> res.ts_output is None,
            settings.loader_shim ==> (res.loader_shim_output matches Some(l) && l@ == res.out_name@ + "_loader.js"@),
            !settings.loader_shim ==> res.loader_shim_output is None,
    {
        let name = match settings.attrs.app_type {
            RustAppType::Main => to_owned_string(hashed_name),
            RustAppType::Worker => settings.name.clone(),
        };
        let mut args: Vec<String> = Vec::new();
        args.push(prefixed("--target=", settings.attrs.wasm_bindgen_target.0.as_str()));
        args.push(prefixed("--out-dir=", out_dir));
        args.push(prefixed("--out-name=", name.as_str()));
        args.push(to_owned_string(wasm));
        assert(strs(args@) =~= seq![
            "--target="@ + settings.attrs.wasm_bindgen_target.0@,
            "--out-dir="@ + out_dir@,
            "--out-name="@ + name@,
            wasm@,
        ]);
        add_flag(&mut args, settings.attrs.keep_debug, "--keep-debug");
        add_flag(&mut args, settings.attrs.no_demangle, "--no-demangle");
        add_flag(&mut args, settings.attrs.reference_types, "--reference-types");
        add_flag(&mut args, settings.attrs.weak_refs, "--weak-refs");
        add_flag(&mut args, !settings.attrs.typescript, "--no-typescript");
        let js_output = prefixed(name.as_str(), ".js");
        let wasm_output = prefixed(name.as_str(), "_bg.wasm");
        let ts_output = if settings.attrs.typescript {
            Some(prefixed(name.as_str(), ".d.ts"))
        } else {
            None
        };
        let loader_shim_output = if settings.loader_shim {
            Some(prefixed(name.as_str(), "_loader.js"))
        } else {
            None
        };
        BindgenPlan {
            out_name: name,
            args,
            js_output,
            wasm_output,
            ts_output,
            loader_shim_output,
            app_type: settings.attrs.app_type,
            id,
        }
    }
}

/// A loader shim was asked for a target that cannot have one.
#[derive(Debug, Clone, Copy)]
pub struct UnsupportedShimTarget;

impl UnsupportedShimTarget {
    /// The error message.
    pub fn to_string(&self) -> (res: String)
        ensures
            res@ == "Loader shim can only be created for data-bindgen-target \"web\" or \"no-modules\"!"@,
    {
        to_owned_string("Loader shim can only be created for data-bindgen-target \"web\" or \"no-modules\"!")
    }
}

/// The loader shim of a worker that loads `js` and `wasm`, for the targets `web` and
/// `no-modules`.
pub open spec fn loader_shim_spec(target: Seq<char>, js: Seq<char>, wasm: Seq<char>) -> Option<Seq<char>> {
    if target == "web"@ {
        Some("import init from './"@ + js + "';await init();"@)
    } else if target == "no-modules"@ {
        Some("importScripts(\"./"@ + js + "\");wasm_bindgen(\"./"@ + wasm + "\");"@)
    } else {
        None
    }
}

/// The loader shim script of a worker.
pub fn loader_shim_script(target: &str, js: &str, wasm: &str) -> (res: Result<String, UnsupportedShimTarget>)
    ensures
        match loader_shim_spec(target@, js@, wasm@) {
            Some(s) => res matches Ok(r) && r@ == s,
            None => res is Err,
        },
{
    if str_eq(target, "web") {
        let mut s = to_owned_string("import init from './");
        s.append(js);
        s.append("';await init();");
        Ok(s)
    } else if str_eq(target, "no-modules") {
        let mut s = to_owned_string("importScripts(\"./");
        s.append(js);
        s.append("\");wasm_bindgen(\"./");
        s.append(wasm);
        s.append("\");");
        Ok(s)
    } else {
        Err(UnsupportedShimTarget)
    }
}

/// Whether wasm-opt runs: only in release builds, and not when its level is off.
pub fn wasm_opt_wanted(release: bool, level: WasmOptLevel) -> (res: bool)
    ensures
        res == (release && level != WasmOptLevel::Off),
{
    release && level != WasmOptLevel::Off
}

/// The arguments of wasm-opt.
pub open spec fn wasm_opt_args_spec(output: Seq<char>, level: WasmOptLevel, target: Seq<char>, reference_types: bool) -> Seq<Seq<char>> {
    seq!["--output="@ + output, "-O"@ + wasm_opt_name(level), target] + flag(reference_types, "--enable-reference-types"@)
}

/// The arguments of wasm-opt, which optimizes `target` into `output`.
pub fn wasm_opt_args(output: &str, level: WasmOptLevel, target: &str, reference_types: bool) -> (res: Vec<String>)
    ensures
        strs(res@) == wasm_opt_args_spec(output@, level, target@, reference_types),
{
    let mut args: Vec<String> = Vec::new();
    args.push(prefixed("--output=", output));
    args.push(prefixed("-O", level.as_str()));
    args.push(to_owned_string(target));
    assert(strs(args@) =~= seq!["--output="@ + output@, "-O"@ + wasm_opt_name(level), target@]);
    add_flag(&mut args, reference_types, "--enable-reference-types");
    args
}

/// The error of running an external tool: the contexts it was given, outermost first, and,
/// when it is an I/O error, whether its kind is "not found".
#[derive(Debug, Clone)]
pub struct CommandError {
    pub contexts: Vec<String>,
    pub io_not_found: Option<bool>,
}

/// Add the context "<target> not found" to an error that says that the tool was not found;
/// leave any other error as it is.
pub fn check_target_not_found_err(err: CommandError, target: &str) -> (res: CommandError)
    ensures
        res.io_not_found == err.io_not_found,
        err.io_not_found == Some(true) ==> strs(res.contexts@) == seq![target@ + " not found"@] + strs(err.contexts@),
        err.io_not_found != Some(true) ==> strs(res.contexts@) == strs(err.contexts@),
{
    match err.io_not_found {
        Some(true) => {
            let mut contexts: Vec<String> = Vec::new();
            contexts.push(prefixed(target, " not found"));
            let mut i: usize = 0;
            while i < err.contexts.len()
                invariant
                    i <= err.contexts.len(),
                    strs(contexts@) == seq![target@ + " not found"@] + strs(err.contexts@).subrange(0, i as int),
                decreases err.contexts.len() - i,
            {
                let ghost before = contexts@;
                let c = err.contexts[i].clone();
                assert(c@ == err.contexts@[i as int]@);
                contexts.push(c);
                assert(strs(contexts@) =~= strs(before).push(err.contexts@[i as int]@));
                assert(strs(contexts@) =~= seq![target@ + " not found"@] + strs(err.contexts@).subrange(0, i + 1));
                i = i + 1;
            }
            assert(strs(err.contexts@).subrange(0, err.contexts@.len() as int) =~= strs(err.contexts@));
            CommandError { contexts, io_not_found: err.io_not_found }
        },
        _ => err,
    }
}

} // verus!
