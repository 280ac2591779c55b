//! The settings of a Rust application pipeline, read from the attributes of its
//! `<link data-trunk rel="rust" .../>` element.
use crate::attrs::Attrs;
use crate::integrity::{parse_integrity, IntegrityType};
use crate::sri::{parse_cross_origin, CrossOrigin};
use crate::text::{str_eq, to_owned_string};
use vstd::prelude::*;

verus! {

/// Describes how the Rust application is used.
#[derive(Debug, Clone, Copy, PartialEq, Eq, Structural)]
pub enum RustAppType {
    /// Used as the main application.
    Main,
    /// Used as a web worker.
    Worker,
}

/// The application type named by a `data-type` value.
pub open spec fn parse_app_type(s: Seq<char>) -> Option<RustAppType> {
    if s == "main"@ {
        Some(RustAppType::Main)
    } else if s == "worker"@ {
        Some(RustAppType::Worker)
    } else {
        None
    }
}

/// The `--target` values of wasm-bindgen.
pub open spec fn is_bindgen_target(s: Seq<char>) -> bool {
    s == "bundler"@ || s == "web"@ || s == "no-modules"@ || s == "nodejs"@ || s == "deno"@
}

/// The value of wasm-bindgen's `--target` flag.
#[derive(Debug, Clone)]
pub struct WasmBindgenTarget(pub String);

/// Optimization levels of `wasm-opt`.
#[derive(Debug, Clone, Copy, PartialEq, Eq, Structural)]
pub enum WasmOptLevel {
    /// Default optimization passes.
    Default,
    /// No optimization passes, skipping the wasm-opt step.
    Off,
    /// Quick and useful optimizations.
    One,
    /// Most optimizations.
    Two,
    /// Spend potentially a lot of time optimizing.
    Three,
    /// Also flatten the IR.
    Four,
    /// Default optimizations, focus on code size.
    S,
    /// Default optimizations, super-focusing on code size.
    Z,
}

/// The level named by a `data-wasm-opt` value.
pub open spec fn parse_wasm_opt(s: Seq<char>) -> Option<WasmOptLevel> {
    if s.len() == 0 {
        Some(WasmOptLevel::Default)
    } else if s == "0"@ {
        Some(WasmOptLevel::Off)
    } else if s == "1"@ {
        Some(WasmOptLevel::One)
    } else if s == "2"@ {
        Some(WasmOptLevel::Two)
    } else if s == "3"@ {
        Some(WasmOptLevel::Three)
    } else if s == "4"@ {
        Some(WasmOptLevel::Four)
    } else if s == "s"@ || s == "S"@ {
        Some(WasmOptLevel::S)
    } else if s == "z"@ || s == "Z"@ {
        Some(WasmOptLevel::Z)
    } else {
        None
    }
}

/// The textual form of a level, as handed to `wasm-opt` after `-O`.
pub open spec fn wasm_opt_name(l: WasmOptLevel) -> Seq<char> {
    match l {
        WasmOptLevel::Default => ""@,
        WasmOptLevel::Off => "0"@,
        WasmOptLevel::One => "1"@,
        WasmOptLevel::Two => "2"@,
        WasmOptLevel::Three => "3"@,
        WasmOptLevel::Four => "4"@,
        WasmOptLevel::S => "s"@,
        WasmOptLevel::Z => "z"@,
    }
}

/// Why the settings of a Rust application were refused.
#[derive(Debug, Clone)]
pub enum RustAppError {
    /// A `data-type` value other than `main` or `worker`.
    UnknownType { value: String },
    /// An unknown `data-wasm-opt` value.
    UnknownWasmOpt { value: String },
    /// An unknown `data-bindgen-target` value.
    UnknownBindgenTarget { value: String },
    /// An unknown `data-cross-origin` value.
    UnknownCrossOrigin { value: String },
    /// An unknown `data-integrity` value.
    UnknownIntegrity { value: String },
    /// `data-loader-shim` on an application that is not a worker.
    LoaderShimOnMain,
    /// `data-cargo-all-features` together with other feature settings.
    ConflictingFeatures,
}

impl RustAppError {
    /// The error message.
    pub fn to_string(&self) -> (res: String)
        ensures
            res@ == match self {
                RustAppError::UnknownType { value } => "unknown `data-type=\""@ + value@
                    + "\"` value for <link data-trunk rel=\"rust\" .../> attr; please ensure the value is lowercase and is a supported type"@,
                RustAppError::UnknownWasmOpt { value } => "unknown wasm-opt level `"@ + value@ + "`"@,
                RustAppError::UnknownBindgenTarget { value } => "unknown `data-bindgen-target=\""@ + value@
                    + "\"` value for <link data-trunk rel=\"rust\" .../> attr; please ensure the value is lowercase and is a supported type"@,
                RustAppError::UnknownCrossOrigin { value } => "unknown `data-cross-origin=\""@ + value@ + "\"` value"@,
                RustAppError::UnknownIntegrity { value } => "invalid value"@,
                RustAppError::LoaderShimOnMain => "Loader shim has no effect when data-type is \"main\"!"@,
                RustAppError::ConflictingFeatures => "Cannot combine --all-features with --no-default-features and/or --features"@,
            },
    {
        match self {
            RustAppError::UnknownType { value } => {
                let mut s = to_owned_string("unknown `data-type=\"");
                s.append(value.as_str());
                s.append("\"` value for <link data-trunk rel=\"rust\" .../> attr; please ensure the value is lowercase and is a supported type");
                s
            },
            RustAppError::UnknownWasmOpt { value } => {
                let mut s = to_owned_string("unknown wasm-opt level `");
                s.append(value.as_str());
                s.append("`");
                s
            },
            RustAppError::UnknownBindgenTarget { value } => {
                let mut s = to_owned_string("unknown `data-bindgen-target=\"");
                s.append(value.as_str());
                s.append("\"` value for <link data-trunk rel=\"rust\" .../> attr; please ensure the value is lowercase and is a supported type");
                s
            },
            RustAppError::UnknownCrossOrigin { value } => {
                let mut s = to_owned_string("unknown `data-cross-origin=\"");
                s.append(value.as_str());
                s.append("\"` value");
                s
            },
            RustAppError::UnknownIntegrity { .. } => to_owned_string("invalid value"),
            RustAppError::LoaderShimOnMain => to_owned_string(
                "Loader shim has no effect when data-type is \"main\"!",
            ),
            RustAppError::ConflictingFeatures => to_owned_string(
                "Cannot combine --all-features with --no-default-features and/or --features",
            ),
        }
    }
}

impl RustAppType {
    /// Parse a `data-type` value.
    pub fn from_str(s: &str) -> (res: Result<RustAppType, RustAppError>)
        ensures
            match parse_app_type(s@) {
                Some(t) => res matches Ok(r) && r == t,
                None => res matches Err(RustAppError::UnknownType { value }) && value@ == s@,
            },
    {
        if str_eq(s, "main") {
            Ok(RustAppType::Main)
        } else if str_eq(s, "worker") {
            Ok(RustAppType::Worker)
        } else {
            Err(RustAppError::UnknownType { value: to_owned_string(s) })
        }
    }
}

impl WasmBindgenTarget {
    /// Parse a `data-bindgen-target` value.
    pub fn from_str(s: &str) -> (res: Result<WasmBindgenTarget, RustAppError>)
        ensures
            is_bindgen_target(s@) ==> (res matches Ok(t) && t.0@ == s@),
            !is_bindgen_target(s@) ==> (res matches Err(RustAppError::UnknownBindgenTarget { value }) && value@ == s@),
    {
        if str_eq(s, "bundler") || str_eq(s, "web") || str_eq(s, "no-modules") || str_eq(s, "nodejs")
            || str_eq(s, "deno") {
            Ok(WasmBindgenTarget(to_owned_string(s)))
        } else {
            Err(RustAppError::UnknownBindgenTarget { value: to_owned_string(s) })
        }
    }

    /// The target's name.
    pub fn as_str(&self) -> (res: &str)
        ensures
            res@ == self.0@,
    {
        self.0.as_str()
    }
}

impl Default for WasmBindgenTarget {
    fn default() -> (res: WasmBindgenTarget)
        ensures
            res.0@ == "web"@,
    {
        WasmBindgenTarget(to_owned_string("web"))
    }
}

impl WasmOptLevel {
    /// Parse a `data-wasm-opt` value.
    pub fn from_str(s: &str) -> (res: Result<WasmOptLevel, RustAppError>)
        ensures
            match parse_wasm_opt(s@) {
                Some(l) => res matches Ok(r) && r == l,
                None => res matches Err(RustAppError::UnknownWasmOpt { value }) && value@ == s@,
            },
    {
        if s.is_empty() {
            Ok(WasmOptLevel::Default)
        } else if str_eq(s, "0") {
            Ok(WasmOptLevel::Off)
        } else if str_eq(s, "1") {
            Ok(WasmOptLevel::One)
        } else if str_eq(s, "2") {
            Ok(WasmOptLevel::Two)
        } else if str_eq(s, "3") {
            Ok(WasmOptLevel::Three)
        } else if str_eq(s, "4") {
            Ok(WasmOptLevel::Four)
        } else if str_eq(s, "s") || str_eq(s, "S") {
            Ok(WasmOptLevel::S)
        } else if str_eq(s, "z") || str_eq(s, "Z") {
            Ok(WasmOptLevel::Z)
        } else {
            Err(RustAppError::UnknownWasmOpt { value: to_owned_string(s) })
        }
    }

    /// The textual form of the level (its `AsRef<str>`).
    pub fn as_str(&self) -> (res: &'static str)
        ensures
            res@ == wasm_opt_name(*self),
    {
        match self {
            WasmOptLevel::Default => "",
            WasmOptLevel::Off => "0",
            WasmOptLevel::One => "1",
            WasmOptLevel::Two => "2",
            WasmOptLevel::Three => "3",
            WasmOptLevel::Four => "4",
            WasmOptLevel::S => "s",
            WasmOptLevel::Z => "z",
        }
    }
}

impl Default for WasmOptLevel {
    /// Off: the wasm-opt step is skipped unless a level is asked for.
    fn default() -> (res: WasmOptLevel)
        ensures
            res == WasmOptLevel::Off,
    {
        WasmOptLevel::Off
    }
}

/// The cargo features to build with.
#[derive(Debug, Clone)]
pub enum Features {
    /// `--all-features`.
    All,
    /// An optional `--features` list, and whether to pass `--no-default-features`.
    Custom { features: Option<String>, no_default_features: bool },
}

/// The attribute settings of a Rust application that are read before its manifest is loaded.
#[derive(Debug, Clone)]
pub struct RustAppAttrs {
    pub bin: Option<String>,
    pub keep_debug: bool,
    pub typescript: bool,
    pub no_demangle: bool,
    pub app_type: RustAppType,
    pub reference_types: bool,
    pub weak_refs: bool,
    pub wasm_opt: WasmOptLevel,
    pub wasm_bindgen_target: WasmBindgenTarget,
    pub cross_origin: CrossOrigin,
    pub integrity: IntegrityType,
}

/// The wasm-opt level of a `data-wasm-opt` attribute: the default level in release builds and
/// off otherwise when absent.
pub open spec fn wasm_opt_setting(a: Option<Seq<char>>, release: bool) -> Option<WasmOptLevel> {
    match a {
        Some(v) => parse_wasm_opt(v),
        None => Some(if release { WasmOptLevel::Default } else { WasmOptLevel::Off }),
    }
}

/// The application type of a `data-type` attribute: the main application when absent.
pub open spec fn app_type_setting(a: Option<Seq<char>>) -> Option<RustAppType> {
    match a {
        Some(v) => parse_app_type(v),
        None => Some(RustAppType::Main),
    }
}

/// The bindgen target of a `data-bindgen-target` attribute: `web` when absent.
pub open spec fn bindgen_target_setting(a: Option<Seq<char>>) -> Option<Seq<char>> {
    match a {
        Some(v) => if is_bindgen_target(v) { Some(v) } else { None },
        None => Some("web"@),
    }
}

/// The cross-origin setting of a `data-cross-origin` attribute: anonymous when absent.
pub open spec fn cross_origin_setting(a: Option<Seq<char>>) -> Option<CrossOrigin> {
    match a {
        Some(v) => parse_cross_origin(v),
        None => Some(CrossOrigin::Anonymous),
    }
}

/// The integrity setting of a `data-integrity` attribute: SHA-384 when absent.
pub open spec fn integrity_setting(a: Option<Seq<char>>) -> Option<IntegrityType> {
    match a {
        Some(v) => parse_integrity(v),
        None => Some(IntegrityType::Sha384),
    }
}

/// The value of an optional attribute.
pub open spec fn opt_string_view(o: Option<String>) -> Option<Seq<char>> {
    match o {
        Some(s) => Some(s@),
        None => None,
    }
}

impl RustAppAttrs {
    /// Read the settings of a `<link data-trunk rel="rust" .../>` element. Its attributes are
    /// checked in this order, and the first that is refused gives the error: `data-type`,
    /// `data-wasm-opt`, `data-bindgen-target`, `data-cross-origin`, `data-integrity`.
    pub fn parse(attrs: &Attrs, release: bool) -> (res: Result<RustAppAttrs, RustAppError>)
        requires
            attrs.wf(),
        ensures
            ({
                let t = app_type_setting(attrs.get_spec("data-type"@));
                let o = wasm_opt_setting(attrs.get_spec("data-wasm-opt"@), release);
                let b = bindgen_target_setting(attrs.get_spec("data-bindgen-target"@));
                let c = cross_origin_setting(attrs.get_spec("data-cross-origin"@));
                let i = integrity_setting(attrs.get_spec("data-integrity"@));
                &&& (res is Ok) == (t is Some && o is Some && b is Some && c is Some && i is Some)
                &&& res matches Ok(p) ==> {
                    &&& opt_string_view(p.bin) == attrs.get_spec("data-bin"@)
                    &&& p.keep_debug == (attrs.get_spec("data-keep-debug"@) is Some)
                    &&& p.typescript == (attrs.get_spec("data-typescript"@) is Some)
                    &&& p.no_demangle == (attrs.get_spec("data-no-demangle"@) is Some)
                    &&& p.reference_types == (attrs.get_spec("data-reference-types"@) is Some)
                    &&& p.weak_refs == (attrs.get_spec("data-weak-refs"@) is Some)
                    &&& Some(p.app_type) == t
                    &&& Some(p.wasm_opt) == o
                    &&& Some(p.wasm_bindgen_target.0@) == b
                    &&& Some(p.cross_origin) == c
                    &&& Some(p.integrity) == i
                }
                &&& res matches Err(e) ==> {
                    if t is None {
                        e matches RustAppError::UnknownType { value } && Some(value@) == attrs.get_spec("data-type"@)
                    } else if o is None {
                        e matches RustAppError::UnknownWasmOpt { value } && Some(value@) == attrs.get_spec("data-wasm-opt"@)
                    } else if b is None {
                        e matches RustAppError::UnknownBindgenTarget { value } && Some(value@) == attrs.get_spec("data-bindgen-target"@)
                    } else if c is None {
                        e matches RustAppError::UnknownCrossOrigin { value } && Some(value@) == attrs.get_spec("data-cross-origin"@)
                    } else {
                        e matches RustAppError::UnknownIntegrity { value } && Some(value@) == attrs.get_spec("data-integrity"@)
                    }
                }
            }),
    {
        let bin = match attrs.get("data-bin") {
            Some(v) => Some(v.clone()),
            None => None,
        };
        let keep_debug = attrs.contains_key("data-keep-debug");
        let typescript = attrs.contains_key("data-typescript");
        let no_demangle = attrs.contains_key("data-no-demangle");
        let app_type = match attrs.get("data-type") {
            Some(v) => match RustAppType::from_str(v.as_str()) {
                Ok(t) => t,
                Err(e) => return Err(e),
            },
            None => RustAppType::Main,
        };
        let reference_types = attrs.contains_key("data-reference-types");
        let weak_refs = attrs.contains_key("data-weak-refs");
        let wasm_opt = match attrs.get("data-wasm-opt") {
            Some(v) => match WasmOptLevel::from_str(v.as_str()) {
                Ok(l) => l,
                Err(e) => return Err(e),
            },
            None => if release { WasmOptLevel::Default } else { WasmOptLevel::Off },
        };
        let wasm_bindgen_target = match attrs.get("data-bindgen-target") {
            Some(v) => match WasmBindgenTarget::from_str(v.as_str()) {
                Ok(t) => t,
                Err(e) => return Err(e),
            },
            None => WasmBindgenTarget::default(),
        };
        let cross_origin = match attrs.get("data-cross-origin") {
            Some(v) => match CrossOrigin::from_str(v.as_str()) {
                Some(c) => c,
                None => return Err(RustAppError::UnknownCrossOrigin { value: v.clone() }),
            },
            None => CrossOrigin::Anonymous,
        };
        let integrity = match attrs.get("data-integrity") {
            Some(v) => match IntegrityType::from_str(v.as_str()) {
                Ok(i) => i,
                Err(_) => return Err(RustAppError::UnknownIntegrity { value: v.clone() }),
            },
            None => IntegrityType::Sha384,
        };
        Ok(RustAppAttrs {
            bin,
            keep_debug,
            typescript,
            no_demangle,
            app_type,
            reference_types,
            weak_refs,
            wasm_opt,
            wasm_bindgen_target,
            cross_origin,
            integrity,
        })
    }
}

/// The view of a feature setting: all features, or the `--features` list and whether to pass
/// `--no-default-features`.
pub open spec fn features_view(f: Features) -> (bool, Option<Seq<char>>, bool) {
    match f {
        Features::All => (true, None, false),
        Features::Custom { features, no_default_features } => (false, opt_string_view(features), no_default_features),
    }
}

/// All settings of a Rust application pipeline.
#[derive(Debug, Clone)]
pub struct RustAppSettings {
    pub attrs: RustAppAttrs,
    /// The module name: the binary name if given, otherwise the package name.
    pub name: String,
    pub cargo_features: Features,
    /// Whether to create a loader shim script.
    pub loader_shim: bool,
    /// Whether the functions that Rust exports are imported.
    pub import_bindings: bool,
    /// The name of the global variable that holds the imported bindings.
    pub import_bindings_name: Option<String>,
}

impl RustAppSettings {
    /// Complete the settings once the manifest is loaded: `package_name` is the name of its
    /// package, `default_features` the features of the build configuration. The loader shim is
    /// refused for an application that is not a worker, and `data-cargo-all-features` together
    /// with `data-cargo-no-default-features` or `data-cargo-features`, in this order.
    pub fn new(
        parsed: RustAppAttrs,
        attrs: &Attrs,
        package_name: &str,
        default_features: Features,
    ) -> (res: Result<RustAppSettings, RustAppError>)
        requires
            attrs.wf(),
        ensures
            ({
                let shim = attrs.get_spec("data-loader-shim"@) is Some;
                let all = attrs.get_spec("data-cargo-all-features"@) is Some;
                let nodef = attrs.get_spec("data-cargo-no-default-features"@) is Some;
                let feats = attrs.get_spec("data-cargo-features"@);
                let shim_refused = shim && parsed.app_type != RustAppType::Worker;
                let conflict = all && (nodef || feats is Some);
                &&& (res is Ok) == (!shim_refused && !conflict)
                &&& res matches Err(e) ==> if shim_refused {
                    e matches RustAppError::LoaderShimOnMain
                } else {
                    e matches RustAppError::ConflictingFeatures
                }
                &&& res matches Ok(r) ==> {
                    &&& r.attrs == parsed
                    &&& r.name@ == match parsed.bin {
                        Some(b) => b@,
                        None => package_name@,
                    }
                    &&& features_view(r.cargo_features) == if all {
                        (true, None, false)
                    } else if nodef || feats is Some {
                        (false, feats, nodef)
                    } else {
                        features_view(default_features)
                    }
                    &&& r.loader_shim == shim
                    &&& r.import_bindings == (attrs.get_spec("data-wasm-no-import"@) is None)
                    &&& opt_string_view(r.import_bindings_name) == attrs.get_spec("data-wasm-import-name"@)
                }
            }),
    {
        let name = match &parsed.bin {
            Some(b) => b.clone(),
            None => to_owned_string(package_name),
        };
        let data_features = match attrs.get("data-cargo-features") {
            Some(v) => Some(v.clone()),
            None => None,
        };
        let data_all_features = attrs.contains_key("data-cargo-all-features");
        let data_no_default_features = attrs.contains_key("data-cargo-no-default-features");
        let loader_shim = attrs.contains_key("data-loader-shim");
        if loader_shim && parsed.app_type != RustAppType::Worker {
            return Err(RustAppError::LoaderShimOnMain);
        }
        if data_all_features && (data_no_default_features || data_features.is_some()) {
            return Err(RustAppError::ConflictingFeatures);
        }
        let cargo_features = if data_all_features {
            Features::All
        } else if data_no_default_features || data_features.is_some() {
            Features::Custom { features: data_features, no_default_features: data_no_default_features }
        } else {
            default_features
        };
        let import_bindings = attrs.get("data-wasm-no-import").is_none();
        let import_bindings_name = match attrs.get("data-wasm-import-name") {
            Some(v) => Some(v.clone()),
            None => None,
        };
        Ok(RustAppSettings {
            attrs: parsed,
            name,
            cargo_features,
            loader_shim,
            import_bindings,
            import_bindings_name,
        })
    }
}

} // verus!
