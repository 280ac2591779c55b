use trunk::cargo_build::WasmBindgenTarget as BindgenKind;
use trunk::attrs::Attrs;
use trunk::bindgen::{
    check_target_not_found_err, loader_shim_script, mode_segment, wasm_opt_args, wasm_opt_wanted,
    BindgenPlan, CommandError,
};
use trunk::cargo_build::{
    cargo_build_args, find_package_version, find_wasm_bindgen_version, first_wasm_file, hashed_name,
    select_wasm_artifact, Artifact, ArtifactError, CargoMessage,
};
use trunk::integrity::{IntegrityType, OutputDigest};
use trunk::rust_app::{Features, RustAppAttrs, RustAppError, RustAppSettings, RustAppType, WasmBindgenTarget, WasmOptLevel};
use trunk::sri::CrossOrigin;

fn attrs(pairs: &[(&str, &str)]) -> Attrs {
    let mut a = Attrs::new();
    for (k, v) in pairs {
        a.insert(k.to_string(), v.to_string());
    }
    a
}

#[test]
fn rust_app_defaults() {
    let a = RustAppAttrs::parse(&attrs(&[("rel", "rust")]), false).expect("valid");
    assert_eq!(a.app_type, RustAppType::Main);
    assert_eq!(a.wasm_opt, WasmOptLevel::Off);
    assert_eq!(a.wasm_bindgen_target.as_str(), "web");
    assert_eq!(a.cross_origin, CrossOrigin::Anonymous);
    assert_eq!(a.integrity, IntegrityType::Sha384);
    assert!(!a.keep_debug && !a.typescript && !a.reference_types && !a.weak_refs);
    let r = RustAppAttrs::parse(&attrs(&[("rel", "rust")]), true).expect("valid");
    assert_eq!(r.wasm_opt, WasmOptLevel::Default);
    assert_eq!(WasmOptLevel::default(), WasmOptLevel::Off);
}

#[test]
fn rust_app_settings_are_read() {
    let a = RustAppAttrs::parse(
        &attrs(&[
            ("data-bin", "app"),
            ("data-type", "worker"),
            ("data-wasm-opt", "z"),
            ("data-bindgen-target", "no-modules"),
            ("data-keep-debug", ""),
            ("data-typescript", ""),
            ("data-integrity", "sha512"),
            ("data-cross-origin", "use-credentials"),
        ]),
        false,
    )
    .expect("valid");
    assert_eq!(a.bin.as_deref(), Some("app"));
    assert_eq!(a.app_type, RustAppType::Worker);
    assert_eq!(a.wasm_opt, WasmOptLevel::Z);
    assert_eq!(a.wasm_bindgen_target.as_str(), "no-modules");
    assert!(a.keep_debug && a.typescript);
    assert_eq!(a.integrity, IntegrityType::Sha512);
    assert_eq!(a.cross_origin, CrossOrigin::UseCredentials);
}

#[test]
fn rust_app_errors_come_in_attribute_order() {
    let e = RustAppAttrs::parse(&attrs(&[("data-type", "lib"), ("data-wasm-opt", "9")]), false).unwrap_err();
    assert!(matches!(&e, RustAppError::UnknownType { value } if value == "lib"));
    assert_eq!(
        e.to_string(),
        "unknown `data-type=\"lib\"` value for <link data-trunk rel=\"rust\" .../> attr; please ensure the value is lowercase and is a supported type"
    );
    let e = RustAppAttrs::parse(&attrs(&[("data-wasm-opt", "9")]), false).unwrap_err();
    assert_eq!(e.to_string(), "unknown wasm-opt level `9`");
    let e = RustAppAttrs::parse(&attrs(&[("data-bindgen-target", "x")]), false).unwrap_err();
    assert!(matches!(e, RustAppError::UnknownBindgenTarget { .. }));
    let e = RustAppAttrs::parse(&attrs(&[("data-cross-origin", "x")]), false).unwrap_err();
    assert_eq!(e.to_string(), "unknown `data-cross-origin=\"x\"` value");
    let e = RustAppAttrs::parse(&attrs(&[("data-integrity", "x")]), false).unwrap_err();
    assert_eq!(e.to_string(), "invalid value");
    assert!(WasmBindgenTarget::from_str("deno").is_ok());
    assert!(WasmBindgenTarget::from_str("wasm").is_err());
    assert_eq!(WasmOptLevel::from_str("s").unwrap().as_str(), "s");
    assert_eq!(WasmOptLevel::from_str("S").unwrap(), WasmOptLevel::S);
    assert_eq!(WasmOptLevel::from_str("").unwrap(), WasmOptLevel::Default);
    assert!(RustAppType::from_str("main").is_ok());
}

#[test]
fn settings_refuse_shim_on_main_and_conflicting_features() {
    let src = attrs(&[("data-loader-shim", "")]);
    let parsed = RustAppAttrs::parse(&src, false).unwrap();
    let e = RustAppSettings::new(parsed, &src, "pkg", Features::All).unwrap_err();
    assert_eq!(e.to_string(), "Loader shim has no effect when data-type is \"main\"!");

    let src = attrs(&[("data-cargo-all-features", ""), ("data-cargo-features", "a")]);
    let parsed = RustAppAttrs::parse(&src, false).unwrap();
    let e = RustAppSettings::new(parsed, &src, "pkg", Features::All).unwrap_err();
    assert_eq!(e.to_string(), "Cannot combine --all-features with --no-default-features and/or --features");

    let src = attrs(&[("data-cargo-features", "a,b"), ("data-cargo-no-default-features", "")]);
    let parsed = RustAppAttrs::parse(&src, false).unwrap();
    let s = RustAppSettings::new(parsed, &src, "pkg", Features::All).unwrap();
    assert_eq!(s.name, "pkg");
    assert!(matches!(&s.cargo_features, Features::Custom { features: Some(f), no_default_features: true } if f == "a,b"));
}

#[test]
fn cargo_arguments() {
    let args = cargo_build_args(
        "/p/Cargo.toml",
        true,
        false,
        true,
        false,
        &Some("app".to_string()),
        &Features::Custom { features: Some("x".to_string()), no_default_features: true },
    );
    assert_eq!(
        args,
        vec![
            "build",
            "--target=wasm32-unknown-unknown",
            "--manifest-path",
            "/p/Cargo.toml",
            "--release",
            "--frozen",
            "--bin",
            "app",
            "--no-default-features",
            "--features",
            "x",
        ]
    );
    let args = cargo_build_args("C", false, true, false, true, &None, &Features::All);
    assert_eq!(args, vec!["build", "--target=wasm32-unknown-unknown", "--manifest-path", "C", "--offline", "--locked", "--all-features"]);
}

fn artifact(pid: &str, kind: &str, files: &[&str]) -> CargoMessage {
    CargoMessage::CompilerArtifact(Artifact {
        package_id: pid.to_string(),
        kinds: vec![kind.to_string()],
        target_name: "t".to_string(),
        filenames: files.iter().map(|s| s.to_string()).collect(),
    })
}

#[test]
fn wasm_artifact_selection() {
    let msgs = vec![
        artifact("dep", "lib", &["libdep.rlib"]),
        artifact("me", "cdylib", &["me.d", "me.wasm", "other.wasm"]),
        CargoMessage::BuildFinished { success: true },
    ];
    assert_eq!(select_wasm_artifact(&msgs, "me").unwrap(), "me.wasm");
    assert!(matches!(select_wasm_artifact(&msgs, "nobody"), Err(ArtifactError::NotFound)));
    let failed = vec![artifact("me", "bin", &["me.wasm"]), CargoMessage::BuildFinished { success: false }];
    assert!(matches!(select_wasm_artifact(&failed, "me"), Err(ArtifactError::FetchFailed)));
    let two = vec![artifact("me", "bin", &["a.wasm"]), artifact("me", "bin", &["b.wasm"])];
    assert!(matches!(select_wasm_artifact(&two, "me"), Err(ArtifactError::MultipleBinaries { .. })));
    let none = vec![artifact("me", "bin", &["a.js"])];
    assert!(matches!(select_wasm_artifact(&none, "me"), Err(ArtifactError::NoWasm)));
    assert_eq!(first_wasm_file(&vec!["x.txt".to_string(), "y.wasm".to_string()]).unwrap(), "y.wasm");
}

#[test]
fn hashed_names() {
    let wasm = b"\0asm";
    let d = OutputDigest::generate_from(IntegrityType::Sha256, wasm);
    assert_eq!(hashed_name("app", IntegrityType::Sha256, false, wasm, &d), "app");
    let expect_hex: String = d.hash.iter().map(|b| format!("{:02x}", b)).collect();
    assert_eq!(hashed_name("app", IntegrityType::Sha256, true, wasm, &d), format!("app-{}", expect_hex));
    let none = OutputDigest::default();
    assert_eq!(
        hashed_name("app", IntegrityType::Disabled, true, wasm, &none),
        format!("app-{:x}", seahash::hash(wasm))
    );
}

#[test]
fn package_versions() {
    let pkgs = vec![("serde".to_string(), "1.0.0".to_string()), ("wasm-bindgen".to_string(), "0.2.87".to_string())];
    assert_eq!(find_package_version(&pkgs, "wasm-bindgen"), Some("0.2.87".to_string()));
    assert_eq!(find_package_version(&pkgs, "nope"), None);
    let lock = Some(vec![("wasm-bindgen".to_string(), "0.2.90".to_string())]);
    assert_eq!(find_wasm_bindgen_version(&None, &lock, &pkgs), Some("0.2.90".to_string()));
    assert_eq!(find_wasm_bindgen_version(&None, &None, &pkgs), Some("0.2.87".to_string()));
    assert_eq!(find_wasm_bindgen_version(&Some("0.2.1".to_string()), &lock, &pkgs), Some("0.2.1".to_string()));
}

#[test]
fn bindgen_plan_names_and_arguments() {
    let src = attrs(&[("data-typescript", ""), ("data-weak-refs", "")]);
    let parsed = RustAppAttrs::parse(&src, false).unwrap();
    let settings = RustAppSettings::new(parsed, &src, "pkg", Features::All).unwrap();
    let plan = BindgenPlan::new(&settings, Some(3), "pkg-abc", "/out", "/t/pkg.wasm");
    assert_eq!(plan.out_name, "pkg-abc");
    assert_eq!(plan.js_output, "pkg-abc.js");
    assert_eq!(plan.wasm_output, "pkg-abc_bg.wasm");
    assert_eq!(plan.ts_output.as_deref(), Some("pkg-abc.d.ts"));
    assert_eq!(plan.loader_shim_output, None);
    assert_eq!(plan.id, Some(3));
    assert_eq!(plan.app_type, settings.attrs.app_type);
    assert_eq!(plan.args, vec!["--target=web", "--out-dir=/out", "--out-name=pkg-abc", "/t/pkg.wasm", "--weak-refs"]);
}

#[test]
fn worker_shims_and_wasm_opt() {
    assert_eq!(loader_shim_script("web", "w.js", "w_bg.wasm").unwrap(), "import init from './w.js';await init();");
    assert_eq!(
        loader_shim_script("no-modules", "w.js", "w_bg.wasm").unwrap(),
        "importScripts(\"./w.js\");wasm_bindgen(\"./w_bg.wasm\");"
    );
    let e = loader_shim_script("nodejs", "w.js", "w_bg.wasm").unwrap_err();
    assert_eq!(e.to_string(), "Loader shim can only be created for data-bindgen-target \"web\" or \"no-modules\"!");
    assert!(wasm_opt_wanted(true, WasmOptLevel::Z));
    assert!(!wasm_opt_wanted(true, WasmOptLevel::Off));
    assert!(!wasm_opt_wanted(false, WasmOptLevel::Z));
    assert_eq!(
        wasm_opt_args("out.wasm", WasmOptLevel::Three, "in.wasm", true),
        vec!["--output=out.wasm", "-O3", "in.wasm", "--enable-reference-types"]
    );
    assert_eq!(wasm_opt_args("o", WasmOptLevel::Default, "i", false), vec!["--output=o", "-O", "i"]);
    assert_eq!(mode_segment(true), "release");
    assert_eq!(mode_segment(false), "debug");
}

#[test]
fn not_found_errors_get_a_context() {
    let e = CommandError { contexts: vec!["running".to_string()], io_not_found: Some(true) };
    let r = check_target_not_found_err(e, "wasm-opt");
    assert_eq!(r.contexts, vec!["wasm-opt not found", "running"]);
    let e = CommandError { contexts: vec!["running".to_string()], io_not_found: Some(false) };
    assert_eq!(check_target_not_found_err(e, "wasm-opt").contexts, vec!["running"]);
}

#[test]
fn bindgen_target_kinds_parse_and_print() {
    for t in [BindgenKind::Bundler, BindgenKind::Web, BindgenKind::NoModules, BindgenKind::NodeJs, BindgenKind::Deno] {
        assert_eq!(BindgenKind::from_str(t.as_str()).unwrap(), t);
    }
    assert_eq!(BindgenKind::from_str("no-modules").unwrap(), BindgenKind::NoModules);
    assert!(BindgenKind::from_str("Web").is_err());
}
