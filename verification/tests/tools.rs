use trunk::tools::{app_dir_name, resolve_tool, Application, TargetArch, TargetOs, ToolError, ToolSource, UrlError};

fn check_format(app: Application, input: &str, expect: &str) {
    let output = app.format_version_output(input).expect("unexpected version formatting error");
    assert!(output == expect, "version check output does not match: {} != {}", expect, output);
}

#[test]
fn wasm_opt_from_source() {
    check_format(Application::WasmOpt, "wasm-opt version 101 (version_101)", "version_101");
}

#[test]
fn wasm_opt_pre_compiled() {
    check_format(Application::WasmOpt, "wasm-opt version 101", "version_101");
}

#[test]
fn wasm_bindgen_from_source() {
    check_format(Application::WasmBindgen, "wasm-bindgen 0.2.75", "0.2.75");
}

#[test]
fn wasm_bindgen_pre_compiled() {
    check_format(Application::WasmBindgen, "wasm-bindgen 0.2.74 (27c7a4d06)", "0.2.74");
}

#[test]
fn sass_pre_compiled() {
    check_format(Application::Sass, "1.37.5", "1.37.5");
}

#[test]
fn sass_pre_compiled_dart2js() {
    check_format(Application::Sass, "1.37.5 compiled with dart2js 2.18.4", "1.37.5");
}

#[test]
fn tailwindcss_pre_compiled() {
    check_format(Application::TailwindCss, "tailwindcss v3.3.2", "3.3.2");
}

#[test]
fn tailwindcss_extra_pre_compiled() {
    check_format(Application::TailwindCssExtra, "tailwindcss-extra v1.7.25", "1.7.25");
}

#[test]
fn malformed_version_output_is_an_error() {
    let err = Application::WasmBindgen.format_version_output("   ").unwrap_err();
    assert_eq!(err.to_string(), "missing or malformed version output: ");
}

#[test]
fn names_and_archive_paths() {
    assert_eq!(Application::Sass.name(), "sass");
    assert_eq!(Application::WasmBindgen.name(), "wasm-bindgen");
    assert_eq!(Application::WasmOpt.name(), "wasm-opt");
    assert_eq!(Application::Sass.path(TargetOs::Windows), "sass.bat");
    assert_eq!(Application::Sass.path(TargetOs::Linux), "sass");
    assert_eq!(Application::WasmOpt.path(TargetOs::Linux), "bin/wasm-opt");
    assert_eq!(Application::WasmOpt.path(TargetOs::Windows), "bin/wasm-opt.exe");
    assert_eq!(Application::WasmBindgen.version_test(), "--version");
}

#[test]
fn download_urls_per_system() {
    assert_eq!(
        Application::Sass.url("1.63.6", TargetOs::Linux, TargetArch::Aarch64).unwrap(),
        "https://github.com/sass/dart-sass/releases/download/1.63.6/dart-sass-1.63.6-linux-arm64.tar.gz"
    );
    assert_eq!(
        Application::TailwindCss.url("3.3.5", TargetOs::Windows, TargetArch::X86_64).unwrap(),
        "https://github.com/tailwindlabs/tailwindcss/releases/download/v3.3.5/tailwindcss-windows-x64.exe"
    );
    assert_eq!(
        Application::WasmBindgen.url("0.2.87", TargetOs::Linux, TargetArch::X86_64).unwrap(),
        "https://github.com/rustwasm/wasm-bindgen/releases/download/0.2.87/wasm-bindgen-0.2.87-x86_64-unknown-linux-musl.tar.gz"
    );
    assert_eq!(Application::Sass.url("1", TargetOs::Other, TargetArch::X86_64), Err(UrlError::UnsupportedOs));
    assert_eq!(Application::Sass.url("1", TargetOs::Linux, TargetArch::Other), Err(UrlError::UnsupportedArch));
    assert_eq!(Application::Sass.url("1", TargetOs::Windows, TargetArch::Aarch64), Err(UrlError::NoRelease { app: Application::Sass, os: TargetOs::Windows, arch: TargetArch::Aarch64 }));
    assert_eq!(Application::Sass.url("1", TargetOs::Windows, TargetArch::Aarch64).unwrap_err().to_string(), "Unable to download Sass for windows aarch64");
    assert_eq!(UrlError::UnsupportedOs.to_string(), "unsupported OS");
}

#[test]
fn system_tool_is_used_when_versions_match() {
    let system = Some(("/usr/bin/sass".to_string(), "1.2.3".to_string()));
    match resolve_tool(Application::Sass, &Some("1.2.3".to_string()), false, &system) {
        Ok(ToolSource::System { path, version }) => {
            assert_eq!(path, "/usr/bin/sass");
            assert_eq!(version, "1.2.3");
        }
        other => panic!("unexpected {:?}", other),
    }
    match resolve_tool(Application::Sass, &Some("1.2.4".to_string()), false, &system) {
        Ok(ToolSource::Download { version }) => assert_eq!(version, "1.2.4"),
        other => panic!("unexpected {:?}", other),
    }
    match resolve_tool(Application::Sass, &Some("1.2.4".to_string()), true, &system) {
        Err(ToolError::OfflineVersionMismatch { required, found }) => {
            assert_eq!(required, "1.2.4");
            assert_eq!(found, "1.2.3");
        }
        other => panic!("unexpected {:?}", other),
    }
    match resolve_tool(Application::WasmOpt, &None, true, &None) {
        Err(ToolError::OfflineMissing { version }) => assert_eq!(version, "<any>"),
        other => panic!("unexpected {:?}", other),
    }
    match resolve_tool(Application::WasmOpt, &None, false, &None) {
        Ok(ToolSource::Download { version }) => assert_eq!(version, Application::WasmOpt.default_version()),
        other => panic!("unexpected {:?}", other),
    }
}

#[test]
fn cache_directory_name() {
    assert_eq!(app_dir_name(Application::WasmBindgen, "0.2.87"), "wasm-bindgen-0.2.87");
}
