use trunk::assets::TrunkAssetReference;
use trunk::attrs::Attrs;
use trunk::dom::{trunk_id_selector, trunk_script_id_selector, DomAction};
use trunk::html::{asset_reference, autoloader_script, collect_failures, finalize_html, needs_default_rust_app, public_url_base_selector};
use trunk::integrity::{IntegrityType, OutputDigest};
use trunk::outputs::{CopyDirOutput, CopyFileOutput, CssOutput, IconOutput, JsOutput, ManifestOutput, AppleTouchStartupImageOutput};
use trunk::pipeline_output::TrunkAssetPipelineOutput;
use trunk::rust_app::RustAppType;
use trunk::rust_output::{pattern_evaluate, param_file_path, RustAppOutput, RustOutputConfig, WasmBindgenFeatures};
use trunk::sass::{css_output, CssRef, SassOutput};
use trunk::sri::{CrossOrigin, SriBuilder, SriOptions, SriType};

fn attrs(pairs: &[(&str, &str)]) -> Attrs {
    let mut a = Attrs::new();
    for (k, v) in pairs {
        a.insert(k.to_string(), v.to_string());
    }
    a
}

fn replaced(a: &DomAction) -> (&str, &str) {
    match a {
        DomAction::ReplaceWithHtml { selector, html } => (selector.as_str(), html.as_str()),
        other => panic!("unexpected {:?}", other),
    }
}

#[test]
fn selectors_name_the_trunk_id() {
    assert_eq!(trunk_id_selector(12), "link[data-trunk-id=\"12\"]");
    assert_eq!(trunk_script_id_selector(0), "script[data-trunk-id=\"0\"]");
    assert_eq!(public_url_base_selector(), "html head base[data-trunk-public-url]");
}

#[test]
fn elements_that_start_pipelines() {
    assert!(matches!(asset_reference("link", attrs(&[("rel", "css")])), Some(TrunkAssetReference::Link(_))));
    assert!(matches!(asset_reference("script", Attrs::new()), Some(TrunkAssetReference::Script(_))));
    assert!(asset_reference("div", Attrs::new()).is_none());
}

#[test]
fn at_most_one_main_rust_app() {
    assert_eq!(needs_default_rust_app(0).unwrap(), true);
    assert_eq!(needs_default_rust_app(1).unwrap(), false);
    let e = needs_default_rust_app(2).unwrap_err();
    assert_eq!(e.to_string(), "only one <link data-trunk rel=\"rust\" data-type=\"main\" .../> may be specified");
}

#[test]
fn failed_pipelines_are_counted_and_the_first_one_shown() {
    assert!(collect_failures(vec![None, None]).is_none());
    let f = collect_failures(vec![Some("a".to_string()), None, Some("b".to_string()), None]).expect("failures");
    assert_eq!(f.count, 2);
    assert_eq!(f.shown, "a");
    assert_eq!(f.message(), "HTML build pipeline failed (2 errors), showing first");
}

#[test]
fn autoloader_is_appended_to_the_body() {
    let script = "const p = '{{__TRUNK_WS_PROTOCOL__}}';";
    assert_eq!(autoloader_script(&None, script, &Some("wss".to_string())), "<script>const p = 'wss';</script>");
    assert_eq!(
        autoloader_script(&Some("{{N}}".to_string()), script, &None),
        "<script nonce=\"{{N}}\">const p = '';</script>"
    );
    match finalize_html(true, &None, script, &None) {
        Some(DomAction::AppendHtml { selector, html }) => {
            assert_eq!(selector, "body");
            assert_eq!(html, "<script>const p = '';</script>");
        }
        other => panic!("unexpected {:?}", other),
    }
    assert!(finalize_html(false, &None, script, &None).is_none());
}

#[test]
fn css_js_and_icon_outputs() {
    let css = CssOutput {
        public_url: "/".to_string(),
        id: 1,
        file: "style-abc.css".to_string(),
        other_attrs: attrs(&[("rel", "css"), ("href", "style.css"), ("media", "print")]),
        integrity: OutputDigest::default(),
    };
    let a = css.finalize();
    assert_eq!(replaced(&a), ("link[data-trunk-id=\"1\"]", "<link rel=\"stylesheet\" href=\"/style-abc.css\" media=\"print\"/>"));

    let js = JsOutput {
        public_url: "/p/".to_string(),
        id: 2,
        file: "app.js".to_string(),
        attrs: attrs(&[("type", "module")]),
        integrity: OutputDigest::generate_from(IntegrityType::Sha256, b"hello"),
    };
    let a = js.finalize();
    assert_eq!(
        replaced(&a),
        (
            "script[data-trunk-id=\"2\"]",
            "<script src=\"/p/app.js\" integrity=\"sha256&#x2D;LPJNul&#x2B;wow4m6DsqxbninhsWHlwfp0JecwQzYpOLmCQ&#x3D;\" type=\"module\"/>"
        )
    );

    let icon = IconOutput { public_url: "/".to_string(), id: 3, file: "favicon.ico".to_string(), integrity: OutputDigest::default() };
    assert_eq!(replaced(&icon.finalize()), ("link[data-trunk-id=\"3\"]", "<link rel=\"icon\" href=\"/favicon.ico\"/>"));

    let m = ManifestOutput { public_url: "/".to_string(), id: 4, file_name: "m.json".to_string() };
    assert_eq!(replaced(&m.finalize()).1, "<link rel=\"manifest\" href=\"/m.json\"/>");
    let s = AppleTouchStartupImageOutput { public_url: "/".to_string(), id: 5, file_name: "i.png".to_string(), media: Some("x".to_string()) };
    assert_eq!(replaced(&s.finalize()).1, "<link rel=\"apple-touch-startup-image\" href=\"/i.png\" media=\"x\"/>");
    match CopyFileOutput(7).finalize() {
        DomAction::Remove { selector } => assert_eq!(selector, "link[data-trunk-id=\"7\"]"),
        other => panic!("unexpected {:?}", other),
    }
}

#[test]
fn sass_output_inline_and_file() {
    let out = SassOutput {
        public_url: "/".to_string(),
        create_nonce: None,
        id: 0,
        css_ref: CssRef::Inline("body{}".to_string()),
        attrs: attrs(&[("rel", "scss"), ("href", "a.scss"), ("data-inline", "")]),
    };
    assert_eq!(replaced(&out.finalize()).1, "<style >body{}</style>");
    let out = SassOutput {
        public_url: "/".to_string(),
        create_nonce: Some("N".to_string()),
        id: 0,
        css_ref: CssRef::File("a-1.css".to_string(), OutputDigest::default()),
        attrs: attrs(&[("rel", "scss"), ("href", "a.scss")]),
    };
    assert_eq!(replaced(&out.finalize()).1, "<link rel=\"stylesheet\" nonce=\"N\" href=\"/a-1.css\"/>");
}

fn rust_output(app_type: RustAppType, id: Option<usize>, inject: bool) -> RustAppOutput {
    let mut integrities = SriBuilder::new(IntegrityType::Disabled);
    integrities.record(SriType::ModulePreload, "app.js", SriOptions::new(), Ok::<&[u8], ()>(b"")).unwrap();
    RustAppOutput {
        cfg: RustOutputConfig {
            public_url: "/".to_string(),
            inject_scripts: inject,
            pattern_script: None,
            pattern_preload: None,
            pattern_params: vec![],
            create_nonce: None,
            initializer_js: String::new(),
        },
        id,
        js_output: "app.js".to_string(),
        wasm_output: "app_bg.wasm".to_string(),
        wasm_size: 10,
        app_type,
        cross_origin: CrossOrigin::Anonymous,
        integrities,
        import_bindings: false,
        import_bindings_name: None,
        initializer: None,
        wasm_bindgen_features: WasmBindgenFeatures { init_with_object: true },
    }
}

#[test]
fn rust_app_output_is_injected() {
    let out = rust_output(RustAppType::Main, Some(3), true);
    let actions = out.finalize(1).expect("finalized");
    assert_eq!(actions.len(), 2);
    match &actions[0] {
        DomAction::AppendHtml { selector, html } => {
            assert_eq!(selector, "html head");
            assert_eq!(html, "<link rel=\"modulepreload\" href=\"/app.js\" crossorigin=\"anonymous\">");
        }
        other => panic!("unexpected {:?}", other),
    }
    let (sel, html) = replaced(&actions[1]);
    assert_eq!(sel, "link[data-trunk-id=\"3\"]");
    assert_eq!(
        html,
        "\n<script type=\"module\">\nimport init from '/app.js';\nconst wasm = await init({ module_or_path: '/app_bg.wasm' });\n\n\n\ndispatchEvent(new CustomEvent(\"TrunkApplicationStarted\", {detail: {wasm}}));\n\n</script>"
    );
}

#[test]
fn rust_app_without_link_needs_a_body() {
    let out = rust_output(RustAppType::Main, None, true);
    assert!(out.finalize(0).is_err());
    let actions = out.finalize(1).unwrap();
    assert!(matches!(&actions[1], DomAction::AppendHtml { selector, .. } if selector == "html body"));
    let worker = rust_output(RustAppType::Worker, Some(4), true);
    let actions = worker.finalize(0).unwrap();
    assert!(matches!(&actions[..], [DomAction::Remove { selector }] if selector == "link[data-trunk-id=\"4\"]"));
    let quiet = rust_output(RustAppType::Main, Some(1), false);
    assert!(quiet.finalize(1).unwrap().is_empty());
}

#[test]
fn templates_substitute_parameters() {
    let params = vec![
        ("base".to_string(), Some("/b/".to_string())),
        ("missing".to_string(), None),
    ];
    assert_eq!(pattern_evaluate("<x src=\"{base}a.js\" m=\"{missing}\">", &params), "<x src=\"/b/a.js\" m=\"{missing}\">");
    assert_eq!(param_file_path("@snippets/a.html"), Some("snippets/a.html".to_string()));
    assert_eq!(param_file_path("plain"), None);
}

#[test]
fn pipeline_outputs_dispatch_their_edits() {
    let out = TrunkAssetPipelineOutput::CopyDir(CopyDirOutput(9));
    let a = out.finalize(1).unwrap();
    assert!(matches!(&a[..], [DomAction::Remove { selector }] if selector == "link[data-trunk-id=\"9\"]"));
    assert!(TrunkAssetPipelineOutput::Empty.finalize(0).unwrap().is_empty());
    let rust = TrunkAssetPipelineOutput::RustApp(rust_output(RustAppType::Main, None, true));
    assert!(rust.finalize(0).is_err());
}

#[test]
fn sass_css_is_inlined_or_written_to_a_named_file() {
    let (r, file) = css_output("a{}".to_string(), true, "style", true, "css/", IntegrityType::Sha384);
    assert!(file.is_none());
    assert!(matches!(r, CssRef::Inline(c) if c == "a{}"));
    let (r, file) = css_output("a{}".to_string(), false, "style", false, "css/", IntegrityType::Sha256);
    assert_eq!(file.as_deref(), Some("style.css"));
    match r {
        CssRef::File(href, d) => {
            assert_eq!(href, "css/style.css");
            assert_eq!(d.hash.len(), 32);
            assert_eq!(d.integrity, IntegrityType::Sha256);
        }
        other => panic!("unexpected {:?}", other),
    }
    let (_, file) = css_output("a{}".to_string(), false, "style", true, "", IntegrityType::Disabled);
    let name = file.unwrap();
    assert!(name.starts_with("style-") && name.ends_with(".css") && name.len() > "style-.css".len());
}
