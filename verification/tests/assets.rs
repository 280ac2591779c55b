use trunk::assets::{
    css_output_name, data_target_path, image_type, minify_step, sass_args, source_path, tailwind_args, AssetFile,
    AssetFileType, AssetKind, AssetRefError, ImageType, MinifyStep, TrunkAssetReference,
};
use trunk::attrs::Attrs;
use trunk::compress::{CompressionAlgorithm, CompressionLevel, GzipLevel};
use trunk::dist_compression::{
    brotli_quality, gzip_level, is_sidecar, job_outcome, jobs_for_entry, sidecar_path, CompressionConfig,
    CompressionLevel as DistLevel,
};
use trunk::dist_compression::CompressionAlgorithm as DistAlgorithm;
use trunk::minify::{minify_css, minify_html, minify_js, optimize_png, stage_js_loader, JsModuleType};
use trunk::paths::{extension, file_name, name_ext};
use trunk::split::{first_line, first_word_of, nth_piece, trim};
use trunk::text::{replace_all, starts_with, u64_to_decimal, u64_to_lower_hex};

fn attrs(pairs: &[(&str, &str)]) -> Attrs {
    let mut a = Attrs::new();
    for (k, v) in pairs {
        a.insert(k.to_string(), v.to_string());
    }
    a
}

#[test]
fn asset_kinds_from_rel() {
    let k = |rel: &str| TrunkAssetReference::Link(attrs(&[("rel", rel)])).kind().ok();
    assert_eq!(k("css"), Some(AssetKind::Css));
    assert_eq!(k("scss"), Some(AssetKind::Sass));
    assert_eq!(k("sass"), Some(AssetKind::Sass));
    assert_eq!(k("icon"), Some(AssetKind::Icon));
    assert_eq!(k("rust"), Some(AssetKind::RustApp));
    assert_eq!(k("copy-dir"), Some(AssetKind::CopyDir));
    assert_eq!(k("tailwind-css"), Some(AssetKind::TailwindCss));
    assert_eq!(TrunkAssetReference::Script(Attrs::new()).kind().ok(), Some(AssetKind::Js));
    let e = TrunkAssetReference::Link(Attrs::new()).kind().unwrap_err();
    assert!(matches!(e, AssetRefError::MissingRel));
    let e = TrunkAssetReference::Link(attrs(&[("rel", "CSS")])).kind().unwrap_err();
    assert_eq!(
        e.to_string(),
        "unknown <link data-trunk .../> attr value `rel=\"CSS\"`; please ensure the value is lowercase and is a supported asset type"
    );
}

#[test]
fn source_attributes() {
    assert_eq!(source_path(&attrs(&[("href", "a.css")]), AssetKind::Css).unwrap(), "a.css");
    assert_eq!(source_path(&attrs(&[("src", "a.js")]), AssetKind::Js).unwrap(), "a.js");
    let e = source_path(&attrs(&[("href", "a.js")]), AssetKind::Js).unwrap_err();
    assert_eq!(e.to_string(), "required attr `src` missing for <script data-trunk .../> element");
    let e = source_path(&Attrs::new(), AssetKind::CopyFile).unwrap_err();
    assert_eq!(e.to_string(), "required attr `href` missing for <link data-trunk rel=\"copy-file\" .../> element");
    assert_eq!(data_target_path(&attrs(&[("data-target-path", "static//")])), Some("static".to_string()));
    assert_eq!(data_target_path(&Attrs::new()), None);
}

#[test]
fn minification_steps() {
    assert_eq!(minify_step(false, AssetFileType::Css), MinifyStep::Keep);
    assert_eq!(minify_step(true, AssetFileType::Css), MinifyStep::Css);
    assert_eq!(minify_step(true, AssetFileType::Icon(ImageType::Png)), MinifyStep::Png);
    assert_eq!(minify_step(true, AssetFileType::Icon(ImageType::Other)), MinifyStep::Keep);
    assert_eq!(minify_step(true, AssetFileType::Mjs), MinifyStep::Js(JsModuleType::Module));
    assert_eq!(minify_step(true, AssetFileType::Js), MinifyStep::Js(JsModuleType::Global));
    assert_eq!(image_type("image/png"), ImageType::Png);
    assert_eq!(image_type("image"), ImageType::Other);
}

#[test]
fn asset_file_names() {
    let f = AssetFile::new("/site/img/logo.min.png".to_string()).unwrap();
    assert_eq!(f.file_name, "logo.min.png");
    assert_eq!(f.file_stem, "logo.min");
    assert_eq!(f.ext.as_deref(), Some("png"));
    assert_eq!(f.output_name(false, b"x"), "logo.min.png");
    assert_eq!(f.output_name(true, b"x"), format!("logo.min-{:x}.png", seahash::hash(b"x")));
    let dot = AssetFile::new("/site/.env".to_string()).unwrap();
    assert_eq!(dot.file_stem, ".env");
    assert_eq!(dot.ext, None);
    assert!(AssetFile::new("/".to_string()).is_err());
    assert_eq!(css_output_name("main", false, b"a{}"), "main.css");
    assert_eq!(css_output_name("main", true, b"a{}"), format!("main-{:x}.css", seahash::hash(b"a{}")));
}

#[test]
fn tool_arguments() {
    assert_eq!(sass_args(true, true, "in.scss", "out.css"), vec!["--no-source-map", "--style", "compressed", "in.scss", "out.css"]);
    assert_eq!(sass_args(false, false, "i", "o"), vec!["--embed-source-map", "--style", "expanded", "i", "o"]);
    assert_eq!(
        tailwind_args("in.css", "out.css", &Some("tw.js".to_string()), true),
        vec!["--input", "in.css", "--output", "out.css", "--config", "tw.js", "--minify"]
    );
    assert_eq!(tailwind_args("i", "o", &None, false), vec!["--input", "i", "--output", "o"]);
}

#[test]
fn minifiers_change_their_input() {
    let html = b"<html>\n  <body>\n    <p>hi</p>\n  </body>\n</html>\n";
    let m = minify_html(html);
    assert!(m.len() < html.len());
    let css = b"a {\n  color: #ff0000;\n}\n".to_vec();
    assert_eq!(minify_css(css), b"a{color:red}".to_vec());
    let bad = vec![0xffu8, 0xfe];
    assert_eq!(minify_css(bad.clone()), bad);
    let js = b"let   x = 1 ;\nexport { x };\n".to_vec();
    let staged = stage_js_loader(js.clone(), true);
    assert!(staged.len() < js.len());
    assert_eq!(stage_js_loader(js.clone(), false), js);
    assert_eq!(optimize_png(b"not a png"), None);
}

#[test]
fn dist_compression_jobs() {
    let cfg = CompressionConfig {
        algorithms: vec![DistAlgorithm::Gzip, DistAlgorithm::Brotli],
        level: DistLevel::High,
        min_size: 100,
        min_ratio_percent: 90,
        include_globs: None,
        exclude_globs: None,
    };
    assert!(cfg.enabled());
    let jobs = jobs_for_entry(&cfg, "/d/index.html", "index.html", true, true, 200);
    assert_eq!(jobs.len(), 2);
    assert_eq!(jobs[0].sidecar, "/d/index.html.gz");
    assert_eq!(jobs[1].sidecar, "/d/index.html.br");
    assert_eq!(jobs[0].label, "gz index.html");
    assert!(jobs_for_entry(&cfg, "/d/small.txt", "small.txt", true, true, 10).is_empty());
    assert!(jobs_for_entry(&cfg, "/d/a.js.gz", "a.js.gz", true, true, 1000).is_empty());
    assert!(jobs_for_entry(&cfg, "/d/a.png", "a.png", true, false, 1000).is_empty());
    assert!(jobs_for_entry(&cfg, "/d/dir", "dir", false, true, 1000).is_empty());
    let off = CompressionConfig {
        algorithms: vec![],
        level: DistLevel::Low,
        min_size: 0,
        min_ratio_percent: 100,
        include_globs: None,
        exclude_globs: None,
    };
    assert!(!off.enabled());
    assert_eq!(job_outcome(100, 50, 90), (1, 50));
    assert_eq!(job_outcome(100, 95, 90), (0, 0));
    assert!(is_sidecar("a.br") && is_sidecar("a.gz") && !is_sidecar("a.js"));
    assert_eq!(sidecar_path("x", "br"), "x.br");
    assert!(gzip_level(DistLevel::High) >= gzip_level(DistLevel::Low));
    assert!(brotli_quality(DistLevel::High) >= brotli_quality(DistLevel::Low));
}

#[test]
fn compression_settings_parse() {
    assert_eq!(CompressionAlgorithm::from_str("GZip").unwrap(), CompressionAlgorithm::Gzip);
    assert_eq!(CompressionAlgorithm::from_str("deflate").unwrap().as_string(), "deflate");
    let e = CompressionAlgorithm::from_str("lz4").unwrap_err();
    assert!(!e.to_string().is_empty());
    assert_eq!(CompressionLevel::from_str("9").unwrap().level, 9);
    assert!(CompressionLevel::from_str("x").is_err());
    assert_eq!(CompressionLevel::off().level, 0);
    assert_eq!(GzipLevel::off().level, 0);
}

#[test]
fn text_and_path_helpers() {
    assert_eq!(file_name("/a/b/c.tar.gz"), Some("c.tar.gz".to_string()));
    assert_eq!(file_name("/a/b/.."), None);
    assert_eq!(extension("/a/b/c.tar.gz"), Some("gz".to_string()));
    assert_eq!(extension("/a/.hidden"), None);
    assert_eq!(name_ext("x."), Some("".to_string()));
    assert_eq!(trim("  a b \n"), "a b");
    assert_eq!(first_word_of("1.2.3 compiled"), Some("1.2.3".to_string()));
    assert_eq!(first_line("\n\nfirst\nsecond"), Some("first".to_string()));
    assert_eq!(nth_piece("a b c", " ", 2), Some("c".to_string()));
    assert_eq!(nth_piece("a b", " ", 5), None);
    assert_eq!(replace_all("aXbXc", "X", "--"), "a--b--c");
    assert!(starts_with("prefix-rest", "prefix"));
    assert_eq!(u64_to_decimal(1234567890), "1234567890");
    assert_eq!(u64_to_lower_hex(0xdeadbeef), "deadbeef");
    assert_eq!(u64_to_lower_hex(0), "0");
}

#[test]
fn compression_level_names() {
    assert_eq!(CompressionLevel::from_str("fast").unwrap().level, 1);
    assert_eq!(CompressionLevel::from_str("best").unwrap().level, 9);
    assert_eq!(CompressionLevel::from_str("default").unwrap().level, 6);
    assert_eq!(CompressionLevel::default().level, 6);
    assert_eq!(GzipLevel::from_str("3").unwrap().level, 3);
    assert_eq!(GzipLevel::default().level, 6);
    assert_eq!(CompressionLevel::from_str("10").unwrap_err().to_string(), "unknown gzip level `10`");
}

#[test]
fn swc_minifies_scripts_and_keeps_what_it_cannot_read() {
    let not_utf8 = vec![0xff, 0xfe, 0x00];
    assert_eq!(minify_js(not_utf8.clone(), JsModuleType::Global), not_utf8);
    let broken = b"function (".to_vec();
    assert_eq!(minify_js(broken.clone(), JsModuleType::Module), broken);
    let source = b"function add(first, second) {\n    return first + second;\n}\nconsole.log(add(1, 2));\n".to_vec();
    let out = minify_js(source.clone(), JsModuleType::Module);
    assert!(!out.is_empty());
    assert!(out.len() < source.len());
}

#[test]
fn algorithm_names_round_trip_in_any_case() {
    for a in [CompressionAlgorithm::Gzip, CompressionAlgorithm::Zlib, CompressionAlgorithm::Deflate] {
        let name = a.as_string();
        assert_eq!(CompressionAlgorithm::from_str(&name).unwrap(), a);
        assert_eq!(CompressionAlgorithm::from_str(&name.to_uppercase()).unwrap(), a);
    }
}

#[test]
fn inclusion_and_exclusion_globs_select_files() {
    let cfg = CompressionConfig {
        algorithms: vec![DistAlgorithm::Gzip],
        level: DistLevel::Medium,
        min_size: 0,
        min_ratio_percent: 100,
        include_globs: Some(vec!["*.txt".to_string()]),
        exclude_globs: Some(vec!["skip.txt".to_string()]),
    };
    assert!(cfg.matches("keep.txt"));
    assert!(!cfg.matches("skip.txt"));
    assert!(!cfg.matches("image.png"));
    assert!(cfg.matches("assets/notes.txt"));
    let all = CompressionConfig { include_globs: None, exclude_globs: None, ..cfg.clone() };
    assert!(all.matches("image.png"));
    let bad = CompressionConfig { include_globs: Some(vec!["[".to_string()]), exclude_globs: None, ..cfg.clone() };
    assert!(!bad.matches("keep.txt"));
    let nested = format!("{}{}", "{a,".repeat(300), "}".repeat(300));
    let deep = CompressionConfig { include_globs: Some(vec![nested]), exclude_globs: None, ..cfg };
    assert!(!deep.matches("a"));
}

#[test]
fn ratios_above_one_hundred_keep_larger_sidecars_and_save_nothing() {
    assert_eq!(job_outcome(100, 120, 150), (1, 0));
    assert_eq!(job_outcome(100, 160, 150), (0, 0));
    assert_eq!(job_outcome(100, 40, 150), (1, 60));
}
