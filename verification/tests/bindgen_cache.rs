use trunk::bindgen_cache::{
    cache_key, hash_bytes, hash_field, is_snippet, make_record, output_intact, output_path_is_safe,
    record_is_valid, record_matches, CacheRecord, CachedOutput,
};

const REQUIRED_OUTPUTS: &[&str] = &["app.js", "app_bg.wasm"];

fn required_outputs() -> Vec<String> {
    REQUIRED_OUTPUTS.iter().map(|s| s.to_string()).collect()
}

fn key_of(wasm: &[u8], tool: &[u8], args: &[&str]) -> String {
    let args: Vec<Vec<u8>> = args.iter().map(|a| a.as_bytes().to_vec()).collect();
    cache_key(hash_bytes(wasm).as_bytes(), hash_bytes(tool).as_bytes(), &args)
}

/// The files of an output directory: relative path and contents.
type Dir = Vec<(String, Vec<u8>)>;

fn write(dir: &mut Dir, path: &str, contents: &[u8]) {
    dir.retain(|(p, _)| p != path);
    dir.push((path.to_string(), contents.to_vec()));
}

fn remove(dir: &mut Dir, path: &str) {
    dir.retain(|(p, _)| p != path);
}

fn store(dir: &Dir, key: &str, required: &[&str]) -> CacheRecord {
    let mut files: Vec<&(String, Vec<u8>)> = dir.iter().collect();
    files.sort_by(|a, b| a.0.cmp(&b.0));
    let outputs = files
        .into_iter()
        .map(|(p, c)| CachedOutput { path: p.clone(), hash: hash_bytes(c) })
        .collect();
    let required: Vec<String> = required.iter().map(|s| s.to_string()).collect();
    make_record(key.to_string(), outputs, &required).expect("required outputs present")
}

fn is_valid(record: &CacheRecord, dir: &Dir, key: &str, required: &[String]) -> bool {
    let snippets: Vec<String> = dir.iter().filter(|(p, _)| p.starts_with("snippets/")).map(|(p, _)| p.clone()).collect();
    let current: Vec<Option<String>> = record
        .outputs
        .iter()
        .map(|o| {
            if output_path_is_safe(&o.path) {
                dir.iter().find(|(p, _)| *p == o.path).map(|(_, c)| hash_bytes(c))
            } else {
                None
            }
        })
        .collect();
    record_is_valid(record, key, &required.to_vec(), &snippets, &current)
}

#[test]
fn cache_key_changes_with_input_tool_or_arguments() {
    let original = key_of(b"wasm v1", b"tool v1", &["--target=web", "--out-name=app"]);
    assert_eq!(original, key_of(b"wasm v1", b"tool v1", &["--target=web", "--out-name=app"]));
    assert_ne!(original, key_of(b"wasm v1", b"tool v1", &["--target=nodejs", "--out-name=app"]));
    assert_ne!(original, key_of(b"wasm v2", b"tool v1", &["--target=web", "--out-name=app"]));
    assert_ne!(original, key_of(b"wasm v1", b"tool v2", &["--target=web", "--out-name=app"]));
}

#[test]
fn stored_outputs_are_reused_when_unchanged() {
    let mut dir = Dir::new();
    write(&mut dir, "app.js", b"js");
    write(&mut dir, "app_bg.wasm", b"wasm");
    write(&mut dir, "snippets/pkg/inline.js", b"snippet");
    write(&mut dir, "app.d.ts", b"types");
    let record = store(&dir, "key", &["app.js", "app_bg.wasm", "app.d.ts"]);

    assert!(is_valid(&record, &dir, "key", &required_outputs()));
    assert!(!is_valid(&record, &dir, "other-key", &required_outputs()));
    assert!(!is_valid(&record, &dir, "key", &["missing.js".to_string()]));
}

#[test]
fn cache_misses_if_an_output_is_missing_or_modified() {
    let mut dir = Dir::new();
    write(&mut dir, "app.js", b"js");
    write(&mut dir, "app_bg.wasm", b"wasm");
    let record = store(&dir, "key", REQUIRED_OUTPUTS);

    write(&mut dir, "app.js", b"changed js");
    assert!(!is_valid(&record, &dir, "key", &required_outputs()));

    write(&mut dir, "app.js", b"js");
    remove(&mut dir, "app_bg.wasm");
    assert!(!is_valid(&record, &dir, "key", &required_outputs()));
}

#[test]
fn cache_misses_when_snippet_files_change() {
    let mut dir = Dir::new();
    write(&mut dir, "app.js", b"js");
    write(&mut dir, "app_bg.wasm", b"wasm");
    write(&mut dir, "snippets/pkg/inline.js", b"snippet");
    let record = store(&dir, "key", REQUIRED_OUTPUTS);

    assert!(is_valid(&record, &dir, "key", &required_outputs()));
    write(&mut dir, "snippets/pkg/new.js", b"new snippet");
    assert!(!is_valid(&record, &dir, "key", &required_outputs()));

    remove(&mut dir, "snippets/pkg/new.js");
    remove(&mut dir, "snippets/pkg/inline.js");
    assert!(!is_valid(&record, &dir, "key", &required_outputs()));

    write(&mut dir, "snippets/pkg/inline.js", b"snippet");
    assert!(is_valid(&record, &dir, "key", &required_outputs()));
    write(&mut dir, "snippets/pkg/inline.js", b"changed snippet");
    assert!(!is_valid(&record, &dir, "key", &required_outputs()));
}

#[test]
fn cache_rejects_recorded_paths_outside_output_directory() {
    let mut dir = Dir::new();
    write(&mut dir, "app.js", b"js");
    write(&mut dir, "app_bg.wasm", b"wasm");
    let mut record = store(&dir, "key", REQUIRED_OUTPUTS);
    record.outputs.push(CachedOutput { path: "../outside".to_string(), hash: "0".to_string() });

    assert!(!is_valid(&record, &dir, "key", &required_outputs()));
}

#[test]
fn missing_required_output_is_refused_when_recording() {
    let outputs = vec![CachedOutput { path: "app.js".to_string(), hash: "1".to_string() }];
    let err = make_record("key".to_string(), outputs, &required_outputs()).unwrap_err();
    assert_eq!(err.path, "app_bg.wasm");
    assert_eq!(err.to_string(), "required wasm-bindgen output 'app_bg.wasm' was not generated");
}

#[test]
fn recorded_path_safety() {
    assert!(output_path_is_safe("app.js"));
    assert!(output_path_is_safe("snippets/pkg/inline.js"));
    assert!(!output_path_is_safe(""));
    assert!(!output_path_is_safe("../outside"));
    assert!(!output_path_is_safe("/etc/passwd"));
    assert!(!output_path_is_safe("./app.js"));
    assert!(!output_path_is_safe("a/../../b"));
    assert!(is_snippet("snippets/pkg/inline.js"));
    assert!(!is_snippet("app.js"));
    assert!(!is_snippet("snippetsx/a.js"));
}

#[test]
fn intact_output_needs_the_recorded_hash() {
    assert!(output_intact("abc", &Some("abc".to_string())));
    assert!(!output_intact("abc", &Some("abd".to_string())));
    assert!(!output_intact("abc", &None));
}

#[test]
fn record_matches_checks_key_required_and_snippets() {
    let record = CacheRecord {
        key: "k".to_string(),
        outputs: vec![
            CachedOutput { path: "app.js".to_string(), hash: "1".to_string() },
            CachedOutput { path: "app_bg.wasm".to_string(), hash: "2".to_string() },
            CachedOutput { path: "snippets/a.js".to_string(), hash: "3".to_string() },
        ],
    };
    let snippets = vec!["snippets/a.js".to_string()];
    assert!(record_matches(&record, "k", &required_outputs(), &snippets));
    assert!(!record_matches(&record, "j", &required_outputs(), &snippets));
    assert!(!record_matches(&record, "k", &required_outputs(), &vec![]));
}

#[test]
fn fields_are_framed_by_their_length() {
    let mut buf = Vec::new();
    hash_field(&mut buf, b"ab");
    assert_eq!(buf, vec![2, 0, 0, 0, 0, 0, 0, 0, b'a', b'b']);
    let hashed = hash_bytes(b"");
    assert_eq!(hashed, format!("{:x}", seahash::hash(b"")));
    let mut hasher = seahash::SeaHasher::new();
    std::hash::Hasher::write(&mut hasher, &buf);
    assert_eq!(hash_bytes(&buf), format!("{:x}", std::hash::Hasher::finish(&hasher)));
}
