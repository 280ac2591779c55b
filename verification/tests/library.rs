use std::io::Read;

use trunk::bindgen_cache::{cache_key, hash_field};
use trunk::dom::{trunk_id_selector, trunk_script_id_selector};
use trunk::watch::{BuildDecision, EventOutcome, WatchState};

use trunk::attrs::Attrs;
use trunk::cargo_build::ArtifactError;
use trunk::compress::{CompressionAlgorithm, CompressionLevel};
use trunk::dist_compression::{encode, gzip_sidecar, run_job, totals, CompressionAlgorithm as DistAlgorithm, CompressionLevel as DistLevel};
use trunk::listen::{is_loopback, listening_addresses, IpAddress, SocketAddress};
use trunk::outputs::script_output_attrs;
use trunk::permissions::Permissions;
use trunk::plugin_args::Args;
use trunk::proxy::{proxy_mount_path, server_protocol};
use trunk::version::{need_check, CheckState, StateRead, Versions};

fn attrs(pairs: &[(&str, &str)]) -> Attrs {
    let mut a = Attrs::new();
    for (k, v) in pairs {
        a.insert(k.to_string(), v.to_string());
    }
    a
}

fn v4(a: u8, b: u8, c: u8, d: u8, port: u16) -> SocketAddress {
    SocketAddress { ip: IpAddress::V4(a, b, c, d), port }
}

#[test]
fn unspecified_addresses_expand_to_interfaces_in_order() {
    let bound = vec![
        v4(0, 0, 0, 0, 8080),
        SocketAddress { ip: IpAddress::V6(0, 0, 0, 0, 0, 0, 0, 1), port: 8080 },
        v4(10, 0, 0, 1, 8080),
    ];
    let interfaces = vec![
        IpAddress::V4(192, 168, 1, 2),
        IpAddress::V4(127, 0, 0, 1),
        IpAddress::V6(0xfe80, 0, 0, 0, 0, 0, 0, 1),
        IpAddress::V4(10, 0, 0, 1),
    ];
    let out = listening_addresses(&bound, &interfaces);
    assert_eq!(
        out,
        vec![
            v4(10, 0, 0, 1, 8080),
            v4(127, 0, 0, 1, 8080),
            v4(192, 168, 1, 2, 8080),
            SocketAddress { ip: IpAddress::V6(0, 0, 0, 0, 0, 0, 0, 1), port: 8080 },
        ]
    );
    assert!(is_loopback(&out[1].ip));
    assert!(!is_loopback(&out[0].ip));
    assert!(is_loopback(&out[3].ip));
    assert_eq!(listening_addresses(&vec![v4(1, 2, 3, 4, 2), v4(1, 2, 3, 4, 1)], &vec![]), vec![v4(1, 2, 3, 4, 1), v4(1, 2, 3, 4, 2)]);
}

#[test]
fn plugin_arguments_from_attributes() {
    let a = attrs(&[
        ("rel", "plugin"),
        ("data-args", "{\"a\": 1, \"b\": [true]}"),
        ("data-b", "\"override\""),
        ("data-n", " 42 "),
    ]);
    let args = Args::from_link_attrs(a).expect("valid JSON");
    assert_eq!(args.user_arguments.get("a").map(String::as_str), Some("1"));
    assert_eq!(args.user_arguments.get("data-b").map(String::as_str), Some("\"override\""));
    assert_eq!(args.user_arguments.get("b").map(String::as_str), Some("[true]"));
    assert_eq!(args.user_arguments.get("data-n").map(String::as_str), Some("42"));
    assert!(args.user_arguments.get("rel").is_none());
    assert!(args.user_arguments.get("data-args").is_none());
    assert_eq!(args.permissions.bits, 0);
    let args = args.with_permissions(Permissions { bits: 4 });
    assert_eq!(args.permissions.bits, 4);
    assert!(Args::from_link_attrs(attrs(&[("data-args", "[1]")])).is_err());
    assert!(Args::from_link_attrs(attrs(&[("data-x", "not json")])).is_err());
    assert!(Args::from_link_attrs(Attrs::new()).unwrap().user_arguments.len() == 0);
}

#[test]
fn repeated_permissions_grant_nothing_more() {
    assert_eq!(Permissions::from_list("call-plugin").bits, Permissions::from_list("call-plugin,call-plugin").bits);
    assert_eq!(Permissions::from_list("call-plugin").bits, Permissions::from_list("call-plugin, none").bits);
}

#[test]
fn update_check_is_due_daily() {
    let v = Versions { release: Some("1.0.0".to_string()), prerelease: None };
    assert!(matches!(need_check(StateRead::NotFound), CheckState::Needed));
    assert!(matches!(need_check(StateRead::Malformed), CheckState::Needed));
    match need_check(StateRead::NoHome) {
        CheckState::NotNeeded(x) => assert_eq!(x, Versions { release: None, prerelease: None }),
        other => panic!("unexpected {:?}", other),
    }
    match need_check(StateRead::Read { elapsed_nanos: 3_600_000_000_000, versions: v.clone() }) {
        CheckState::NotNeeded(x) => assert_eq!(x, v),
        other => panic!("unexpected {:?}", other),
    }
    assert!(matches!(
        need_check(StateRead::Read { elapsed_nanos: 86_400_000_000_001, versions: v.clone() }),
        CheckState::Needed
    ));
    assert!(matches!(
        need_check(StateRead::Read { elapsed_nanos: 86_400_000_000_000, versions: v }),
        CheckState::NotNeeded(_)
    ));
}

fn gunzip(data: &[u8]) -> Vec<u8> {
    let mut out = Vec::new();
    flate2::read::GzDecoder::new(data).read_to_end(&mut out).expect("valid gzip");
    out
}

#[test]
fn gzip_sidecars_roundtrip_and_respect_the_ratio() {
    let data = "trunk compresses assets\n".repeat(100).into_bytes();
    let side = gzip_sidecar(&data, DistLevel::High);
    assert_eq!(gunzip(&side), data);
    let (kept, outcome) = run_job(&data, DistAlgorithm::Gzip, DistLevel::Medium, 90);
    let kept = kept.expect("compressible data keeps its sidecar");
    assert_eq!(gunzip(&kept), data);
    assert_eq!(outcome, (1, (data.len() - kept.len()) as u64));
    let (dropped, outcome) = run_job(b"x", DistAlgorithm::Gzip, DistLevel::Low, 90);
    assert!(dropped.is_none());
    assert_eq!(outcome, (0, 0));
    assert_eq!(totals(&vec![(1, 10), (0, 0), (1, 5)]), (2, 15));
}

#[test]
fn rust_output_compression_algorithms() {
    let data = b"hello hello hello hello".to_vec();
    let level = CompressionLevel::from_str("best").unwrap();
    assert_eq!(gunzip(&CompressionAlgorithm::Gzip.encode(&data, level)), data);
    let mut out = Vec::new();
    flate2::read::ZlibDecoder::new(&CompressionAlgorithm::Zlib.encode(&data, level)[..]).read_to_end(&mut out).unwrap();
    assert_eq!(out, data);
    let mut out = Vec::new();
    flate2::read::DeflateDecoder::new(&CompressionAlgorithm::Deflate.encode(&data, level)[..]).read_to_end(&mut out).unwrap();
    assert_eq!(out, data);
}

#[test]
fn artifact_errors_have_messages() {
    assert_eq!(ArtifactError::FetchFailed.to_string(), "error while fetching cargo artifact info");
    assert_eq!(ArtifactError::NotFound.to_string(), "cargo artifacts not found for target crate");
    assert_eq!(ArtifactError::NoWasm.to_string(), "could not find WASM output after cargo build");
    let e = ArtifactError::MultipleBinaries { names: vec!["a".to_string(), "b".to_string()] };
    assert_eq!(
        e.to_string(),
        "found more than one binary crate: [\"a\", \"b\"], consider adding `<link data-trunk rel=\"rust\" data-bin={bin} />` to the index.html"
    );
    let names: Vec<&String> = vec![];
    assert_eq!(
        ArtifactError::MultipleBinaries { names: vec![] }.to_string(),
        format!("found more than one binary crate: {:?}, consider adding `<link data-trunk rel=\"rust\" data-bin={{bin}} />` to the index.html", names)
    );
}

#[test]
fn script_outputs_drop_src_and_trunk_attributes() {
    let a = attrs(&[("src", "a.js"), ("data-trunk", ""), ("data-trunk-id", "1"), ("type", "module"), ("defer", "")]);
    let kept = script_output_attrs(&a);
    assert_eq!(kept.len(), 2);
    assert_eq!(kept.get("type").map(String::as_str), Some("module"));
    assert!(kept.contains_key("defer"));
    assert!(!kept.contains_key("src"));
}

#[test]
fn proxy_mounts() {
    assert_eq!(proxy_mount_path(&Some("/api".to_string()), "/backend"), "/api");
    assert_eq!(proxy_mount_path(&None, "/backend"), "/backend");
    assert_eq!(server_protocol(true), "https");
    assert_eq!(server_protocol(false), "http");
}

#[test]
fn selectors_of_different_ids_differ() {
    assert_ne!(trunk_id_selector(1), trunk_id_selector(10));
    assert_ne!(trunk_id_selector(12), trunk_id_selector(21));
    assert_ne!(trunk_script_id_selector(0), trunk_script_id_selector(100));
}

#[test]
fn cache_key_framing_separates_arguments() {
    let a = cache_key(b"w", b"t", &vec![b"ab".to_vec(), b"c".to_vec()]);
    let b = cache_key(b"w", b"t", &vec![b"a".to_vec(), b"bc".to_vec()]);
    assert_ne!(a, b);
    let mut x = Vec::new();
    hash_field(&mut x, b"ab");
    hash_field(&mut x, b"c");
    let mut y = Vec::new();
    hash_field(&mut y, b"a");
    hash_field(&mut y, b"bc");
    assert_ne!(x, y);
}

#[test]
fn watch_laws_on_values() {
    let mut s = WatchState::new(0, vec![], None, false, false);
    assert!(matches!(s.handle_watch_event(true, 5), EventOutcome::Checked(BuildDecision::Start { .. })));
    assert_eq!(s.handle_watch_event(true, 6), EventOutcome::Postponed);
    let (_, next) = s.build_complete(&Ok(()), 9);
    assert_eq!(next, BuildDecision::Start { clear_screen: false });
}

fn unbrotli(data: &[u8]) -> Vec<u8> {
    let mut out = Vec::new();
    brotli::Decompressor::new(data, 4096).read_to_end(&mut out).expect("valid brotli");
    out
}

#[test]
fn gzip_and_brotli_sidecars_roundtrip() {
    let data = "trunk compresses assets\n".repeat(100).into_bytes();
    for level in [DistLevel::Low, DistLevel::Medium, DistLevel::High] {
        let (gz, outcome) = run_job(&data, DistAlgorithm::Gzip, level, 100);
        let gz = gz.expect("gzip sidecar kept");
        assert_eq!(gunzip(&gz), data);
        assert_eq!(outcome.0, 1);
        let (br, outcome) = run_job(&data, DistAlgorithm::Brotli, level, 100);
        let br = br.expect("brotli sidecar kept");
        assert_eq!(unbrotli(&br), data);
        assert_eq!(outcome, (1, (data.len() - br.len()) as u64));
        assert_eq!(encode(DistAlgorithm::Brotli, level, &data), br);
    }
}

#[test]
fn tiny_input_with_a_generous_ratio_keeps_its_sidecar() {
    let data: Vec<u8> = (0..100u8).map(|i| i.wrapping_mul(97).wrapping_add(13)).collect();
    let (kept, outcome) = run_job(&data, DistAlgorithm::Gzip, DistLevel::High, 255);
    let kept = kept.expect("a ratio of 255 percent keeps a larger sidecar");
    assert!(kept.len() > data.len());
    assert_eq!(outcome, (1, 0));
}
