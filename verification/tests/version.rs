use trunk::version::{announce_update, check_version_texts, enforce_version_with, update_to_announce, versions_from_response, CrateVersion, VersionMismatch, Versions};

fn published(num: &str, yanked: bool) -> CrateVersion {
    CrateVersion { num: num.to_string(), yanked }
}

#[test]
fn selects_latest_non_yanked_release_and_prerelease() {
    let response = vec![
        published("1.2.0", false),
        published("2.0.0-beta.1", false),
        published("1.3.0", true),
        published("not-a-version", false),
    ];

    let versions = versions_from_response(&response);

    assert_eq!(
        versions.release.as_deref().map(|r| semver::Version::parse(r).expect("parses")),
        Some(semver::Version::new(1, 2, 0))
    );
    assert_eq!(versions.prerelease.as_ref().map(ToString::to_string), Some("2.0.0-beta.1".to_owned()));
}

fn meets(required: &str, actual: &str) -> bool {
    enforce_version_with(required, actual).is_ok()
}

#[test]
fn test_requires_case_1() {
    assert_eq!(true, meets("*", "0.19.0"));
}

#[test]
fn test_requires_case_2() {
    assert_eq!(true, meets("*", "0.19.0-alpha.1"));
}

#[test]
fn test_requires_case_3() {
    assert_eq!(true, meets("0.19", "0.19.0"));
}

#[test]
fn test_requires_case_4() {
    assert_eq!(true, meets("0.19.0", "0.19.0"));
}

#[test]
fn test_requires_case_5() {
    assert_eq!(true, meets("0.19.0", "0.19.1"));
}

#[test]
fn test_requires_case_6() {
    assert_eq!(false, meets("0.20.0", "0.19.0"));
}

#[test]
fn test_requires_case_7() {
    assert_eq!(false, meets("0.19.0-alpha.2", "0.19.0-alpha.1"));
}

#[test]
fn test_requires_case_8() {
    assert_eq!(true, meets("0.19.0-alpha.2", "0.19.0-alpha.2"));
}

#[test]
fn test_requires_case_9() {
    assert_eq!(true, meets("0.19.0-alpha.2", "0.19.0-alpha.3"));
}

#[test]
fn test_requires_case_10() {
    assert_eq!(true, meets("0.19.0-alpha.2", "0.19.0"));
}

#[test]
fn test_requires_case_11() {
    assert_eq!(true, meets("0.19.0-alpha.2", "0.19.1"));
}

#[test]
fn test_requires_case_12() {
    assert_eq!(false, meets("0.19.0-alpha.2", "0.20.0"));
}

#[test]
fn test_requires_case_13() {
    assert_eq!(false, meets("0.19.1", "0.19.0"));
}

#[test]
fn test_requires_case_14() {
    assert_eq!(false, meets("0.19.1", "0.19.0-alpha.1"));
}

#[test]
fn test_requires_case_15() {
    assert_eq!(false, meets("0.19.1", "0.19.1-alpha.1"));
}

#[test]
fn test_requires_case_16() {
    assert_eq!(false, meets("0.20.0", "0.19.0-alpha.1"));
}

#[test]
fn test_requires_case_17() {
    assert_eq!(false, meets("0.20.0", "0.19.0"));
}

#[test]
fn test_requires_case_18() {
    assert_eq!(false, meets("0.20.0", "0.19.1-alpha.1"));
}

#[test]
fn test_requires_case_19() {
    assert_eq!(false, meets("0.20.0", "0.19.1"));
}

#[test]
fn test_requires_case_20() {
    assert_eq!(true, meets(">=0.19.0", "0.19.0"));
}

#[test]
fn test_requires_case_21() {
    assert_eq!(true, meets(">=0.19.0", "0.19.1"));
}

#[test]
fn test_requires_case_22() {
    assert_eq!(true, meets(">=0.19.0", "0.20.0"));
}

#[test]
fn test_requires_case_23() {
    assert_eq!(false, meets(">=0.19.0-alpha.2", "0.19.0-alpha.1"));
}

#[test]
fn test_requires_case_24() {
    assert_eq!(true, meets(">=0.19.0-alpha.2", "0.19.0-alpha.2"));
}

#[test]
fn test_requires_case_25() {
    assert_eq!(true, meets(">=0.19.0-alpha.2", "0.19.0-rc.1"));
}

#[test]
fn test_requires_case_26() {
    assert_eq!(true, meets(">=0.19.0-alpha.2", "0.19.0"));
}

#[test]
fn test_requires_case_27() {
    assert_eq!(false, meets(">=0.19.0-alpha.2", "0.20.0-alpha.1"));
}

#[test]
fn test_requires_case_28() {
    assert_eq!(true, meets(">=0.19.0-alpha.2", "0.20.0"));
}

#[test]
fn mismatch_message_names_both_versions() {
    let err = enforce_version_with("0.20.0", "0.19.0").unwrap_err();
    assert_eq!(
        err.to_string(),
        "Project requires a trunk version of '^0.20.0', the current trunk version is: '0.19.0'"
    );
    let e = VersionMismatch { required: "a".to_string(), actual: "b".to_string() };
    assert_eq!(e.to_string(), "Project requires a trunk version of 'a', the current trunk version is: 'b'");
}

#[test]
fn unparsable_texts_are_not_checked() {
    assert!(check_version_texts("not a req", "0.19.0").is_none());
    assert!(check_version_texts("*", "nope").is_none());
    assert!(matches!(check_version_texts("0.19", "0.19.3"), Some(Ok(()))));
    assert!(matches!(check_version_texts("0.20", "0.19.3"), Some(Err(_))));
}

#[test]
fn release_is_announced_to_a_release() {
    let versions = Versions { release: Some("1.2.0".to_string()), prerelease: Some("2.0.0-beta.1".to_string()) };
    assert_eq!(update_to_announce("1.1.0", &versions), Some("1.2.0".to_string()));
    assert_eq!(update_to_announce("1.2.0", &versions), None);
    assert_eq!(update_to_announce("2.0.0-alpha.1", &versions), Some("2.0.0-beta.1".to_string()));
    assert_eq!(update_to_announce("garbage", &versions), None);
}

#[test]
fn announce_update_from_published_list() {
    let list = vec![published("0.21.0", false), published("0.22.0", true), published("0.20.5", false)];
    assert_eq!(announce_update("0.20.0", &list), Some("0.21.0".to_string()));
    assert_eq!(announce_update("0.21.0", &list), None);
}

#[test]
fn equal_versions_keep_the_latest_listed() {
    let list = vec![published("1.0.0", false), published("1.0.0+build", false)];
    let v = versions_from_response(&list);
    assert_eq!(v.release.as_deref(), Some("1.0.0+build"));
}
