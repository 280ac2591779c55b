use trunk::attrs::{exclude_css_link, AttrWriter, Attrs};
use trunk::integrity::{IntegrityType, IntegrityTypeParseError, OutputDigest};
use trunk::sri::{CrossOrigin, SriBuilder, SriOptions, SriType};

fn attrs(pairs: &[(&str, &str)]) -> Attrs {
    let mut a = Attrs::new();
    for (k, v) in pairs {
        a.insert(k.to_string(), v.to_string());
    }
    a
}

#[test]
fn integrity_type_parses_its_names() {
    assert_eq!(IntegrityType::from_str("none"), Ok(IntegrityType::Disabled));
    assert_eq!(IntegrityType::from_str("sha256"), Ok(IntegrityType::Sha256));
    assert_eq!(IntegrityType::from_str("sha384"), Ok(IntegrityType::Sha384));
    assert_eq!(IntegrityType::from_str(""), Ok(IntegrityType::Sha384));
    assert_eq!(IntegrityType::from_str("sha512"), Ok(IntegrityType::Sha512));
    assert_eq!(IntegrityType::from_str("md5"), Err(IntegrityTypeParseError::InvalidValue));
    assert_eq!(IntegrityTypeParseError::InvalidValue.to_string(), "invalid value");
    assert_eq!(IntegrityType::Sha512.as_str(), "sha512");
    assert_eq!(IntegrityType::Disabled.as_str(), "none");
    assert_eq!(IntegrityType::default(), IntegrityType::Sha384);
}

#[test]
fn integrity_from_attrs_and_switch() {
    assert_eq!(IntegrityType::from_attrs(&attrs(&[]), false), Ok(IntegrityType::Sha384));
    assert_eq!(IntegrityType::from_attrs(&attrs(&[]), true), Ok(IntegrityType::Disabled));
    assert_eq!(IntegrityType::from_attrs(&attrs(&[("data-integrity", "sha256")]), false), Ok(IntegrityType::Sha256));
    assert!(IntegrityType::from_attrs(&attrs(&[("data-integrity", "bogus")]), false).is_err());
    assert_eq!(IntegrityType::default_unless(true), IntegrityType::Disabled);
    assert_eq!(IntegrityType::default_unless(false), IntegrityType::Sha384);
}

#[test]
fn digests_give_the_standard_integrity_values() {
    let d = OutputDigest::generate_from(IntegrityType::Sha256, b"hello");
    assert_eq!(d.to_integrity_value().unwrap(), "sha256-LPJNul+wow4m6DsqxbninhsWHlwfp0JecwQzYpOLmCQ=");
    let d = OutputDigest::generate_from(IntegrityType::Sha384, b"hello");
    assert_eq!(
        d.to_integrity_value().unwrap(),
        "sha384-WeF0h3dEjGnea4ANejO7+5/xtGPkQ1TDVTvNucZm+pASWjx5+QOXvfX2oT3oKGhP"
    );
    let d = OutputDigest::generate_from(IntegrityType::Sha512, b"hello");
    assert_eq!(
        d.to_integrity_value().unwrap(),
        "sha512-m3HSJL1i83hdltRq0+o9czGb+8KJDKra4t/3JRlnPKcjI8PZm6XBHXx6zG4UuMXaDEZjR1wuXDre9G9zvN7AQw=="
    );
    let d = OutputDigest::generate_from(IntegrityType::Disabled, b"hello");
    assert!(d.hash.is_empty());
    assert_eq!(d.to_integrity_value(), None);
    assert_eq!(OutputDigest::default().to_integrity_value(), None);
}

#[test]
fn digest_is_inserted_as_an_attribute() {
    let mut a = attrs(&[("href", "x.css")]);
    OutputDigest::generate_from(IntegrityType::Sha256, b"hello").insert_into(&mut a);
    assert_eq!(a.get("integrity").unwrap(), "sha256-LPJNul+wow4m6DsqxbninhsWHlwfp0JecwQzYpOLmCQ=");
    let mut b = attrs(&[("href", "x.css")]);
    OutputDigest::default().insert_into(&mut b);
    assert!(b.get("integrity").is_none());
}

#[test]
fn attribute_writer_sorts_escapes_and_excludes() {
    let a = attrs(&[
        ("rel", "css"),
        ("href", "style.css"),
        ("media", "print and (x)"),
        ("data-trunk", ""),
        ("data-trunk-id", "3"),
        ("async", ""),
        ("crossorigin", "anonymous"),
    ]);
    let ex = exclude_css_link();
    let w = AttrWriter::new(&a, &ex);
    assert_eq!(w.to_string(), " async crossorigin=\"anonymous\" media=\"print&#x20;and&#x20;&#x28;x&#x29;\"");
}

#[test]
fn attrs_keep_the_last_value_of_a_name() {
    let mut a = Attrs::new();
    a.insert("a".to_string(), "1".to_string());
    a.insert("b".to_string(), "2".to_string());
    a.insert("a".to_string(), "3".to_string());
    assert_eq!(a.len(), 2);
    assert_eq!(a.get("a").unwrap(), "3");
    assert!(a.contains_key("b"));
    assert_eq!(a.remove("b"), Some("2".to_string()));
    assert!(!a.contains_key("b"));
    assert_eq!(a.remove("b"), None);
}

#[test]
fn sri_records_are_injected_as_preload_links() {
    let mut b = SriBuilder::new(IntegrityType::Sha256);
    b.record(SriType::ModulePreload, "app.js", SriOptions::new(), Ok::<&[u8], ()>(b"hello")).unwrap();
    b.record(SriType::Preload, "app_bg.wasm", SriOptions::new().as_attr("fetch").type_attr("application/wasm"), Ok::<&[u8], ()>(b"hello")).unwrap();
    let result = b.build();
    let mut head = Vec::new();
    result.inject(&mut head, "/", CrossOrigin::Anonymous, &Some("{{nonce}}".to_string()));
    assert_eq!(head.len(), 2);
    assert_eq!(
        head[0],
        "<link rel=\"modulepreload\" nonce=\"{{nonce}}\" href=\"/app.js\" crossorigin=\"anonymous\" integrity=\"sha256-LPJNul+wow4m6DsqxbninhsWHlwfp0JecwQzYpOLmCQ=\">"
    );
    assert_eq!(
        head[1],
        "<link rel=\"preload\" nonce=\"{{nonce}}\" href=\"/app_bg.wasm\" crossorigin=\"anonymous\" integrity=\"sha256-LPJNul+wow4m6DsqxbninhsWHlwfp0JecwQzYpOLmCQ=\" as=\"fetch\" type=\"application/wasm\">"
    );
}

#[test]
fn recording_a_key_twice_keeps_one_entry_with_the_last_value() {
    let mut b = SriBuilder::new(IntegrityType::Disabled);
    b.record(SriType::Preload, "a.wasm", SriOptions::new(), Ok::<&[u8], ()>(b"x")).unwrap();
    b.record(SriType::Preload, "b.wasm", SriOptions::new(), Ok::<&[u8], ()>(b"x")).unwrap();
    b.record(SriType::Preload, "a.wasm", SriOptions::new().as_attr("fetch"), Ok::<&[u8], ()>(b"y")).unwrap();
    let result = b.build();
    assert_eq!(result.integrities.len(), 2);
    assert_eq!(result.integrities[0].0.name, "a.wasm");
    assert_eq!(result.integrities[0].1.options.to_string(), " as=\"fetch\"");
    let mut head = Vec::new();
    result.inject(&mut head, "/base/", CrossOrigin::UseCredentials, &None);
    assert_eq!(head[1], "<link rel=\"preload\" href=\"/base/b.wasm\" crossorigin=\"use-credentials\">");
}

#[test]
fn cross_origin_names() {
    assert_eq!(CrossOrigin::from_str("anonymous"), Some(CrossOrigin::Anonymous));
    assert_eq!(CrossOrigin::from_str("use-credentials"), Some(CrossOrigin::UseCredentials));
    assert_eq!(CrossOrigin::from_str("other"), None);
    assert_eq!(CrossOrigin::default().as_str(), "anonymous");
    assert_eq!(SriType::ModulePreload.as_str(), "modulepreload");
}

#[test]
fn sri_record_reads_only_when_needed_and_hands_back_read_errors() {
    let mut off = SriBuilder::new(IntegrityType::Disabled);
    assert!(!off.reads_source());
    assert!(off.record(SriType::Preload, "a.wasm", SriOptions::new(), Err::<&[u8], &str>("unread")).is_ok());
    assert_eq!(off.clone().build().integrities.len(), 1);
    assert!(off.clone().build().integrities[0].1.digest.hash.is_empty());
    let mut on = SriBuilder::new(IntegrityType::Sha384);
    assert!(on.reads_source());
    assert_eq!(on.record(SriType::Preload, "a.wasm", SriOptions::new(), Err::<&[u8], &str>("gone")), Err("gone"));
    assert!(on.clone().build().integrities.is_empty());
    let d = OutputDigest::generate_from(IntegrityType::Sha512, b"x");
    assert_eq!(d.hash.len(), 64);
}
