use http::header::{
    ACCEPT, ACCEPT_ENCODING, CONNECTION, CONTENT_LENGTH, CONTENT_TYPE, COOKIE, DATE, EXPECT, HOST,
    USER_AGENT,
};
use http::{HeaderMap, HeaderValue, Uri};
use trunk::proxy::{
    header_ops, make_outbound_request, make_outbound_uri, make_path_and_query, HeaderOp, HeaderText, OutboundRequest,
    ProxyError, UriParts,
};

fn parts(u: &Uri) -> UriParts {
    UriParts {
        scheme: u.scheme_str().map(|s| s.to_string()),
        authority: u.authority().map(|a| a.as_str().to_string()),
        path: u.path().to_string(),
        query: u.query().map(|q| q.to_string()),
    }
}

fn outbound(backend: &Uri, request: &Uri) -> Result<Uri, ProxyError> {
    make_outbound_uri(&parts(backend), &parts(request)).map(|t| t.parse::<Uri>().expect("a URI"))
}

fn header_list(h: &HeaderMap) -> Vec<(String, Vec<u8>)> {
    h.iter().map(|(k, v)| (k.as_str().to_string(), v.as_bytes().to_vec())).collect()
}

fn override_list(h: HeaderMap) -> Vec<(Option<String>, Vec<u8>)> {
    h.into_iter().map(|(k, v)| (k.map(|k| k.as_str().to_string()), v.as_bytes().to_vec())).collect()
}

fn request(
    proto: &str,
    uri: &Uri,
    method: http::Method,
    original: HeaderMap,
    overrides: HeaderMap,
) -> Result<OutboundRequest, ProxyError> {
    make_outbound_request(proto, &uri.to_string(), method.as_str(), &header_list(&original), &override_list(overrides))
}

fn build(r: &OutboundRequest) -> http::Request<()> {
    let mut b = http::Request::builder().uri(r.uri.as_str()).method(r.method.as_str());
    for op in &r.headers {
        match op {
            HeaderOp::Append { name, value: HeaderText::Text(t) } => b = b.header(name.as_str(), t.as_str()),
            HeaderOp::Append { name, value: HeaderText::Bytes(v) } => b = b.header(name.as_str(), &v[..]),
            HeaderOp::Remove { name } => {
                if let Some(h) = b.headers_mut() {
                    h.remove(name.as_str());
                }
            }
            HeaderOp::Insert { name, value } => {
                if let Some(h) = b.headers_mut() {
                    h.insert(
                        http::header::HeaderName::from_bytes(name.as_bytes()).expect("name"),
                        HeaderValue::from_bytes(value).expect("value"),
                    );
                }
            }
        }
    }
    b.body(()).expect("request")
}

const X_FORWARDED_HOST: &str = "x-forwarded-host";

#[test]
fn make_outbound_uri_two_base_paths() {
    let backend = Uri::from_static("https://backend/");
    let request = Uri::from_static("http://localhost/");
    assert_eq!(
        outbound(&backend, &request).expect("Unexpected error"),
        Uri::from_static("https://backend/")
    )
}

#[test]
fn make_outbound_uri_two_empty_paths() {
    let backend = Uri::from_static("https://backend");
    let request = Uri::from_static("http://localhost");
    assert_eq!(
        outbound(&backend, &request).expect("Unexpected error"),
        Uri::from_static("https://backend/")
    )
}

#[test]
fn make_outbound_uri_two_with_query() {
    let backend = Uri::from_static("https://backend/");
    let request = Uri::from_static("http://localhost/auth?user=user&pwd=secret");
    assert_eq!(
        outbound(&backend, &request).expect("Unexpected error"),
        Uri::from_static("https://backend/auth?user=user&pwd=secret")
    )
}

#[test]
fn make_outbound_uri_two_slash_at_end() {
    let backend = Uri::from_static("https://backend/");
    let request = Uri::from_static("http://localhost/auth/");
    assert_eq!(
        outbound(&backend, &request).expect("Unexpected error"),
        Uri::from_static("https://backend/auth/")
    )
}

#[test]
fn make_outbound_uri_request_with_path() {
    let backend = Uri::from_static("https://backend/");
    let request = Uri::from_static("http://localhost/auth");
    assert_eq!(
        outbound(&backend, &request).expect("Unexpected error"),
        Uri::from_static("https://backend/auth")
    )
}

#[test]
fn make_outbound_uri_request_with_sub_paths() {
    let backend = Uri::from_static("https://backend/sub");
    let request = Uri::from_static("http://localhost/auth");
    assert_eq!(
        outbound(&backend, &request).expect("Unexpected error"),
        Uri::from_static("https://backend/sub/auth")
    )
}

#[test]
fn make_outbound_request_from_uri_and_headers() {
    let backend_uri = Uri::from_static("https://backend/sub");
    let inbound_uri = Uri::from_static("http://localhost/auth");
    let inbound_headers = vec![
        (HOST, HeaderValue::from_str("localhost").expect("Failed to create Header Value")),
        (USER_AGENT, HeaderValue::from_str("curl/7.64.1").expect("Failed to create Header Value")),
        (ACCEPT, HeaderValue::from_str("*/*").expect("Failed to create Header Value")),
        (ACCEPT_ENCODING, HeaderValue::from_str("deflate, gzip").expect("Failed to create Header Value")),
        (CONNECTION, HeaderValue::from_str("keep-alive").expect("Failed to create Header Value")),
        (CONTENT_LENGTH, HeaderValue::from_str("0").expect("Failed to create Header Value")),
        (CONTENT_TYPE, HeaderValue::from_str("application/json").expect("Failed to create Header Value")),
        (
            DATE,
            HeaderValue::from_str("Tue, 01 Dec 2020 00:00:00 GMT").expect("Failed to create Header Value"),
        ),
        (EXPECT, HeaderValue::from_str("").expect("Failed to create Header Value")),
        (
            COOKIE,
            HeaderValue::from_str("cookie1=value1; cookie2=value2").expect("Failed to create Header Value"),
        ),
        (
            COOKIE,
            HeaderValue::from_str("cookie3=value1; cookie4=value2").expect("Failed to create Header Value"),
        ),
    ];
    let mut want_headers = HeaderMap::new();

    for (key, val) in inbound_headers {
        want_headers.append(key, val);
    }

    let have_outbound_uri =
        outbound(&backend_uri, &inbound_uri).expect("Failed to create Uri instance from inbound");
    let have_outbound_req = build(
        &request("http", &have_outbound_uri, http::Method::GET, want_headers.clone(), Default::default())
            .expect("Failed to create Request instance from inbound"),
    );

    assert_eq!(have_outbound_req.uri(), &have_outbound_uri);
    assert_eq!(have_outbound_req.method(), &http::Method::GET);
    assert_eq!(
        have_outbound_req.headers().get(HOST).expect("Expected HOST header"),
        &HeaderValue::from_static("backend")
    );

    for key in want_headers.keys() {
        if key == HOST {
            continue;
        }

        if key == X_FORWARDED_HOST {
            assert_eq!(
                have_outbound_req
                    .headers()
                    .get(key.clone())
                    .unwrap_or_else(|| panic!("Expected header value for {}", key)),
                &HeaderValue::from_static("localhost")
            );
            continue;
        }

        let val = want_headers.get_all(key).iter().collect::<Vec<_>>();

        assert_eq!(have_outbound_req.headers().get_all(key.clone()).iter().collect::<Vec<_>>(), val);
    }
}

#[test]
fn forwarded_headers_carry_the_original_host_and_protocol() {
    let backend_uri = Uri::from_static("https://backend/sub");
    let mut headers = HeaderMap::new();
    headers.append(HOST, HeaderValue::from_static("localhost:8080"));
    let req = build(&request("https", &backend_uri, http::Method::POST, headers, HeaderMap::new()).expect("request"));
    assert_eq!(req.headers().get(HOST).unwrap(), &HeaderValue::from_static("backend"));
    assert_eq!(req.headers().get(X_FORWARDED_HOST).unwrap(), &HeaderValue::from_static("localhost:8080"));
    assert_eq!(req.headers().get("x-forwarded-proto").unwrap(), &HeaderValue::from_static("https"));
    assert_eq!(req.method(), &http::Method::POST);
}

#[test]
fn header_overrides_replace_or_remove() {
    let backend_uri = Uri::from_static("https://backend/");
    let mut headers = HeaderMap::new();
    headers.append(USER_AGENT, HeaderValue::from_static("curl"));
    headers.append(ACCEPT, HeaderValue::from_static("*/*"));
    let mut overrides = HeaderMap::new();
    overrides.append(USER_AGENT, HeaderValue::from_static("trunk"));
    overrides.append(ACCEPT, HeaderValue::from_static(""));
    let req = build(&request("http", &backend_uri, http::Method::GET, headers, overrides).expect("request"));
    assert_eq!(req.headers().get(USER_AGENT).unwrap(), &HeaderValue::from_static("trunk"));
    assert!(req.headers().get(ACCEPT).is_none());
}

#[test]
fn uri_without_host_is_refused() {
    let uri = Uri::from_static("/only/a/path");
    let res = request("http", &uri, http::Method::GET, HeaderMap::new(), HeaderMap::new());
    assert!(matches!(res, Err(ProxyError::NoHost)));
    assert_eq!(ProxyError::NoHost.to_string(), "No host found in outbound URI");
    assert_eq!(ProxyError::BuildUri.to_string(), "error building proxy request to backend");
}

#[test]
fn path_and_query_joins_backend_and_request() {
    assert_eq!(make_path_and_query("/sub", "/auth", &None), "/sub/auth");
    assert_eq!(make_path_and_query("/", "/auth/", &None), "/auth/");
    assert_eq!(make_path_and_query("", "", &None), "/");
    assert_eq!(make_path_and_query("/", "/auth", &Some("a=b".to_string())), "/auth?a=b");
}

#[test]
fn header_ops_rewrite_host_then_apply_overrides() {
    let original = vec![
        ("host".to_string(), b"localhost".to_vec()),
        ("accept".to_string(), b"*/*".to_vec()),
    ];
    let overrides = vec![
        (Some("accept".to_string()), Vec::new()),
        (None, b"ignored".to_vec()),
        (Some("user-agent".to_string()), b"trunk".to_vec()),
    ];
    let ops = header_ops("http", "backend", &original, &overrides);
    assert_eq!(ops.len(), 6);
    assert!(matches!(&ops[0], HeaderOp::Append { name, value: HeaderText::Text(t) } if name == "host" && t == "backend"));
    assert!(matches!(&ops[1], HeaderOp::Append { name, value: HeaderText::Bytes(b) } if name == "x-forwarded-host" && b == b"localhost"));
    assert!(matches!(&ops[2], HeaderOp::Append { name, value: HeaderText::Text(t) } if name == "x-forwarded-proto" && t == "http"));
    assert!(matches!(&ops[3], HeaderOp::Append { name, value: HeaderText::Bytes(b) } if name == "accept" && b == b"*/*"));
    assert!(matches!(&ops[4], HeaderOp::Remove { name } if name == "accept"));
    assert!(matches!(&ops[5], HeaderOp::Insert { name, value } if name == "user-agent" && value == b"trunk"));
}

#[test]
fn outbound_uri_text_and_backend_without_authority() {
    let backend = parts(&Uri::from_static("https://backend/sub"));
    let request = parts(&Uri::from_static("http://localhost/auth?a=b"));
    assert_eq!(make_outbound_uri(&backend, &request).unwrap(), "https://backend/sub/auth?a=b");
    let no_authority = UriParts { scheme: Some("https".to_string()), authority: None, path: "/".to_string(), query: None };
    assert!(matches!(make_outbound_uri(&no_authority, &request), Err(ProxyError::BuildUri)));
    let r = make_outbound_request("http", "https://backend:8443/x", "PUT", &vec![("host".to_string(), b"a".to_vec())], &Vec::new())
        .expect("host");
    assert_eq!(r.uri, "https://backend:8443/x");
    assert_eq!(r.method, "PUT");
    assert!(matches!(&r.headers[0], HeaderOp::Append { name, value: HeaderText::Text(t) } if name == "host" && t == "backend"));
}
